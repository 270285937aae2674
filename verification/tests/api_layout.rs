use gmsv_serverstat::api::{
    all_names, handler, lua_name, request_name, table_access, Handler, LuaName, LuaTable,
    RealtimeFunction, RealtimeTable, SysInfoRequestData, TableAccess,
};

const ALL_DATA: [SysInfoRequestData; 11] = [
    SysInfoRequestData::ProcessCpuUsage,
    SysInfoRequestData::ProcessMemoryUsage,
    SysInfoRequestData::SystemCpuUsage,
    SysInfoRequestData::SystemMemoryUsage,
    SysInfoRequestData::SystemAvailableMemory,
    SysInfoRequestData::All,
    SysInfoRequestData::AllSystem,
    SysInfoRequestData::AllProcess,
    SysInfoRequestData::SystemTotalMemory,
    SysInfoRequestData::LogicalCpus,
    SysInfoRequestData::PhysicalCpus,
];

fn keys_of(table: LuaTable) -> Vec<&'static str> {
    all_names()
        .into_iter()
        .filter(|n| handler(table, *n).is_some())
        .map(lua_name)
        .collect()
}

#[test]
fn blocking_table_holds_blocking_functions() {
    assert_eq!(
        handler(LuaTable::ServerStat, LuaName::ProcessCpuUsage),
        Some(Handler::Blocking(SysInfoRequestData::ProcessCpuUsage))
    );
    assert_eq!(
        handler(LuaTable::ServerStat, LuaName::PhysicalCpus),
        Some(Handler::Blocking(SysInfoRequestData::PhysicalCpus))
    );
    assert_eq!(handler(LuaTable::ServerStat, LuaName::Start), None);
    assert_eq!(handler(LuaTable::ServerStat, LuaName::AllCopy), None);
}

#[test]
fn every_blocking_function_has_async_equivalent() {
    for name in all_names() {
        match handler(LuaTable::ServerStat, name) {
            Some(Handler::Blocking(d)) => {
                assert_eq!(handler(LuaTable::Async, name), Some(Handler::Async(d)))
            }
            None => assert_eq!(handler(LuaTable::Async, name), None),
            other => panic!("unexpected handler {:?}", other),
        }
    }
}

#[test]
fn every_request_is_exported_under_its_name() {
    for data in ALL_DATA {
        let name = request_name(data);
        assert_eq!(handler(LuaTable::ServerStat, name), Some(Handler::Blocking(data)));
        assert_eq!(handler(LuaTable::Async, name), Some(Handler::Async(data)));
    }
    assert_eq!(request_name(SysInfoRequestData::LogicalCpus), LuaName::LogicalCpus);
}

#[test]
fn realtime_table_omits_constant_values() {
    assert_eq!(handler(LuaTable::Realtime, LuaName::LogicalCpus), None);
    assert_eq!(handler(LuaTable::Realtime, LuaName::PhysicalCpus), None);
    assert_eq!(handler(LuaTable::Realtime, LuaName::SystemTotalMemory), None);
    assert_eq!(
        handler(LuaTable::Realtime, LuaName::SystemAvailableMemory),
        Some(Handler::Realtime(RealtimeFunction::SystemAvailableMemory))
    );
}

#[test]
fn realtime_copies_have_their_own_functions() {
    assert_eq!(
        handler(LuaTable::Realtime, LuaName::AllCopy),
        Some(Handler::Realtime(RealtimeFunction::AllCopy))
    );
    assert_eq!(
        handler(LuaTable::Realtime, LuaName::AllSystemCopy),
        Some(Handler::Realtime(RealtimeFunction::AllSystemCopy))
    );
    assert_eq!(
        handler(LuaTable::Realtime, LuaName::AllProcessCopy),
        Some(Handler::Realtime(RealtimeFunction::AllProcessCopy))
    );
    assert_ne!(
        handler(LuaTable::Realtime, LuaName::AllCopy),
        handler(LuaTable::Realtime, LuaName::All)
    );
    assert_eq!(
        handler(LuaTable::Realtime, LuaName::SetInterval),
        Some(Handler::Realtime(RealtimeFunction::SetInterval))
    );
}

#[test]
fn shared_tables_and_copies() {
    let pairs = [
        (RealtimeFunction::All, RealtimeFunction::AllCopy, RealtimeTable::All),
        (RealtimeFunction::AllSystem, RealtimeFunction::AllSystemCopy, RealtimeTable::System),
        (RealtimeFunction::AllProcess, RealtimeFunction::AllProcessCopy, RealtimeTable::Process),
    ];
    for (shared, copy, table) in pairs {
        assert_eq!(table_access(shared), Some(TableAccess { table, copy: false }));
        assert_eq!(table_access(copy), Some(TableAccess { table, copy: true }));
    }
    assert_eq!(table_access(RealtimeFunction::Start), None);
    assert_eq!(table_access(RealtimeFunction::SystemCpuUsage), None);
}

#[test]
fn table_keys_match_documentation() {
    let mut serverstat = keys_of(LuaTable::ServerStat);
    serverstat.sort();
    assert_eq!(
        serverstat,
        vec![
            "All",
            "AllProcess",
            "AllSystem",
            "LogicalCPUs",
            "PhysicalCPUs",
            "ProcessCPUUsage",
            "ProcessMemoryUsage",
            "SystemAvailableMemory",
            "SystemCPUUsage",
            "SystemMemoryUsage",
            "SystemTotalMemory",
        ]
    );
    let mut asynchronous = keys_of(LuaTable::Async);
    asynchronous.sort();
    assert_eq!(asynchronous, serverstat);
    let mut realtime = keys_of(LuaTable::Realtime);
    realtime.sort();
    assert_eq!(
        realtime,
        vec![
            "All",
            "AllCopy",
            "AllProcess",
            "AllProcessCopy",
            "AllSystem",
            "AllSystemCopy",
            "ProcessCPUUsage",
            "ProcessMemoryUsage",
            "SetInterval",
            "Start",
            "Stop",
            "SystemAvailableMemory",
            "SystemCPUUsage",
            "SystemMemoryUsage",
        ]
    );
}

#[test]
fn lua_names_are_distinct() {
    let names = all_names();
    assert_eq!(names.len(), 17);
    let mut spelled: Vec<&str> = names.iter().map(|n| lua_name(*n)).collect();
    spelled.sort();
    spelled.dedup();
    assert_eq!(spelled.len(), 17);
    assert_eq!(lua_name(LuaName::SystemCpuUsage), "SystemCPUUsage");
    assert_eq!(lua_name(LuaName::LogicalCpus), "LogicalCPUs");
}
