//! Layout of the Lua API.
//!
//! The module exports three tables: `serverstat`, whose functions acquire
//! the data while the caller waits; `serverstat.async`, which holds an
//! asynchronous equivalent of each of them; and `serverstat.realtime`, whose
//! functions serve data that a timer keeps up to date. The realtime table has
//! no function for the values that never change (CPU counts, total memory);
//! its `All`, `AllSystem` and `AllProcess` hand out tables shared with other
//! addons, and the `...Copy` functions hand out copies of them.
use vstd::prelude::*;

verus! {

/// The data a function of the API acquires.
#[derive(Clone, Copy, Debug, PartialEq, Eq, Structural)]
pub enum SysInfoRequestData {
    ProcessCpuUsage,
    ProcessMemoryUsage,
    SystemCpuUsage,
    SystemMemoryUsage,
    SystemAvailableMemory,
    All,
    AllSystem,
    AllProcess,
    SystemTotalMemory,
    LogicalCpus,
    PhysicalCpus,
}

/// The functions of the realtime table.
#[derive(Clone, Copy, Debug, PartialEq, Eq, Structural)]
pub enum RealtimeFunction {
    ProcessCpuUsage,
    ProcessMemoryUsage,
    SystemCpuUsage,
    SystemMemoryUsage,
    SystemAvailableMemory,
    All,
    AllSystem,
    AllProcess,
    AllCopy,
    AllSystemCopy,
    AllProcessCopy,
    Start,
    Stop,
    SetInterval,
}

/// The tables of realtime data kept for all addons to share.
#[derive(Clone, Copy, Debug, PartialEq, Eq, Structural)]
pub enum RealtimeTable {
    /// `{ System = ..., Process = ... }`
    All,
    /// `{ CPUUsage, MemoryUsage, AvailableMemory }` of the system
    System,
    /// `{ CPUUsage, MemoryUsage }` of the server process
    Process,
}

/// How a realtime function hands out one of the shared tables: the table
/// itself, which other addons also see, or a fresh copy that the caller may
/// change freely.
#[derive(Clone, Copy, Debug, PartialEq, Eq, Structural)]
pub struct TableAccess {
    pub table: RealtimeTable,
    pub copy: bool,
}

/// The tables of the API.
#[derive(Clone, Copy, Debug, PartialEq, Eq, Structural)]
pub enum LuaTable {
    /// `serverstat`
    ServerStat,
    /// `serverstat.async`
    Async,
    /// `serverstat.realtime`
    Realtime,
}

/// The keys under which functions are exported.
#[derive(Clone, Copy, Debug, PartialEq, Eq, Structural)]
pub enum LuaName {
    ProcessCpuUsage,
    ProcessMemoryUsage,
    SystemCpuUsage,
    SystemMemoryUsage,
    SystemAvailableMemory,
    All,
    AllSystem,
    AllProcess,
    SystemTotalMemory,
    LogicalCpus,
    PhysicalCpus,
    Start,
    Stop,
    AllCopy,
    AllSystemCopy,
    AllProcessCopy,
    SetInterval,
}

/// The function stored under a key.
#[derive(Clone, Copy, Debug, PartialEq, Eq, Structural)]
pub enum Handler {
    /// Acquires the data and returns it.
    Blocking(SysInfoRequestData),
    /// Acquires the data on the worker thread and hands it to a callback.
    Async(SysInfoRequestData),
    /// A function of the realtime table.
    Realtime(RealtimeFunction),
}

/// The key under which the functions for a kind of data are exported.
pub open spec fn spec_request_name(data: SysInfoRequestData) -> LuaName {
    match data {
        SysInfoRequestData::ProcessCpuUsage => LuaName::ProcessCpuUsage,
        SysInfoRequestData::ProcessMemoryUsage => LuaName::ProcessMemoryUsage,
        SysInfoRequestData::SystemCpuUsage => LuaName::SystemCpuUsage,
        SysInfoRequestData::SystemMemoryUsage => LuaName::SystemMemoryUsage,
        SysInfoRequestData::SystemAvailableMemory => LuaName::SystemAvailableMemory,
        SysInfoRequestData::All => LuaName::All,
        SysInfoRequestData::AllSystem => LuaName::AllSystem,
        SysInfoRequestData::AllProcess => LuaName::AllProcess,
        SysInfoRequestData::SystemTotalMemory => LuaName::SystemTotalMemory,
        SysInfoRequestData::LogicalCpus => LuaName::LogicalCpus,
        SysInfoRequestData::PhysicalCpus => LuaName::PhysicalCpus,
    }
}

/// The kind of data whose functions are exported under a key, if any.
pub open spec fn spec_data_of_name(name: LuaName) -> Option<SysInfoRequestData> {
    match name {
        LuaName::ProcessCpuUsage => Some(SysInfoRequestData::ProcessCpuUsage),
        LuaName::ProcessMemoryUsage => Some(SysInfoRequestData::ProcessMemoryUsage),
        LuaName::SystemCpuUsage => Some(SysInfoRequestData::SystemCpuUsage),
        LuaName::SystemMemoryUsage => Some(SysInfoRequestData::SystemMemoryUsage),
        LuaName::SystemAvailableMemory => Some(SysInfoRequestData::SystemAvailableMemory),
        LuaName::All => Some(SysInfoRequestData::All),
        LuaName::AllSystem => Some(SysInfoRequestData::AllSystem),
        LuaName::AllProcess => Some(SysInfoRequestData::AllProcess),
        LuaName::SystemTotalMemory => Some(SysInfoRequestData::SystemTotalMemory),
        LuaName::LogicalCpus => Some(SysInfoRequestData::LogicalCpus),
        LuaName::PhysicalCpus => Some(SysInfoRequestData::PhysicalCpus),
        _ => None,
    }
}

/// The function of the realtime table stored under a key, if any.
pub open spec fn spec_realtime_of_name(name: LuaName) -> Option<RealtimeFunction> {
    match name {
        LuaName::ProcessCpuUsage => Some(RealtimeFunction::ProcessCpuUsage),
        LuaName::ProcessMemoryUsage => Some(RealtimeFunction::ProcessMemoryUsage),
        LuaName::SystemCpuUsage => Some(RealtimeFunction::SystemCpuUsage),
        LuaName::SystemMemoryUsage => Some(RealtimeFunction::SystemMemoryUsage),
        LuaName::SystemAvailableMemory => Some(RealtimeFunction::SystemAvailableMemory),
        LuaName::Start => Some(RealtimeFunction::Start),
        LuaName::Stop => Some(RealtimeFunction::Stop),
        LuaName::All => Some(RealtimeFunction::All),
        LuaName::AllCopy => Some(RealtimeFunction::AllCopy),
        LuaName::AllSystem => Some(RealtimeFunction::AllSystem),
        LuaName::AllSystemCopy => Some(RealtimeFunction::AllSystemCopy),
        LuaName::AllProcess => Some(RealtimeFunction::AllProcess),
        LuaName::AllProcessCopy => Some(RealtimeFunction::AllProcessCopy),
        LuaName::SetInterval => Some(RealtimeFunction::SetInterval),
        _ => None,
    }
}

/// What a table holds under a key.
pub open spec fn spec_handler(table: LuaTable, name: LuaName) -> Option<Handler> {
    match table {
        LuaTable::ServerStat => match spec_data_of_name(name) {
            Some(d) => Some(Handler::Blocking(d)),
            None => None,
        },
        LuaTable::Async => match spec_data_of_name(name) {
            Some(d) => Some(Handler::Async(d)),
            None => None,
        },
        LuaTable::Realtime => match spec_realtime_of_name(name) {
            Some(f) => Some(Handler::Realtime(f)),
            None => None,
        },
    }
}

/// The key under which the functions for a kind of data are exported.
pub fn request_name(data: SysInfoRequestData) -> (name: LuaName)
    ensures
        name == spec_request_name(data),
{
    match data {
        SysInfoRequestData::ProcessCpuUsage => LuaName::ProcessCpuUsage,
        SysInfoRequestData::ProcessMemoryUsage => LuaName::ProcessMemoryUsage,
        SysInfoRequestData::SystemCpuUsage => LuaName::SystemCpuUsage,
        SysInfoRequestData::SystemMemoryUsage => LuaName::SystemMemoryUsage,
        SysInfoRequestData::SystemAvailableMemory => LuaName::SystemAvailableMemory,
        SysInfoRequestData::All => LuaName::All,
        SysInfoRequestData::AllSystem => LuaName::AllSystem,
        SysInfoRequestData::AllProcess => LuaName::AllProcess,
        SysInfoRequestData::SystemTotalMemory => LuaName::SystemTotalMemory,
        SysInfoRequestData::LogicalCpus => LuaName::LogicalCpus,
        SysInfoRequestData::PhysicalCpus => LuaName::PhysicalCpus,
    }
}

fn data_of_name(name: LuaName) -> (r: Option<SysInfoRequestData>)
    ensures
        r == spec_data_of_name(name),
{
    match name {
        LuaName::ProcessCpuUsage => Some(SysInfoRequestData::ProcessCpuUsage),
        LuaName::ProcessMemoryUsage => Some(SysInfoRequestData::ProcessMemoryUsage),
        LuaName::SystemCpuUsage => Some(SysInfoRequestData::SystemCpuUsage),
        LuaName::SystemMemoryUsage => Some(SysInfoRequestData::SystemMemoryUsage),
        LuaName::SystemAvailableMemory => Some(SysInfoRequestData::SystemAvailableMemory),
        LuaName::All => Some(SysInfoRequestData::All),
        LuaName::AllSystem => Some(SysInfoRequestData::AllSystem),
        LuaName::AllProcess => Some(SysInfoRequestData::AllProcess),
        LuaName::SystemTotalMemory => Some(SysInfoRequestData::SystemTotalMemory),
        LuaName::LogicalCpus => Some(SysInfoRequestData::LogicalCpus),
        LuaName::PhysicalCpus => Some(SysInfoRequestData::PhysicalCpus),
        _ => None,
    }
}

fn realtime_of_name(name: LuaName) -> (r: Option<RealtimeFunction>)
    ensures
        r == spec_realtime_of_name(name),
{
    match name {
        LuaName::ProcessCpuUsage => Some(RealtimeFunction::ProcessCpuUsage),
        LuaName::ProcessMemoryUsage => Some(RealtimeFunction::ProcessMemoryUsage),
        LuaName::SystemCpuUsage => Some(RealtimeFunction::SystemCpuUsage),
        LuaName::SystemMemoryUsage => Some(RealtimeFunction::SystemMemoryUsage),
        LuaName::SystemAvailableMemory => Some(RealtimeFunction::SystemAvailableMemory),
        LuaName::Start => Some(RealtimeFunction::Start),
        LuaName::Stop => Some(RealtimeFunction::Stop),
        LuaName::All => Some(RealtimeFunction::All),
        LuaName::AllCopy => Some(RealtimeFunction::AllCopy),
        LuaName::AllSystem => Some(RealtimeFunction::AllSystem),
        LuaName::AllSystemCopy => Some(RealtimeFunction::AllSystemCopy),
        LuaName::AllProcess => Some(RealtimeFunction::AllProcess),
        LuaName::AllProcessCopy => Some(RealtimeFunction::AllProcessCopy),
        LuaName::SetInterval => Some(RealtimeFunction::SetInterval),
        _ => None,
    }
}

/// The function a table holds under a key; `None` when the key is absent.
pub fn handler(table: LuaTable, name: LuaName) -> (h: Option<Handler>)
    ensures
        h == spec_handler(table, name),
{
    match table {
        LuaTable::ServerStat => match data_of_name(name) {
            Some(d) => Some(Handler::Blocking(d)),
            None => None,
        },
        LuaTable::Async => match data_of_name(name) {
            Some(d) => Some(Handler::Async(d)),
            None => None,
        },
        LuaTable::Realtime => match realtime_of_name(name) {
            Some(f) => Some(Handler::Realtime(f)),
            None => None,
        },
    }
}

/// The Lua spelling of a key.
pub open spec fn spec_lua_name(name: LuaName) -> Seq<char> {
    match name {
        LuaName::ProcessCpuUsage => "ProcessCPUUsage"@,
        LuaName::ProcessMemoryUsage => "ProcessMemoryUsage"@,
        LuaName::SystemCpuUsage => "SystemCPUUsage"@,
        LuaName::SystemMemoryUsage => "SystemMemoryUsage"@,
        LuaName::SystemAvailableMemory => "SystemAvailableMemory"@,
        LuaName::All => "All"@,
        LuaName::AllSystem => "AllSystem"@,
        LuaName::AllProcess => "AllProcess"@,
        LuaName::SystemTotalMemory => "SystemTotalMemory"@,
        LuaName::LogicalCpus => "LogicalCPUs"@,
        LuaName::PhysicalCpus => "PhysicalCPUs"@,
        LuaName::Start => "Start"@,
        LuaName::Stop => "Stop"@,
        LuaName::AllCopy => "AllCopy"@,
        LuaName::AllSystemCopy => "AllSystemCopy"@,
        LuaName::AllProcessCopy => "AllProcessCopy"@,
        LuaName::SetInterval => "SetInterval"@,
    }
}

/// The Lua spelling of a key.
pub fn lua_name(name: LuaName) -> (s: &'static str)
    ensures
        s@ == spec_lua_name(name),
{
    match name {
        LuaName::ProcessCpuUsage => "ProcessCPUUsage",
        LuaName::ProcessMemoryUsage => "ProcessMemoryUsage",
        LuaName::SystemCpuUsage => "SystemCPUUsage",
        LuaName::SystemMemoryUsage => "SystemMemoryUsage",
        LuaName::SystemAvailableMemory => "SystemAvailableMemory",
        LuaName::All => "All",
        LuaName::AllSystem => "AllSystem",
        LuaName::AllProcess => "AllProcess",
        LuaName::SystemTotalMemory => "SystemTotalMemory",
        LuaName::LogicalCpus => "LogicalCPUs",
        LuaName::PhysicalCpus => "PhysicalCPUs",
        LuaName::Start => "Start",
        LuaName::Stop => "Stop",
        LuaName::AllCopy => "AllCopy",
        LuaName::AllSystemCopy => "AllSystemCopy",
        LuaName::AllProcessCopy => "AllProcessCopy",
        LuaName::SetInterval => "SetInterval",
    }
}

/// Every key, each once.
pub fn all_names() -> (v: Vec<LuaName>)
    ensures
        forall|n: LuaName| v@.contains(n),
        v@.no_duplicates(),
{
    let v = vec![
        LuaName::ProcessCpuUsage,
        LuaName::ProcessMemoryUsage,
        LuaName::SystemCpuUsage,
        LuaName::SystemMemoryUsage,
        LuaName::SystemAvailableMemory,
        LuaName::All,
        LuaName::AllSystem,
        LuaName::AllProcess,
        LuaName::SystemTotalMemory,
        LuaName::LogicalCpus,
        LuaName::PhysicalCpus,
        LuaName::Start,
        LuaName::Stop,
        LuaName::AllCopy,
        LuaName::AllSystemCopy,
        LuaName::AllProcessCopy,
        LuaName::SetInterval,
    ];
    v
}

/// Each blocking function has an asynchronous equivalent under the same key,
/// acquiring the same data, and the asynchronous table holds nothing else.
pub proof fn lemma_async_mirrors_blocking(name: LuaName)
    ensures
        spec_handler(LuaTable::ServerStat, name) is Some <==> spec_handler(LuaTable::Async, name) is Some,
        forall|d: SysInfoRequestData|
            spec_handler(LuaTable::ServerStat, name) == Some(Handler::Blocking(d))
                <==> spec_handler(LuaTable::Async, name) == Some(Handler::Async(d)),
{
}

/// Every kind of data is exported, blocking and asynchronous, under its own
/// key.
pub proof fn lemma_every_request_exported(data: SysInfoRequestData)
    ensures
        spec_handler(LuaTable::ServerStat, spec_request_name(data)) == Some(Handler::Blocking(data)),
        spec_handler(LuaTable::Async, spec_request_name(data)) == Some(Handler::Async(data)),
{
}

/// Each table holds functions of its own kind only.
pub proof fn lemma_tables_hold_own_kind(name: LuaName)
    ensures
        spec_handler(LuaTable::ServerStat, name) matches Some(h) ==> h is Blocking,
        spec_handler(LuaTable::Async, name) matches Some(h) ==> h is Async,
        spec_handler(LuaTable::Realtime, name) matches Some(h) ==> h is Realtime,
{
}

/// The realtime table has no function for the values that never change.
pub proof fn lemma_realtime_omits_constants()
    ensures
        spec_handler(LuaTable::Realtime, LuaName::LogicalCpus) is None,
        spec_handler(LuaTable::Realtime, LuaName::PhysicalCpus) is None,
        spec_handler(LuaTable::Realtime, LuaName::SystemTotalMemory) is None,
{
}

/// The realtime table serves, under the same key, every value of the
/// blocking table that changes over time.
pub proof fn lemma_realtime_covers_dynamic_values(name: LuaName)
    requires
        spec_handler(LuaTable::ServerStat, name) is Some,
        name != LuaName::LogicalCpus,
        name != LuaName::PhysicalCpus,
        name != LuaName::SystemTotalMemory,
    ensures
        spec_handler(LuaTable::Realtime, name) is Some,
{
}

/// The table a realtime function hands out, and whether it hands out a copy;
/// `None` for the functions that return no table.
pub open spec fn spec_table_access(f: RealtimeFunction) -> Option<TableAccess> {
    match f {
        RealtimeFunction::All => Some(TableAccess { table: RealtimeTable::All, copy: false }),
        RealtimeFunction::AllSystem => Some(TableAccess { table: RealtimeTable::System, copy: false }),
        RealtimeFunction::AllProcess => Some(TableAccess { table: RealtimeTable::Process, copy: false }),
        RealtimeFunction::AllCopy => Some(TableAccess { table: RealtimeTable::All, copy: true }),
        RealtimeFunction::AllSystemCopy => Some(TableAccess { table: RealtimeTable::System, copy: true }),
        RealtimeFunction::AllProcessCopy => Some(TableAccess { table: RealtimeTable::Process, copy: true }),
        _ => None,
    }
}

/// The table a realtime function hands out, and whether it hands out a copy.
pub fn table_access(f: RealtimeFunction) -> (a: Option<TableAccess>)
    ensures
        a == spec_table_access(f),
{
    match f {
        RealtimeFunction::All => Some(TableAccess { table: RealtimeTable::All, copy: false }),
        RealtimeFunction::AllSystem => Some(TableAccess { table: RealtimeTable::System, copy: false }),
        RealtimeFunction::AllProcess => Some(TableAccess { table: RealtimeTable::Process, copy: false }),
        RealtimeFunction::AllCopy => Some(TableAccess { table: RealtimeTable::All, copy: true }),
        RealtimeFunction::AllSystemCopy => Some(TableAccess { table: RealtimeTable::System, copy: true }),
        RealtimeFunction::AllProcessCopy => Some(TableAccess { table: RealtimeTable::Process, copy: true }),
        _ => None,
    }
}

/// Under `shared` the realtime table holds a function handing out one of the
/// shared tables, and under `copy` a different function handing out a copy of
/// that same table.
pub open spec fn serves_shared_and_copy(shared: LuaName, copy: LuaName) -> bool {
    &&& spec_handler(LuaTable::Realtime, shared) != spec_handler(LuaTable::Realtime, copy)
    &&& spec_handler(LuaTable::Realtime, shared) matches Some(Handler::Realtime(fs))
    &&& spec_handler(LuaTable::Realtime, copy) matches Some(Handler::Realtime(fc))
    &&& spec_table_access(fs) matches Some(a)
    &&& spec_table_access(fc) matches Some(b)
    &&& a.table == b.table
    &&& !a.copy
    &&& b.copy
}

/// `All`, `AllSystem` and `AllProcess` hand out the tables shared with other
/// addons; `AllCopy`, `AllSystemCopy` and `AllProcessCopy` hand out copies of
/// those same tables, through functions of their own.
pub proof fn lemma_realtime_copies_are_copies()
    ensures
        serves_shared_and_copy(LuaName::All, LuaName::AllCopy),
        serves_shared_and_copy(LuaName::AllSystem, LuaName::AllSystemCopy),
        serves_shared_and_copy(LuaName::AllProcess, LuaName::AllProcessCopy),
{
}

/// Every realtime function that hands out a table is exported under a key of
/// the realtime table.
pub proof fn lemma_realtime_tables_reachable(f: RealtimeFunction)
    requires
        spec_table_access(f) is Some,
    ensures
        exists|name: LuaName| spec_handler(LuaTable::Realtime, name) == Some(Handler::Realtime(f)),
{
    let name = match f {
        RealtimeFunction::All => LuaName::All,
        RealtimeFunction::AllSystem => LuaName::AllSystem,
        RealtimeFunction::AllProcess => LuaName::AllProcess,
        RealtimeFunction::AllCopy => LuaName::AllCopy,
        RealtimeFunction::AllSystemCopy => LuaName::AllSystemCopy,
        _ => LuaName::AllProcessCopy,
    };
    assert(spec_handler(LuaTable::Realtime, name) == Some(Handler::Realtime(f)));
}

/// Distinct keys are spelt differently in Lua, so no function overwrites
/// another in a table.
pub proof fn lemma_lua_names_distinct(a: LuaName, b: LuaName)
    requires
        a != b,
    ensures
        spec_lua_name(a) != spec_lua_name(b),
{
    reveal_strlit("ProcessCPUUsage");
    reveal_strlit("ProcessMemoryUsage");
    reveal_strlit("SystemCPUUsage");
    reveal_strlit("SystemMemoryUsage");
    reveal_strlit("SystemAvailableMemory");
    reveal_strlit("All");
    reveal_strlit("AllSystem");
    reveal_strlit("AllProcess");
    reveal_strlit("SystemTotalMemory");
    reveal_strlit("LogicalCPUs");
    reveal_strlit("PhysicalCPUs");
    reveal_strlit("Start");
    reveal_strlit("Stop");
    reveal_strlit("AllCopy");
    reveal_strlit("AllSystemCopy");
    reveal_strlit("AllProcessCopy");
    reveal_strlit("SetInterval");
    let (x, y) = (spec_lua_name(a), spec_lua_name(b));
    if x.len() == y.len() {
        // Equal lengths: the spellings differ in their first or seventh letter.
        assert(x[0] != y[0] || x[6] != y[6]);
    }
}

/// Each key of the blocking and asynchronous tables acquires the data it is
/// named after (`serverstat.SystemMemoryUsage()` the used memory,
/// `serverstat.AllSystem()` the system table, and so on), and the keys of
/// the realtime control functions and copies are absent from both tables.
pub proof fn lemma_blocking_and_async_keys_hold_their_data()
    ensures
        spec_handler(LuaTable::ServerStat, LuaName::ProcessCpuUsage) == Some(Handler::Blocking(SysInfoRequestData::ProcessCpuUsage)),
        spec_handler(LuaTable::Async, LuaName::ProcessCpuUsage) == Some(Handler::Async(SysInfoRequestData::ProcessCpuUsage)),
        spec_handler(LuaTable::ServerStat, LuaName::ProcessMemoryUsage) == Some(Handler::Blocking(SysInfoRequestData::ProcessMemoryUsage)),
        spec_handler(LuaTable::Async, LuaName::ProcessMemoryUsage) == Some(Handler::Async(SysInfoRequestData::ProcessMemoryUsage)),
        spec_handler(LuaTable::ServerStat, LuaName::SystemCpuUsage) == Some(Handler::Blocking(SysInfoRequestData::SystemCpuUsage)),
        spec_handler(LuaTable::Async, LuaName::SystemCpuUsage) == Some(Handler::Async(SysInfoRequestData::SystemCpuUsage)),
        spec_handler(LuaTable::ServerStat, LuaName::SystemMemoryUsage) == Some(Handler::Blocking(SysInfoRequestData::SystemMemoryUsage)),
        spec_handler(LuaTable::Async, LuaName::SystemMemoryUsage) == Some(Handler::Async(SysInfoRequestData::SystemMemoryUsage)),
        spec_handler(LuaTable::ServerStat, LuaName::SystemAvailableMemory) == Some(Handler::Blocking(SysInfoRequestData::SystemAvailableMemory)),
        spec_handler(LuaTable::Async, LuaName::SystemAvailableMemory) == Some(Handler::Async(SysInfoRequestData::SystemAvailableMemory)),
        spec_handler(LuaTable::ServerStat, LuaName::All) == Some(Handler::Blocking(SysInfoRequestData::All)),
        spec_handler(LuaTable::Async, LuaName::All) == Some(Handler::Async(SysInfoRequestData::All)),
        spec_handler(LuaTable::ServerStat, LuaName::AllSystem) == Some(Handler::Blocking(SysInfoRequestData::AllSystem)),
        spec_handler(LuaTable::Async, LuaName::AllSystem) == Some(Handler::Async(SysInfoRequestData::AllSystem)),
        spec_handler(LuaTable::ServerStat, LuaName::AllProcess) == Some(Handler::Blocking(SysInfoRequestData::AllProcess)),
        spec_handler(LuaTable::Async, LuaName::AllProcess) == Some(Handler::Async(SysInfoRequestData::AllProcess)),
        spec_handler(LuaTable::ServerStat, LuaName::SystemTotalMemory) == Some(Handler::Blocking(SysInfoRequestData::SystemTotalMemory)),
        spec_handler(LuaTable::Async, LuaName::SystemTotalMemory) == Some(Handler::Async(SysInfoRequestData::SystemTotalMemory)),
        spec_handler(LuaTable::ServerStat, LuaName::LogicalCpus) == Some(Handler::Blocking(SysInfoRequestData::LogicalCpus)),
        spec_handler(LuaTable::Async, LuaName::LogicalCpus) == Some(Handler::Async(SysInfoRequestData::LogicalCpus)),
        spec_handler(LuaTable::ServerStat, LuaName::PhysicalCpus) == Some(Handler::Blocking(SysInfoRequestData::PhysicalCpus)),
        spec_handler(LuaTable::Async, LuaName::PhysicalCpus) == Some(Handler::Async(SysInfoRequestData::PhysicalCpus)),
        spec_handler(LuaTable::ServerStat, LuaName::Start) is None,
        spec_handler(LuaTable::Async, LuaName::Start) is None,
        spec_handler(LuaTable::ServerStat, LuaName::Stop) is None,
        spec_handler(LuaTable::Async, LuaName::Stop) is None,
        spec_handler(LuaTable::ServerStat, LuaName::AllCopy) is None,
        spec_handler(LuaTable::Async, LuaName::AllCopy) is None,
        spec_handler(LuaTable::ServerStat, LuaName::AllSystemCopy) is None,
        spec_handler(LuaTable::Async, LuaName::AllSystemCopy) is None,
        spec_handler(LuaTable::ServerStat, LuaName::AllProcessCopy) is None,
        spec_handler(LuaTable::Async, LuaName::AllProcessCopy) is None,
        spec_handler(LuaTable::ServerStat, LuaName::SetInterval) is None,
        spec_handler(LuaTable::Async, LuaName::SetInterval) is None,
{
}

/// Each key of the realtime table runs the realtime function it is named
/// after (`serverstat.realtime.ProcessCPUUsage()` the process CPU usage, and
/// so on), and the constant values have no key there.
pub proof fn lemma_realtime_keys_hold_their_functions()
    ensures
        spec_handler(LuaTable::Realtime, LuaName::ProcessCpuUsage) == Some(Handler::Realtime(RealtimeFunction::ProcessCpuUsage)),
        spec_handler(LuaTable::Realtime, LuaName::ProcessMemoryUsage) == Some(Handler::Realtime(RealtimeFunction::ProcessMemoryUsage)),
        spec_handler(LuaTable::Realtime, LuaName::SystemCpuUsage) == Some(Handler::Realtime(RealtimeFunction::SystemCpuUsage)),
        spec_handler(LuaTable::Realtime, LuaName::SystemMemoryUsage) == Some(Handler::Realtime(RealtimeFunction::SystemMemoryUsage)),
        spec_handler(LuaTable::Realtime, LuaName::SystemAvailableMemory) == Some(Handler::Realtime(RealtimeFunction::SystemAvailableMemory)),
        spec_handler(LuaTable::Realtime, LuaName::All) == Some(Handler::Realtime(RealtimeFunction::All)),
        spec_handler(LuaTable::Realtime, LuaName::AllSystem) == Some(Handler::Realtime(RealtimeFunction::AllSystem)),
        spec_handler(LuaTable::Realtime, LuaName::AllProcess) == Some(Handler::Realtime(RealtimeFunction::AllProcess)),
        spec_handler(LuaTable::Realtime, LuaName::AllCopy) == Some(Handler::Realtime(RealtimeFunction::AllCopy)),
        spec_handler(LuaTable::Realtime, LuaName::AllSystemCopy) == Some(Handler::Realtime(RealtimeFunction::AllSystemCopy)),
        spec_handler(LuaTable::Realtime, LuaName::AllProcessCopy) == Some(Handler::Realtime(RealtimeFunction::AllProcessCopy)),
        spec_handler(LuaTable::Realtime, LuaName::Start) == Some(Handler::Realtime(RealtimeFunction::Start)),
        spec_handler(LuaTable::Realtime, LuaName::Stop) == Some(Handler::Realtime(RealtimeFunction::Stop)),
        spec_handler(LuaTable::Realtime, LuaName::SetInterval) == Some(Handler::Realtime(RealtimeFunction::SetInterval)),
        spec_handler(LuaTable::Realtime, LuaName::SystemTotalMemory) is None,
        spec_handler(LuaTable::Realtime, LuaName::LogicalCpus) is None,
        spec_handler(LuaTable::Realtime, LuaName::PhysicalCpus) is None,
{
}

/// Each key is spelt in Lua with its documented name.
pub proof fn lemma_keys_spelt_as_documented()
    ensures
        spec_lua_name(LuaName::ProcessCpuUsage) == "ProcessCPUUsage"@,
        spec_lua_name(LuaName::ProcessMemoryUsage) == "ProcessMemoryUsage"@,
        spec_lua_name(LuaName::SystemCpuUsage) == "SystemCPUUsage"@,
        spec_lua_name(LuaName::SystemMemoryUsage) == "SystemMemoryUsage"@,
        spec_lua_name(LuaName::SystemAvailableMemory) == "SystemAvailableMemory"@,
        spec_lua_name(LuaName::All) == "All"@,
        spec_lua_name(LuaName::AllSystem) == "AllSystem"@,
        spec_lua_name(LuaName::AllProcess) == "AllProcess"@,
        spec_lua_name(LuaName::SystemTotalMemory) == "SystemTotalMemory"@,
        spec_lua_name(LuaName::LogicalCpus) == "LogicalCPUs"@,
        spec_lua_name(LuaName::PhysicalCpus) == "PhysicalCPUs"@,
        spec_lua_name(LuaName::Start) == "Start"@,
        spec_lua_name(LuaName::Stop) == "Stop"@,
        spec_lua_name(LuaName::AllCopy) == "AllCopy"@,
        spec_lua_name(LuaName::AllSystemCopy) == "AllSystemCopy"@,
        spec_lua_name(LuaName::AllProcessCopy) == "AllProcessCopy"@,
        spec_lua_name(LuaName::SetInterval) == "SetInterval"@,
{
}

/// The functions for each kind of data are exported under the key spelt with
/// that data's documented name.
pub proof fn lemma_request_names_as_documented()
    ensures
        spec_request_name(SysInfoRequestData::ProcessCpuUsage) == LuaName::ProcessCpuUsage,
        spec_lua_name(spec_request_name(SysInfoRequestData::ProcessCpuUsage)) == "ProcessCPUUsage"@,
        spec_request_name(SysInfoRequestData::ProcessMemoryUsage) == LuaName::ProcessMemoryUsage,
        spec_lua_name(spec_request_name(SysInfoRequestData::ProcessMemoryUsage)) == "ProcessMemoryUsage"@,
        spec_request_name(SysInfoRequestData::SystemCpuUsage) == LuaName::SystemCpuUsage,
        spec_lua_name(spec_request_name(SysInfoRequestData::SystemCpuUsage)) == "SystemCPUUsage"@,
        spec_request_name(SysInfoRequestData::SystemMemoryUsage) == LuaName::SystemMemoryUsage,
        spec_lua_name(spec_request_name(SysInfoRequestData::SystemMemoryUsage)) == "SystemMemoryUsage"@,
        spec_request_name(SysInfoRequestData::SystemAvailableMemory) == LuaName::SystemAvailableMemory,
        spec_lua_name(spec_request_name(SysInfoRequestData::SystemAvailableMemory)) == "SystemAvailableMemory"@,
        spec_request_name(SysInfoRequestData::All) == LuaName::All,
        spec_lua_name(spec_request_name(SysInfoRequestData::All)) == "All"@,
        spec_request_name(SysInfoRequestData::AllSystem) == LuaName::AllSystem,
        spec_lua_name(spec_request_name(SysInfoRequestData::AllSystem)) == "AllSystem"@,
        spec_request_name(SysInfoRequestData::AllProcess) == LuaName::AllProcess,
        spec_lua_name(spec_request_name(SysInfoRequestData::AllProcess)) == "AllProcess"@,
        spec_request_name(SysInfoRequestData::SystemTotalMemory) == LuaName::SystemTotalMemory,
        spec_lua_name(spec_request_name(SysInfoRequestData::SystemTotalMemory)) == "SystemTotalMemory"@,
        spec_request_name(SysInfoRequestData::LogicalCpus) == LuaName::LogicalCpus,
        spec_lua_name(spec_request_name(SysInfoRequestData::LogicalCpus)) == "LogicalCPUs"@,
        spec_request_name(SysInfoRequestData::PhysicalCpus) == LuaName::PhysicalCpus,
        spec_lua_name(spec_request_name(SysInfoRequestData::PhysicalCpus)) == "PhysicalCPUs"@,
{
}

/// Which shared table each realtime table function hands out, and whether it
/// hands out a copy: the plain functions the shared table of their name, the
/// `...Copy` functions a copy of it; the other realtime functions none.
pub proof fn lemma_table_access_as_documented(f: RealtimeFunction)
    ensures
        spec_table_access(RealtimeFunction::All) == Some(TableAccess { table: RealtimeTable::All, copy: false }),
        spec_table_access(RealtimeFunction::AllSystem) == Some(TableAccess { table: RealtimeTable::System, copy: false }),
        spec_table_access(RealtimeFunction::AllProcess) == Some(TableAccess { table: RealtimeTable::Process, copy: false }),
        spec_table_access(RealtimeFunction::AllCopy) == Some(TableAccess { table: RealtimeTable::All, copy: true }),
        spec_table_access(RealtimeFunction::AllSystemCopy) == Some(TableAccess { table: RealtimeTable::System, copy: true }),
        spec_table_access(RealtimeFunction::AllProcessCopy) == Some(TableAccess { table: RealtimeTable::Process, copy: true }),
        spec_table_access(f) is None <==> (f is ProcessCpuUsage || f is ProcessMemoryUsage
            || f is SystemCpuUsage || f is SystemMemoryUsage || f is SystemAvailableMemory
            || f is Start || f is Stop || f is SetInterval),
{
}

} // verus!
