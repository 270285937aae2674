use gmsv_serverstat::exporter::{bind_address, start, start_failed, stop, ExporterState, REFRESH_INTERVAL_SECS};

#[test]
fn first_start_proceeds_second_does_not() {
    let mut s = ExporterState::new();
    assert!(!s.is_running());
    assert!(start(&mut s));
    assert!(s.is_running());
    assert!(!start(&mut s));
    assert!(s.is_running());
}

#[test]
fn stop_allows_restart() {
    let mut s = ExporterState::new();
    assert!(start(&mut s));
    stop(&mut s);
    assert!(!s.is_running());
    assert!(start(&mut s));
}

#[test]
fn failed_start_allows_retry() {
    let mut s = ExporterState::new();
    assert!(start(&mut s));
    start_failed(&mut s);
    assert!(!s.is_running());
    assert!(start(&mut s));
}

#[test]
fn default_bind_address() {
    assert_eq!(bind_address(None), "0.0.0.0:9101");
}

#[test]
fn configured_bind_address_wins() {
    assert_eq!(bind_address(Some("127.0.0.1:9200".to_string())), "127.0.0.1:9200");
    assert_eq!(bind_address(Some(String::new())), "");
}

#[test]
fn gauges_refresh_every_two_seconds() {
    assert_eq!(REFRESH_INTERVAL_SECS, 2);
}
