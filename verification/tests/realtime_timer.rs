use gmsv_serverstat::realtime::{RealtimeTimer, TimerAction, DEFAULT_INTERVAL_MILLIS};

#[test]
fn timer_created_once() {
    let mut t = RealtimeTimer::new();
    assert!(!t.is_running());
    assert_eq!(t.start(), TimerAction::Create);
    assert!(t.is_running());
    assert_eq!(t.start(), TimerAction::Keep);
    assert_eq!(t.on_read(), TimerAction::Keep);
}

#[test]
fn first_read_creates_timer() {
    let mut t = RealtimeTimer::new();
    assert_eq!(t.on_read(), TimerAction::Create);
    assert!(t.is_running());
    assert_eq!(t.on_read(), TimerAction::Keep);
}

#[test]
fn stop_undoes_start() {
    let mut t = RealtimeTimer::new();
    assert_eq!(t.stop(), TimerAction::Keep);
    t.start();
    assert_eq!(t.stop(), TimerAction::Remove);
    assert!(!t.is_running());
    assert_eq!(t.stop(), TimerAction::Keep);
    assert_eq!(t.start(), TimerAction::Create);
}

#[test]
fn read_after_stop_leaves_timer_stopped() {
    let mut t = RealtimeTimer::new();
    t.on_read();
    assert_eq!(t.stop(), TimerAction::Remove);
    assert_eq!(t.on_read(), TimerAction::Keep);
    assert!(!t.is_running());
}

#[test]
fn default_interval_is_quarter_second() {
    assert_eq!(DEFAULT_INTERVAL_MILLIS, 250);
}
