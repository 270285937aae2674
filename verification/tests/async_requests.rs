use gmsv_serverstat::api::SysInfoRequestData;
use gmsv_serverstat::async_queue::{AsyncController, HookAction, SysInfoRequest, SysInfoResponse};

#[test]
fn idle_controller_has_no_hook() {
    let c = AsyncController::new();
    assert!(!c.is_hooked());
    assert_eq!(c.pending(), 0);
}

#[test]
fn first_request_installs_hook_once() {
    let mut c = AsyncController::new();
    assert_eq!(c.request(true), HookAction::Install);
    assert!(c.is_hooked());
    assert_eq!(c.pending(), 1);
    assert_eq!(c.request(true), HookAction::Keep);
    assert_eq!(c.pending(), 2);
}

#[test]
fn failed_send_changes_nothing() {
    let mut c = AsyncController::new();
    assert_eq!(c.request(false), HookAction::Keep);
    assert!(!c.is_hooked());
    assert_eq!(c.pending(), 0);
}

#[test]
fn hook_removed_when_last_answer_delivered() {
    let mut c = AsyncController::new();
    c.request(true);
    c.request(true);
    c.request(true);
    assert_eq!(c.async_poll(2), HookAction::Keep);
    assert!(c.is_hooked());
    assert_eq!(c.pending(), 1);
    assert_eq!(c.async_poll(0), HookAction::Keep);
    assert_eq!(c.async_poll(1), HookAction::Remove);
    assert!(!c.is_hooked());
    assert_eq!(c.pending(), 0);
}

#[test]
fn request_then_answer_round_trip() {
    let mut c = AsyncController::new();
    assert_eq!(c.request(true), HookAction::Install);
    assert_eq!(c.async_poll(1), HookAction::Remove);
    assert_eq!(c.request(true), HookAction::Install);
}

#[test]
fn poll_on_idle_controller_keeps() {
    let mut c = AsyncController::new();
    assert_eq!(c.async_poll(0), HookAction::Keep);
    assert!(!c.is_hooked());
}

#[test]
fn answer_goes_to_requesting_callback() {
    let request = SysInfoRequest { callback_ref: 42, data: SysInfoRequestData::LogicalCpus };
    let response = SysInfoResponse::answer(&request, 8u16);
    assert_eq!(response.callback_ref(), 42);
    assert_eq!(*response.data(), 8);
    assert_eq!(response.into_parts(), (42, 8));
}

#[test]
fn outstanding_is_accepted_minus_delivered() {
    let mut c = AsyncController::new();
    let mut accepted = 0usize;
    let mut delivered = 0usize;
    for (sent, poll) in [(true, 0), (false, 0), (true, 1), (true, 0), (true, 3)] {
        c.request(sent);
        if sent {
            accepted += 1;
        }
        c.async_poll(poll);
        delivered += poll;
        assert_eq!(c.pending(), accepted - delivered);
        assert_eq!(c.is_hooked(), c.pending() > 0);
    }
    assert_eq!(c.pending(), 0);
}
