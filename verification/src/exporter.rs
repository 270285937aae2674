//! Lifecycle of the Prometheus exporter.
//!
//! The exporter is started once; a second start while it runs does nothing.
//! A start that fails (bad bind address, listener that cannot be installed)
//! leaves it stopped, so that a later start may try again. The refresh loop
//! keeps going while the exporter is marked running.
use vstd::prelude::*;

verus! {

/// Seconds between two refreshes of the dynamic gauges.
pub const REFRESH_INTERVAL_SECS: u64 = 2;

/// Whether the exporter is currently marked running.
pub struct ExporterState {
    running: bool,
}

impl View for ExporterState {
    type V = bool;

    closed spec fn view(&self) -> bool {
        self.running
    }
}

impl ExporterState {
    /// A stopped exporter.
    pub fn new() -> (s: Self)
        ensures
            !s@,
    {
        ExporterState { running: false }
    }

    /// Whether the refresh loop should keep going.
    pub fn is_running(&self) -> (r: bool)
        ensures
            r == self@,
    {
        self.running
    }
}

/// What a start does to the running flag: whether it must bring the exporter
/// up, and the flag after it.
pub open spec fn spec_start(running: bool) -> (bool, bool) {
    (!running, true)
}

/// Marks the exporter running and tells whether this call is the one that
/// must bring it up: `false` when it was already running.
pub fn start(state: &mut ExporterState) -> (proceed: bool)
    ensures
        proceed == !old(state)@,
        final(state)@,
        (proceed, final(state)@) == spec_start(old(state)@),
{
    let was_running = state.running;
    state.running = true;
    !was_running
}

/// Marks a start that could not complete: the exporter is stopped again.
pub fn start_failed(state: &mut ExporterState)
    ensures
        !final(state)@,
{
    state.running = false;
}

/// Stops the exporter; the refresh loop ends at its next turn.
pub fn stop(state: &mut ExporterState)
    ensures
        !final(state)@,
{
    state.running = false;
}

/// The address the HTTP listener binds when none is configured.
pub open spec fn default_bind_address() -> Seq<char> {
    "0.0.0.0:9101"@
}

/// The address the HTTP listener binds: the configured one, else the default.
pub fn bind_address(configured: Option<String>) -> (addr: String)
    ensures
        configured is Some ==> addr@ == configured->0@,
        configured is None ==> addr@ == default_bind_address(),
{
    match configured {
        Some(a) => a,
        None => "0.0.0.0:9101".to_owned(),
    }
}

/// Starting twice brings the exporter up at most once: whatever the state, the
/// second of two starts in a row does nothing and the exporter stays running.
pub proof fn lemma_start_is_idempotent(running: bool)
    ensures
        !spec_start(spec_start(running).1).0,
        spec_start(spec_start(running).1).1,
{
}

/// After a stop, or after a start that failed, the next start brings the
/// exporter up again.
pub proof fn lemma_restart_after_stop()
    ensures
        spec_start(false).0,
{
}

/// The exporter listens on `0.0.0.0:9101` unless told otherwise, and refreshes
/// the dynamic gauges every 2 seconds.
pub proof fn lemma_documented_defaults()
    ensures
        default_bind_address() == "0.0.0.0:9101"@,
        REFRESH_INTERVAL_SECS == 2,
{
}

} // verus!
