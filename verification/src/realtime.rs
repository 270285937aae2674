//! The timer behind the realtime API.
//!
//! The timer that refreshes the realtime data is created the first time the
//! realtime data is read (or when `Start` is called) and then persists.
//! `Start` and `Stop` let a script control it: `Start` on a running timer and
//! `Stop` on a stopped one do nothing, and once a script has stopped the
//! timer, reading the data does not bring it back.
use vstd::prelude::*;

verus! {

/// Milliseconds between two refreshes of the realtime data, by default.
pub const DEFAULT_INTERVAL_MILLIS: u64 = 250;

/// What to do with the Lua timer that refreshes the realtime data.
#[derive(Clone, Copy, Debug, PartialEq, Eq, Structural)]
pub enum TimerAction {
    /// Create the timer (and take a first reading).
    Create,
    /// Remove the timer.
    Remove,
    /// Leave the timer as it is.
    Keep,
}

/// Whether the realtime timer exists, and whether it was ever created.
pub struct RealtimeTimer {
    running: bool,
    started: bool,
}

impl View for RealtimeTimer {
    /// (running, ever started)
    type V = (bool, bool);

    closed spec fn view(&self) -> (bool, bool) {
        (self.running, self.started)
    }
}

/// The state after a start and the action it takes.
pub open spec fn start_step(s: (bool, bool)) -> ((bool, bool), TimerAction) {
    if s.0 {
        (s, TimerAction::Keep)
    } else {
        ((true, true), TimerAction::Create)
    }
}

/// The state after a stop and the action it takes.
pub open spec fn stop_step(s: (bool, bool)) -> ((bool, bool), TimerAction) {
    if s.0 {
        ((false, s.1), TimerAction::Remove)
    } else {
        (s, TimerAction::Keep)
    }
}

/// The state after a read of realtime data and the action it takes: the
/// first read creates the timer, later ones leave it alone.
pub open spec fn read_step(s: (bool, bool)) -> ((bool, bool), TimerAction) {
    if s.1 {
        (s, TimerAction::Keep)
    } else {
        ((true, true), TimerAction::Create)
    }
}

impl RealtimeTimer {
    /// No timer yet.
    pub fn new() -> (t: Self)
        ensures
            t@ == (false, false),
    {
        RealtimeTimer { running: false, started: false }
    }

    /// Whether the timer exists.
    pub fn is_running(&self) -> (r: bool)
        ensures
            r == self@.0,
    {
        self.running
    }

    /// `serverstat.realtime.Start`: creates the timer unless it exists.
    pub fn start(&mut self) -> (action: TimerAction)
        ensures
            (final(self)@, action) == start_step(old(self)@),
            final(self)@ == (true, true) || final(self)@ == old(self)@,
            final(self)@.0,
            action == (if old(self)@.0 { TimerAction::Keep } else { TimerAction::Create }),
    {
        if self.running {
            TimerAction::Keep
        } else {
            self.running = true;
            self.started = true;
            TimerAction::Create
        }
    }

    /// `serverstat.realtime.Stop`: removes the timer if it exists.
    pub fn stop(&mut self) -> (action: TimerAction)
        ensures
            (final(self)@, action) == stop_step(old(self)@),
            final(self)@ == (false, old(self)@.1),
            action == (if old(self)@.0 { TimerAction::Remove } else { TimerAction::Keep }),
    {
        if self.running {
            self.running = false;
            TimerAction::Remove
        } else {
            TimerAction::Keep
        }
    }

    /// A read of realtime data: creates the timer on first use only.
    pub fn on_read(&mut self) -> (action: TimerAction)
        ensures
            (final(self)@, action) == read_step(old(self)@),
            old(self)@.1 ==> final(self)@ == old(self)@ && action == TimerAction::Keep,
            !old(self)@.1 ==> final(self)@ == (true, true) && action == TimerAction::Create,
    {
        if self.started {
            TimerAction::Keep
        } else {
            self.running = true;
            self.started = true;
            TimerAction::Create
        }
    }
}

/// The timer is only created if the realtime data is used: a new timer
/// creates nothing until the first read or start, and the first read creates
/// it.
pub proof fn lemma_created_on_first_use()
    ensures
        read_step((false, false)) == ((true, true), TimerAction::Create),
        read_step(read_step((false, false)).0).1 == TimerAction::Keep,
{
}

/// A single timer exists at a time: while it runs, neither a start nor a read
/// creates another.
pub proof fn lemma_single_timer(started: bool)
    ensures
        start_step((true, started)).1 == TimerAction::Keep,
        read_step((true, true)).1 == TimerAction::Keep,
{
}

/// A stop undoes a start: the timer a start created is the one the next stop
/// removes; after that, reads leave the timer stopped until the next start,
/// which creates it again.
pub proof fn lemma_stop_undoes_start(s: (bool, bool))
    requires
        !s.0,
    ensures
        start_step(s).1 == TimerAction::Create,
        stop_step(start_step(s).0) == ((false, true), TimerAction::Remove),
        read_step((false, true)) == ((false, true), TimerAction::Keep),
        start_step((false, true)).1 == TimerAction::Create,
{
}

/// What each operation does to the timer, for every state (running, ever
/// started): a read creates the timer only if it was never created and
/// otherwise changes nothing, so a running timer stays running; a start
/// leaves the timer running and creates it exactly when it was not running; a
/// stop leaves it stopped and removes it exactly when it was running. No
/// operation but a stop removes the timer, and none but a stop leaves it not
/// running once it has been running.
pub proof fn lemma_timer_operations(s: (bool, bool))
    ensures
        s.1 ==> read_step(s) == (s, TimerAction::Keep),
        !s.1 ==> read_step(s) == ((true, true), TimerAction::Create),
        s.0 ==> read_step(s).0.0,
        start_step(s).0.0 && start_step(s).0.1 == (s.1 || !s.0),
        start_step(s).1 == (if s.0 { TimerAction::Keep } else { TimerAction::Create }),
        stop_step(s).0 == (false, s.1),
        stop_step(s).1 == (if s.0 { TimerAction::Remove } else { TimerAction::Keep }),
        read_step(s).1 != TimerAction::Remove,
        start_step(s).1 != TimerAction::Remove,
        stop_step(s).1 != TimerAction::Create,
{
}

/// The realtime data is refreshed every 250 ms unless a script sets another
/// interval.
pub proof fn lemma_default_interval()
    ensures
        DEFAULT_INTERVAL_MILLIS == 250,
{
}

} // verus!
