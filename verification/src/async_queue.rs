//! Bookkeeping of the asynchronous Lua API.
//!
//! A request is handed to a worker thread; its answer is delivered to the Lua
//! callback from a `Tick` hook. The hook is added when the first request goes
//! out and removed by the poll that delivers the last outstanding answer, so
//! that an idle server runs no hook at all.
use vstd::prelude::*;
use crate::api::SysInfoRequestData;

verus! {

/// A request of the asynchronous API: which data to acquire, and the Lua
/// registry reference of the callback that receives it.
#[derive(Clone, Copy, Debug, PartialEq, Eq, Structural)]
pub struct SysInfoRequest {
    pub callback_ref: i32,
    pub data: SysInfoRequestData,
}

/// The answer to a request: the acquired data and the callback it goes to.
pub struct SysInfoResponse<D> {
    callback_ref: i32,
    data: D,
}

impl<D> SysInfoResponse<D> {
    pub closed spec fn spec_callback_ref(&self) -> i32 {
        self.callback_ref
    }

    pub closed spec fn spec_data(&self) -> D {
        self.data
    }

    /// The answer to `request`, carrying `data`: it goes to the callback that
    /// made the request.
    pub fn answer(request: &SysInfoRequest, data: D) -> (r: Self)
        ensures
            r.spec_callback_ref() == request.callback_ref,
            r.spec_data() == data,
    {
        SysInfoResponse { callback_ref: request.callback_ref, data }
    }

    /// The Lua registry reference of the callback.
    pub fn callback_ref(&self) -> (r: i32)
        ensures
            r == self.spec_callback_ref(),
    {
        self.callback_ref
    }

    /// The acquired data.
    pub fn data(&self) -> (d: &D)
        ensures
            *d == self.spec_data(),
    {
        &self.data
    }

    /// The callback reference and the data, taken apart.
    pub fn into_parts(self) -> (r: (i32, D))
        ensures
            r.0 == self.spec_callback_ref(),
            r.1 == self.spec_data(),
    {
        (self.callback_ref, self.data)
    }
}

/// What to do with the `Tick` hook that delivers answers.
#[derive(Clone, Copy, Debug, PartialEq, Eq, Structural)]
pub enum HookAction {
    /// Add the hook.
    Install,
    /// Remove the hook.
    Remove,
    /// Leave the hook as it is.
    Keep,
}

/// Whether the hook is installed, and how many answers are outstanding.
pub struct AsyncController {
    hooked: bool,
    pending: usize,
}

/// The count after one more request: it wraps around as an atomic counter
/// does.
pub open spec fn one_more(pending: usize) -> usize {
    if pending == usize::MAX {
        0
    } else {
        (pending + 1) as usize
    }
}

impl AsyncController {
    /// Whether the hook is installed.
    pub closed spec fn spec_hooked(&self) -> bool {
        self.hooked
    }

    /// How many answers are outstanding.
    pub closed spec fn spec_pending(&self) -> usize {
        self.pending
    }

    /// While answers are outstanding the hook is installed.
    #[verifier::type_invariant]
    spec fn hooked_while_pending(&self) -> bool {
        self.pending > 0 ==> self.hooked
    }

    /// No hook, nothing outstanding.
    pub fn new() -> (c: Self)
        ensures
            !c.spec_hooked(),
            c.spec_pending() == 0,
    {
        AsyncController { hooked: false, pending: 0 }
    }

    /// Whether the hook is installed.
    pub fn is_hooked(&self) -> (r: bool)
        ensures
            r == self.spec_hooked(),
    {
        self.hooked
    }

    /// How many answers are outstanding.
    pub fn pending(&self) -> (r: usize)
        ensures
            r == self.spec_pending(),
            r > 0 ==> self.spec_hooked(),
    {
        proof {
            use_type_invariant(self);
        }
        self.pending
    }

    /// Accounts for a request that was handed to the worker (`sent`) or
    /// could not be (`!sent`, nothing changes). A sent request is one more
    /// outstanding answer, and the hook must be installed if it is not.
    pub fn request(&mut self, sent: bool) -> (action: HookAction)
        ensures
            (final(self).spec_hooked(), final(self).spec_pending(), action) == request_step(
                old(self).spec_hooked(),
                old(self).spec_pending(),
                sent,
            ),
            final(self).spec_pending() > 0 ==> final(self).spec_hooked(),
            action != HookAction::Remove,
            action == HookAction::Install <==> sent && !old(self).spec_hooked(),
            sent ==> final(self).spec_hooked(),
            !sent ==> final(self).spec_hooked() == old(self).spec_hooked()
                && final(self).spec_pending() == old(self).spec_pending(),
    {
        proof {
            use_type_invariant(&*self);
        }
        if sent {
            let pending = self.pending.wrapping_add(1);
            let (hooked, action) = async_await(self.hooked);
            *self = AsyncController { hooked, pending };
            action
        } else {
            HookAction::Keep
        }
    }

    /// Accounts for a poll of the hook that delivered `responses` answers.
    /// When none is left outstanding the hook is removed.
    pub fn async_poll(&mut self, responses: usize) -> (action: HookAction)
        requires
            responses <= old(self).spec_pending(),
        ensures
            (final(self).spec_hooked(), final(self).spec_pending(), action) == poll_step(
                old(self).spec_hooked(),
                old(self).spec_pending(),
                responses,
            ),
            final(self).spec_pending() == old(self).spec_pending() - responses,
            final(self).spec_pending() > 0 ==> final(self).spec_hooked(),
            action != HookAction::Install,
            action == HookAction::Remove <==> old(self).spec_hooked() && responses
                == old(self).spec_pending(),
            final(self).spec_pending() == 0 ==> !final(self).spec_hooked(),
    {
        proof {
            use_type_invariant(&*self);
        }
        let pending = self.pending - responses;
        if pending == 0 {
            let (hooked, action) = async_finally(self.hooked);
            *self = AsyncController { hooked, pending };
            action
        } else {
            self.pending = pending;
            HookAction::Keep
        }
    }
}

/// Installs the hook unless it is installed: the new hook state and the
/// action.
fn async_await(hooked: bool) -> (r: (bool, HookAction))
    ensures
        r == (true, if hooked {
            HookAction::Keep
        } else {
            HookAction::Install
        }),
{
    if !hooked {
        (true, HookAction::Install)
    } else {
        (true, HookAction::Keep)
    }
}

/// Removes the hook if it is installed: the new hook state and the action.
fn async_finally(hooked: bool) -> (r: (bool, HookAction))
    ensures
        r == (false, if hooked {
            HookAction::Remove
        } else {
            HookAction::Keep
        }),
{
    if hooked {
        (false, HookAction::Remove)
    } else {
        (false, HookAction::Keep)
    }
}

/// The state of the hook and the outstanding count after a request that was
/// (`sent`) or was not handed to the worker, and the action on the hook.
pub open spec fn request_step(hooked: bool, pending: usize, sent: bool) -> (bool, usize, HookAction) {
    if !sent {
        (hooked, pending, HookAction::Keep)
    } else {
        (true, one_more(pending), if hooked { HookAction::Keep } else { HookAction::Install })
    }
}

/// The state of the hook and the outstanding count after a poll that
/// delivered `responses` answers, and the action on the hook.
pub open spec fn poll_step(hooked: bool, pending: usize, responses: usize) -> (bool, usize, HookAction) {
    let left = (pending - responses) as usize;
    if left == 0 {
        (false, left, if hooked { HookAction::Remove } else { HookAction::Keep })
    } else {
        (hooked, left, HookAction::Keep)
    }
}

/// A request that goes out on an idle controller installs the hook, and the
/// poll that delivers its answer removes it: the controller is idle again.
pub proof fn lemma_request_then_answer_round_trip()
    ensures
        request_step(false, 0, true) == (true, 1usize, HookAction::Install),
        poll_step(true, 1, 1) == (false, 0usize, HookAction::Remove),
{
}

/// The hook is installed at most once: while it is installed, no request
/// installs it again, and no poll that leaves answers outstanding removes it.
pub proof fn lemma_hook_installed_once(pending: usize, sent: bool, responses: usize)
    requires
        responses < pending,
    ensures
        request_step(true, pending, sent).2 != HookAction::Install,
        request_step(true, pending, sent).0,
        poll_step(true, pending, responses).2 == HookAction::Keep,
        poll_step(true, pending, responses).0,
{
}

/// The hook runs exactly while answers are outstanding: a controller in which
/// the hook is installed if and only if answers are outstanding stays so
/// through every request (short of the counter wrapping around) and every
/// poll.
pub proof fn lemma_hooked_iff_outstanding(
    hooked: bool,
    pending: usize,
    sent: bool,
    responses: usize,
)
    requires
        hooked <==> pending > 0,
        pending < usize::MAX,
        responses <= pending,
    ensures
        request_step(hooked, pending, sent).0 <==> request_step(hooked, pending, sent).1 > 0,
        poll_step(hooked, pending, responses).0 <==> poll_step(hooked, pending, responses).1 > 0,
{
}

/// Delivering every outstanding answer in one poll removes the hook.
pub proof fn lemma_draining_removes_hook(pending: usize)
    requires
        pending > 0,
    ensures
        poll_step(true, pending, pending) == (false, 0usize, HookAction::Remove),
{
}

/// One step in the life of the controller: a request that was or was not
/// handed to the worker, or a poll that delivered some answers.
#[derive(Clone, Copy, Debug, PartialEq, Eq, Structural)]
pub enum AsyncEvent {
    Request(bool),
    Poll(usize),
}

/// Requests handed to the worker in a run of events.
pub open spec fn accepted(events: Seq<AsyncEvent>) -> nat
    decreases events.len(),
{
    if events.len() == 0 {
        0
    } else {
        accepted(events.drop_last()) + match events.last() {
            AsyncEvent::Request(true) => 1nat,
            _ => 0nat,
        }
    }
}

/// Answers delivered in a run of events.
pub open spec fn delivered(events: Seq<AsyncEvent>) -> nat
    decreases events.len(),
{
    if events.len() == 0 {
        0
    } else {
        delivered(events.drop_last()) + match events.last() {
            AsyncEvent::Poll(n) => n as nat,
            _ => 0nat,
        }
    }
}

/// The hook state and outstanding count after a run of events, starting
/// from a new controller.
pub open spec fn run(events: Seq<AsyncEvent>) -> (bool, usize)
    decreases events.len(),
{
    if events.len() == 0 {
        (false, 0)
    } else {
        let (hooked, pending) = run(events.drop_last());
        match events.last() {
            AsyncEvent::Request(sent) => {
                let (h, p, _) = request_step(hooked, pending, sent);
                (h, p)
            },
            AsyncEvent::Poll(n) => {
                let (h, p, _) = poll_step(hooked, pending, n);
                (h, p)
            },
        }
    }
}

/// The worker answers only requests it was handed: at every point of the run
/// no more answers have been delivered than requests accepted.
pub open spec fn answers_follow_requests(events: Seq<AsyncEvent>) -> bool {
    forall|k: int| 0 <= k <= events.len() ==> delivered(#[trigger] events.take(k)) <= accepted(events.take(k))
}

/// Every poll of the run delivers no more answers than are outstanding when it
/// runs, which is what `async_poll` requires.
pub open spec fn polls_within_pending(events: Seq<AsyncEvent>) -> bool
    decreases events.len(),
{
    events.len() == 0 || {
        &&& polls_within_pending(events.drop_last())
        &&& match events.last() {
            AsyncEvent::Poll(n) => n <= run(events.drop_last()).1,
            _ => true,
        }
    }
}

/// The outstanding count is the number of accepted requests less the number
/// of delivered answers, and the hook is installed exactly while it is
/// positive. When the worker answers only requests it was handed, no poll
/// ever delivers more answers than are outstanding, so `async_poll`'s
/// precondition holds throughout. (Short of accepting `usize::MAX` requests,
/// where the counter wraps around.)
pub proof fn lemma_outstanding_is_accepted_minus_delivered(events: Seq<AsyncEvent>)
    requires
        answers_follow_requests(events),
        accepted(events) < usize::MAX,
    ensures
        run(events).1 == accepted(events) - delivered(events),
        run(events).0 <==> run(events).1 > 0,
        polls_within_pending(events),
    decreases events.len(),
{
    if events.len() > 0 {
        let pre = events.drop_last();
        assert forall|k: int| 0 <= k <= pre.len() implies delivered(#[trigger] pre.take(k)) <= accepted(
            pre.take(k),
        ) by {
            assert(pre.take(k) =~= events.take(k));
            assert(delivered(events.take(k)) <= accepted(events.take(k)));
        }
        assert(events.take(events.len() as int) =~= events);
        assert(delivered(events.take(events.len() as int)) <= accepted(events.take(events.len() as int)));
        lemma_outstanding_is_accepted_minus_delivered(pre);
    }
}

/// A request never removes the hook: an accepted request installs it exactly
/// when it was not installed and otherwise leaves it, and the hook is
/// installed afterwards; a request that could not be handed over changes
/// nothing. Polls never install the hook, and remove it exactly when they
/// deliver every outstanding answer while it is installed.
pub proof fn lemma_hook_actions(hooked: bool, pending: usize, sent: bool, responses: usize)
    requires
        responses <= pending,
    ensures
        request_step(hooked, pending, sent).2 != HookAction::Remove,
        request_step(hooked, pending, true).2 == (if hooked {
            HookAction::Keep
        } else {
            HookAction::Install
        }),
        request_step(hooked, pending, true).0,
        pending < usize::MAX ==> request_step(hooked, pending, true).1 == pending + 1,
        pending == usize::MAX ==> request_step(hooked, pending, true).1 == 0,
        request_step(hooked, pending, false) == (hooked, pending, HookAction::Keep),
        request_step(true, pending, sent).2 == HookAction::Keep,
        poll_step(hooked, pending, responses).2 != HookAction::Install,
        poll_step(hooked, pending, responses).1 == pending - responses,
        poll_step(hooked, pending, responses).2 == HookAction::Remove <==> hooked && responses == pending,
        responses < pending ==> poll_step(hooked, pending, responses).0 == hooked,
        responses == pending ==> !poll_step(hooked, pending, responses).0,
{
}

/// Three requests on a new controller install the hook once and keep it
/// while any of their answers is outstanding; it is removed by the poll that
/// delivers the last of them.
pub proof fn lemma_requests_keep_hook_until_drained(pending: usize)
    requires
        pending < usize::MAX,
    ensures
        forall|k: usize|
            0 < k <= pending ==> request_step(true, k, true) == (true, (k + 1) as usize, HookAction::Keep)
                && poll_step(true, (k + 1) as usize, 1) == (true, k, HookAction::Keep),
        poll_step(true, 1, 1) == (false, 0usize, HookAction::Remove),
{
}

} // verus!
