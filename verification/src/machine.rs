//! The supervisor seen as a state machine, and what holds of its three
//! operations together. Every statement here is about every slot, every
//! handle and every outcome of the outside work, and is proved from the
//! definitions of the operations.

use vstd::prelude::*;
use crate::reply::{Failure, Started, Stopped};
use crate::supervisor::{Probe, check_step, kill_settled, start_step, stop_step};

verus! {

/// The two states that the slot can be in.
#[derive(Clone, Copy, Debug, PartialEq, Eq, Structural)]
pub enum Phase {
    /// No handle is held.
    Absent,
    /// A handle is held.
    Running,
}

/// The three operations.
#[derive(Clone, Copy, Debug, PartialEq, Eq, Structural)]
pub enum Request {
    Start,
    Stop,
    Check,
}

/// One call of an operation, together with what the outside work gives if
/// the operation asks for it: the result, and for a termination attempt or
/// a poll the handle as it is left.
pub enum Call<H> {
    Start { spawned: Result<H, String> },
    Stop { after: H, killed: Result<(), String> },
    Check { after: H, polled: Result<Probe, String> },
}

impl<H> Call<H> {
    /// The operation that is called.
    pub open spec fn request(self) -> Request {
        match self {
            Call::Start { .. } => Request::Start,
            Call::Stop { .. } => Request::Stop,
            Call::Check { .. } => Request::Check,
        }
    }

    /// Whether this call on `slot` brings a process into being: a start on
    /// an empty slot whose spawn attempt goes well.
    pub open spec fn launches(self, slot: Option<H>) -> bool {
        self matches Call::Start { spawned } && slot is None && spawned is Ok
    }

    /// Whether this call on `slot` lets a process go: a stop whose
    /// termination attempt goes through, or a check that finds the process
    /// exited.
    pub open spec fn releases(self, slot: Option<H>) -> bool {
        slot is Some && match self {
            Call::Start { .. } => false,
            Call::Stop { killed, .. } => killed is Ok,
            Call::Check { polled, .. } => polled == Ok::<Probe, String>(Probe::Exited),
        }
    }

    /// The slot after this call on `slot`.
    pub open spec fn apply(self, slot: Option<H>) -> Option<H> {
        match self {
            Call::Start { spawned } => start_step(slot, spawned).0,
            Call::Stop { after, killed } => stop_step(slot, after, killed).0,
            Call::Check { after, polled } => check_step(slot, after, polled).0,
        }
    }
}

/// The state that a slot is in.
pub open spec fn phase_of<H>(slot: Option<H>) -> Phase {
    match slot {
        Some(_) => Phase::Running,
        None => Phase::Absent,
    }
}

/// The transitions of the supervisor: whether `request` can take a slot
/// from `from` to `to`. Only a start fills an empty slot, and a start never
/// empties a filled one.
pub open spec fn transition(from: Phase, request: Request, to: Phase) -> bool {
    match (from, request) {
        (Phase::Absent, Request::Start) => true,
        (Phase::Running, Request::Start) => to == Phase::Running,
        (Phase::Absent, Request::Stop) => to == Phase::Absent,
        (Phase::Running, Request::Stop) => true,
        (Phase::Absent, Request::Check) => to == Phase::Absent,
        (Phase::Running, Request::Check) => true,
    }
}

/// The slot after `calls` were made on `slot` one after the other, in the
/// order in which they got hold of the supervisor.
pub open spec fn replay<H>(slot: Option<H>, calls: Seq<Call<H>>) -> Option<H>
    decreases calls.len(),
{
    if calls.len() == 0 {
        slot
    } else {
        calls.last().apply(replay(slot, calls.drop_last()))
    }
}

/// The number of processes that `calls`, made on `slot` one after the other,
/// have brought into being and not let go.
pub open spec fn held_after<H>(slot: Option<H>, calls: Seq<Call<H>>) -> int
    decreases calls.len(),
{
    if calls.len() == 0 {
        0
    } else {
        let before = replay(slot, calls.drop_last());
        held_after(slot, calls.drop_last()) + (if calls.last().launches(before) {
            1int
        } else {
            0int
        }) - (if calls.last().releases(before) {
            1int
        } else {
            0int
        })
    }
}

/// A start after a start that went well launches nothing: it answers
/// `AlreadyRunning` and leaves the handle that the first one left, whatever
/// a second spawn attempt would have given.
pub proof fn lemma_start_is_idempotent<H>(
    slot: Option<H>,
    first: Result<H, String>,
    second: Result<H, String>,
)
    requires
        start_step(slot, first).1 is Ok,
    ensures
        start_step(slot, first).0 is Some,
        start_step(start_step(slot, first).0, second) == (
            start_step(slot, first).0,
            Ok::<Started, Failure>(Started::AlreadyRunning),
        ),
{
}

/// A stop on an empty slot is no error: it answers `NotRunning` and leaves
/// the slot empty, whatever a termination attempt would have given.
pub proof fn lemma_stop_is_idempotent<H>(after: H, killed: Result<(), String>)
    ensures
        stop_step(None::<H>, after, killed) == (
            None::<H>,
            Ok::<Stopped, Failure>(Stopped::NotRunning),
        ),
{
}

/// Start, then stop, then check: after a spawn that went well the slot is
/// filled, after a termination that went through it is empty, and the check
/// that follows answers `false` whatever a poll would have given.
pub proof fn lemma_start_stop_round_trip<H>(
    handle: H,
    after_kill: H,
    after_poll: H,
    polled: Result<Probe, String>,
)
    ensures
        ({
            let started = start_step(None::<H>, Ok::<H, String>(handle));
            let stopped = stop_step(started.0, after_kill, Ok::<(), String>(()));
            let checked = check_step(stopped.0, after_poll, polled);
            &&& started == (Some(handle), Ok::<Started, Failure>(Started::Launched))
            &&& stopped == (None::<H>, Ok::<Stopped, Failure>(Stopped::Terminated))
            &&& checked == (None::<H>, Ok::<bool, Failure>(false))
        }),
{
}

/// A server that exits on its own is noticed by the next check, which
/// answers `false` and empties the slot; the check after that answers
/// `false` again, with no error, whatever a poll would have given.
pub proof fn lemma_exit_is_detected<H>(
    handle: H,
    after_first: H,
    after_second: H,
    polled_again: Result<Probe, String>,
)
    ensures
        ({
            let started = start_step(None::<H>, Ok::<H, String>(handle));
            let first = check_step(started.0, after_first, Ok::<Probe, String>(Probe::Exited));
            let second = check_step(first.0, after_second, polled_again);
            &&& first == (None::<H>, Ok::<bool, Failure>(false))
            &&& second == (None::<H>, Ok::<bool, Failure>(false))
        }),
{
}

/// A stop whose termination attempt fails keeps the handle and reports the
/// failure, and the stop after that attempts termination again: its answer
/// is what the new attempt gives, never `NotRunning`.
pub proof fn lemma_failed_stop_keeps_handle<H>(
    handle: H,
    after_first: H,
    detail: String,
    after_second: H,
    killed_again: Result<(), String>,
)
    ensures
        ({
            let failed = stop_step(Some(handle), after_first, Err::<(), String>(detail));
            let retried = stop_step(failed.0, after_second, killed_again);
            &&& failed == (Some(after_first), Err::<Stopped, Failure>(Failure::Kill(detail)))
            &&& retried == kill_settled(after_second, killed_again)
            &&& retried.1 != Ok::<Stopped, Failure>(Stopped::NotRunning)
        }),
{
}

/// Every call, whatever the outside work gives, takes the slot along a
/// transition of the supervisor. A start on a filled slot leaves the very
/// handle that was there, and a stop or a check that leaves the slot filled
/// leaves the handle as the outside work left it.
pub proof fn lemma_call_is_a_transition<H>(slot: Option<H>, call: Call<H>)
    ensures
        transition(phase_of(slot), call.request(), phase_of(call.apply(slot))),
        call is Start && slot is Some ==> call.apply(slot) == slot,
        call matches Call::Stop { after, .. } ==> call.apply(slot) is Some ==> slot is Some
            && call.apply(slot) == Some(after),
        call matches Call::Check { after, .. } ==> call.apply(slot) is Some ==> slot is Some
            && call.apply(slot) == Some(after),
{
}

/// However the calls of several callers fall into an order, the slot goes
/// through transitions of the supervisor only: the `i`-th call takes the
/// slot that the calls before it left to the slot that the calls up to it
/// leave, along a transition.
pub proof fn lemma_every_order_is_a_path<H>(slot: Option<H>, calls: Seq<Call<H>>, i: int)
    requires
        0 <= i < calls.len(),
    ensures
        replay(slot, calls.take(i + 1)) == calls[i].apply(replay(slot, calls.take(i))),
        transition(
            phase_of(replay(slot, calls.take(i))),
            calls[i].request(),
            phase_of(replay(slot, calls.take(i + 1))),
        ),
{
    let upto = calls.take(i + 1);
    assert(upto.last() == calls[i]);
    assert(upto.drop_last() =~= calls.take(i));
    lemma_call_is_a_transition(replay(slot, calls.take(i)), calls[i]);
}

/// No order of calls ever leaves two servers: counted from an empty slot,
/// the processes brought into being and not let go are one while a handle
/// is held and none while the slot is empty.
pub proof fn lemma_at_most_one_server<H>(calls: Seq<Call<H>>)
    ensures
        held_after(None::<H>, calls) == (if replay(None::<H>, calls) is Some {
            1int
        } else {
            0int
        }),
    decreases calls.len(),
{
    if calls.len() > 0 {
        lemma_at_most_one_server(calls.drop_last());
    }
}

} // verus!
