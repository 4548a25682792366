//! The supervisor: one slot that holds the handle of the running server, if
//! there is one, and the three operations on it.
//!
//! The supervisor never touches the operating system itself. Each operation
//! is handed the one piece of outside work it may need (to spawn, to kill,
//! to poll) as a function, calls it at most once, and settles what came
//! back into the slot and the reply.

use vstd::prelude::*;
use crate::launch::{Launch, Mode, launch_for};
use crate::reply::{Failure, Started, Stopped};

verus! {

/// What a poll of the server's exit status found, when the poll itself did
/// not fail.
#[derive(Clone, Copy, Debug, PartialEq, Eq, Structural)]
pub enum Probe {
    /// The process has exited and its status has been collected.
    Exited,
    /// The process has not exited yet.
    Alive,
}

/// What a spawn attempt makes of an empty slot: on success the new handle
/// is kept, on failure the slot stays empty.
pub open spec fn spawn_settled<H>(spawned: Result<H, String>) -> (
    Option<H>,
    Result<Started, Failure>,
) {
    match spawned {
        Ok(handle) => (Some(handle), Ok(Started::Launched)),
        Err(detail) => (None, Err(Failure::Spawn(detail))),
    }
}

/// What a termination attempt makes of a held handle: on success the handle
/// is let go, on failure it is kept, so that the caller can try again.
pub open spec fn kill_settled<H>(handle: H, killed: Result<(), String>) -> (
    Option<H>,
    Result<Stopped, Failure>,
) {
    match killed {
        Ok(_) => (None, Ok(Stopped::Terminated)),
        Err(detail) => (Some(handle), Err(Failure::Kill(detail))),
    }
}

/// What a poll makes of a held handle: the handle is let go only when the
/// process is found to have exited.
pub open spec fn poll_settled<H>(handle: H, polled: Result<Probe, String>) -> (
    Option<H>,
    Result<bool, Failure>,
) {
    match polled {
        Ok(Probe::Exited) => (None, Ok(false)),
        Ok(Probe::Alive) => (Some(handle), Ok(true)),
        Err(detail) => (Some(handle), Err(Failure::Poll(detail))),
    }
}

/// A start request on `slot`, where `spawned` is what a spawn attempt gives.
/// With a handle in the slot nothing is spawned and `spawned` plays no part.
pub open spec fn start_step<H>(slot: Option<H>, spawned: Result<H, String>) -> (
    Option<H>,
    Result<Started, Failure>,
) {
    match slot {
        Some(_) => (slot, Ok(Started::AlreadyRunning)),
        None => spawn_settled(spawned),
    }
}

/// A stop request on `slot`, where a termination attempt leaves the handle
/// as `after` and gives `killed`. With an empty slot nothing is attempted
/// and neither plays a part.
pub open spec fn stop_step<H>(slot: Option<H>, after: H, killed: Result<(), String>) -> (
    Option<H>,
    Result<Stopped, Failure>,
) {
    match slot {
        Some(_) => kill_settled(after, killed),
        None => (None, Ok(Stopped::NotRunning)),
    }
}

/// A liveness check on `slot`, where a poll leaves the handle as `after`
/// and gives `polled`. With an empty slot nothing is polled and neither
/// plays a part.
pub open spec fn check_step<H>(slot: Option<H>, after: H, polled: Result<Probe, String>) -> (
    Option<H>,
    Result<bool, Failure>,
) {
    match slot {
        Some(_) => poll_settled(after, polled),
        None => (None, Ok(false)),
    }
}

/// Settles a spawn attempt: the slot's new content and the reply.
pub fn settle_spawn<H>(spawned: Result<H, String>) -> (settled: (
    Option<H>,
    Result<Started, Failure>,
))
    ensures
        settled == spawn_settled(spawned),
{
    match spawned {
        Ok(handle) => (Some(handle), Ok(Started::Launched)),
        Err(detail) => (None, Err(Failure::Spawn(detail))),
    }
}

/// Settles a termination attempt on `handle`: the slot's new content and
/// the reply.
pub fn settle_kill<H>(handle: H, killed: Result<(), String>) -> (settled: (
    Option<H>,
    Result<Stopped, Failure>,
))
    ensures
        settled == kill_settled(handle, killed),
{
    match killed {
        Ok(_) => (None, Ok(Stopped::Terminated)),
        Err(detail) => (Some(handle), Err(Failure::Kill(detail))),
    }
}

/// Settles a poll of `handle`: the slot's new content and the reply.
pub fn settle_poll<H>(handle: H, polled: Result<Probe, String>) -> (settled: (
    Option<H>,
    Result<bool, Failure>,
))
    ensures
        settled == poll_settled(handle, polled),
{
    match polled {
        Ok(Probe::Exited) => (None, Ok(false)),
        Ok(Probe::Alive) => (Some(handle), Ok(true)),
        Err(detail) => (Some(handle), Err(Failure::Poll(detail))),
    }
}

/// `spawn`, called with the invocation that belongs to `mode`, may return
/// `spawned`.
pub open spec fn spawn_gives<H, F: FnOnce(Launch) -> Result<H, String>>(
    spawn: F,
    mode: Mode,
    spawned: Result<H, String>,
) -> bool {
    exists|launch: Launch|
        launch@ == launch_for(mode) && #[trigger] call_ensures(spawn, (launch,), spawned)
}

/// `spawn` may be called with the invocation that belongs to `mode`.
pub open spec fn spawn_allowed<H, F: FnOnce(Launch) -> Result<H, String>>(
    spawn: F,
    mode: Mode,
) -> bool {
    forall|launch: Launch|
        launch@ == launch_for(mode) ==> #[trigger] call_requires(spawn, (launch,))
}

/// `attempt` may be called on a handle that is `before`.
pub open spec fn attempt_allowed<H, R, F: FnOnce(&mut H) -> R>(attempt: F, before: H) -> bool {
    forall|handle: &mut H| *handle == before ==> #[trigger] call_requires(attempt, (handle,))
}

/// The supervisor of one server process. `H` is the type of the handle by
/// which the operating system knows a process.
pub struct Supervisor<H> {
    mode: Mode,
    handle: Option<H>,
}

/// The mathematical content of a [`Supervisor`].
pub struct SupervisorView<H> {
    /// The deployment mode it was built for.
    pub mode: Mode,
    /// The handle of the running server; `None` when none is running.
    pub handle: Option<H>,
}

impl<H> View for Supervisor<H> {
    type V = SupervisorView<H>;

    closed spec fn view(&self) -> SupervisorView<H> {
        SupervisorView { mode: self.mode, handle: self.handle }
    }
}

impl<H> Supervisor<H> {
    /// A supervisor for `mode` with no server running.
    pub fn new(mode: Mode) -> (supervisor: Self)
        ensures
            supervisor@ == (SupervisorView::<H> { mode, handle: None }),
    {
        Supervisor { mode, handle: None }
    }

    /// The deployment mode this supervisor was built for.
    pub fn mode(&self) -> (mode: Mode)
        ensures
            mode == self@.mode,
    {
        self.mode
    }

    /// Whether a handle is held. This looks at the slot only: a server that
    /// has exited on its own counts as running until a check finds out.
    pub fn is_running(&self) -> (running: bool)
        ensures
            running == (self@.handle is Some),
    {
        self.handle.is_some()
    }

    /// The handle that is held, for inspection.
    pub fn handle(&self) -> (held: Option<&H>)
        ensures
            (held is Some) == (self@.handle is Some),
            held is Some ==> *held->0 == self@.handle->0,
    {
        self.handle.as_ref()
    }

    /// Starts the server unless one is running.
    ///
    /// With a handle in the slot this answers `AlreadyRunning`, calls
    /// nothing and changes nothing. Otherwise `spawn` is called once, with
    /// the invocation that belongs to the mode, and what it returns is
    /// settled as [`spawn_settled`] says.
    pub fn start<F>(&mut self, spawn: F) -> (reply: Result<Started, Failure>) where
        F: FnOnce(Launch) -> Result<H, String>,

        requires
            old(self)@.handle is None ==> spawn_allowed(spawn, old(self)@.mode),
        ensures
            final(self)@.mode == old(self)@.mode,
            old(self)@.handle is Some ==> reply == Ok::<Started, Failure>(Started::AlreadyRunning)
                && final(self)@ == old(self)@,
            exists|spawned: Result<H, String>|
                {
                    &&& (final(self)@.handle, reply) == #[trigger] start_step(
                        old(self)@.handle,
                        spawned,
                    )
                    &&& old(self)@.handle is None ==> spawn_gives(
                        spawn,
                        old(self)@.mode,
                        spawned,
                    )
                },
    {
        if self.handle.is_some() {
            proof {
                // Nothing was spawned: any outcome bears witness.
                let spawned: Result<H, String> = arbitrary();
                assert((self@.handle, Ok::<Started, Failure>(Started::AlreadyRunning))
                    == start_step(old(self)@.handle, spawned));
            }
            return Ok(Started::AlreadyRunning);
        }
        let launch = Launch::for_mode(self.mode);
        let spawned = spawn(launch);
        let (slot, reply) = settle_spawn(spawned);
        self.handle = slot;
        proof {
            // The witness is what `spawn` returned.
            assert((self@.handle, reply) == start_step(old(self)@.handle, spawned));
        }
        reply
    }

    /// Stops the server if one is running.
    ///
    /// With an empty slot this answers `NotRunning`, calls nothing and
    /// changes nothing. Otherwise `kill` is called once, on the handle, and
    /// what it returns is settled as [`kill_settled`] says: the handle is
    /// let go only if the termination request went through.
    pub fn stop<F>(&mut self, kill: F) -> (reply: Result<Stopped, Failure>) where
        F: FnOnce(&mut H) -> Result<(), String>,

        requires
            old(self)@.handle matches Some(before) ==> attempt_allowed(kill, before),
        ensures
            final(self)@.mode == old(self)@.mode,
            old(self)@.handle is None ==> reply == Ok::<Stopped, Failure>(Stopped::NotRunning)
                && final(self)@ == old(self)@,
            exists|handle: &mut H, killed: Result<(), String>|
                {
                    &&& (final(self)@.handle, reply) == #[trigger] stop_step(
                        old(self)@.handle,
                        *final(handle),
                        killed,
                    )
                    &&& old(self)@.handle matches Some(before) ==> *handle == before
                        && call_ensures(kill, (handle,), killed)
                },
    {
        match self.handle.take() {
            None => {
                proof {
                    // Nothing was attempted: any outcome bears witness.
                    let handle: &mut H = arbitrary();
                    let killed: Result<(), String> = arbitrary();
                    assert((self@.handle, Ok::<Stopped, Failure>(Stopped::NotRunning))
                        == stop_step(old(self)@.handle, *final(handle), killed));
                }
                Ok(Stopped::NotRunning)
            },
            Some(mut handle) => {
                let killed = kill(&mut handle);
                let ghost after = handle;
                let (slot, reply) = settle_kill(handle, killed);
                self.handle = slot;
                proof {
                    // The witness is the borrow that `kill` was given.
                    assert((self@.handle, reply) == stop_step(old(self)@.handle, after, killed));
                }
                reply
            },
        }
    }

    /// Probes whether the server is running, without waiting for it.
    ///
    /// With an empty slot this answers `false`, calls nothing and changes
    /// nothing. Otherwise `poll` is called once, on the handle, and what it
    /// returns is settled as [`poll_settled`] says: the handle is let go
    /// only if the process was found to have exited.
    pub fn check<F>(&mut self, poll: F) -> (reply: Result<bool, Failure>) where
        F: FnOnce(&mut H) -> Result<Probe, String>,

        requires
            old(self)@.handle matches Some(before) ==> attempt_allowed(poll, before),
        ensures
            final(self)@.mode == old(self)@.mode,
            old(self)@.handle is None ==> reply == Ok::<bool, Failure>(false) && final(self)@
                == old(self)@,
            exists|handle: &mut H, polled: Result<Probe, String>|
                {
                    &&& (final(self)@.handle, reply) == #[trigger] check_step(
                        old(self)@.handle,
                        *final(handle),
                        polled,
                    )
                    &&& old(self)@.handle matches Some(before) ==> *handle == before
                        && call_ensures(poll, (handle,), polled)
                },
    {
        match self.handle.take() {
            None => {
                proof {
                    // Nothing was polled: any outcome bears witness.
                    let handle: &mut H = arbitrary();
                    let polled: Result<Probe, String> = arbitrary();
                    assert((self@.handle, Ok::<bool, Failure>(false)) == check_step(
                        old(self)@.handle,
                        *final(handle),
                        polled,
                    ));
                }
                Ok(false)
            },
            Some(mut handle) => {
                let polled = poll(&mut handle);
                let ghost after = handle;
                let (slot, reply) = settle_poll(handle, polled);
                self.handle = slot;
                proof {
                    // The witness is the borrow that `poll` was given.
                    assert((self@.handle, reply) == check_step(old(self)@.handle, after, polled));
                }
                reply
            },
        }
    }
}

} // verus!
