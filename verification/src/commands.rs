//! The three commands as the user interface invokes them: each takes what
//! the attempt to get exclusive access to the shared supervisor gave, and
//! answers in words.
//!
//! Getting that access, by whatever guard the application keeps the
//! supervisor behind, is the caller's part. A command does not go on
//! without it: the failure to get it is the command's answer.

use vstd::prelude::*;
use crate::launch::Launch;
use crate::reply::{
    Failure,
    checked_messages,
    checked_texts,
    failure_text,
    started_messages,
    started_texts,
    stopped_messages,
    stopped_texts,
    texts,
};
use crate::supervisor::{
    Probe,
    Supervisor,
    attempt_allowed,
    check_step,
    spawn_allowed,
    spawn_gives,
    start_step,
    stop_step,
};

verus! {

/// Starts the server.
///
/// Without access to the supervisor the answer is the description of why
/// there is none, and nothing else happens. With it, the answer is that of
/// [`Supervisor::start`], in words.
pub fn start_python_server<H, F>(
    locked: Result<&mut Supervisor<H>, String>,
    spawn: F,
) -> (reply: Result<String, String>) where F: FnOnce(Launch) -> Result<H, String>
    requires
        locked matches Ok(supervisor) ==> supervisor@.handle is None ==> spawn_allowed(
            spawn,
            supervisor@.mode,
        ),
    ensures
        locked matches Err(detail) ==> texts(reply) == Err::<Seq<char>, Seq<char>>(detail@),
        locked matches Ok(supervisor) ==> final(supervisor)@.mode == supervisor@.mode
            && exists|spawned: Result<H, String>|
            {
                &&& final(supervisor)@.handle == #[trigger] start_step(
                    supervisor@.handle,
                    spawned,
                ).0
                &&& texts(reply) == started_texts(start_step(supervisor@.handle, spawned).1)
                &&& supervisor@.handle is None ==> spawn_gives(spawn, supervisor@.mode, spawned)
            },
{
    match locked {
        Err(detail) => started_messages(Err(Failure::Lock(detail))),
        Ok(supervisor) => {
            let ghost before = supervisor@;
            let outcome = supervisor.start(spawn);
            proof {
                let spawned = choose|spawned: Result<H, String>|
                    (supervisor@.handle, outcome) == #[trigger] start_step(before.handle, spawned)
                        && (before.handle is None ==> spawn_gives(spawn, before.mode, spawned));
                assert(final(supervisor)@.handle == start_step(before.handle, spawned).0);
            }
            started_messages(outcome)
        },
    }
}

/// Stops the server.
///
/// Without access to the supervisor the answer is the description of why
/// there is none, and nothing else happens. With it, the answer is that of
/// [`Supervisor::stop`], in words.
pub fn stop_python_server<H, F>(
    locked: Result<&mut Supervisor<H>, String>,
    kill: F,
) -> (reply: Result<String, String>) where F: FnOnce(&mut H) -> Result<(), String>
    requires
        locked matches Ok(supervisor) ==> (supervisor@.handle matches Some(before)
            ==> attempt_allowed(kill, before)),
    ensures
        locked matches Err(detail) ==> texts(reply) == Err::<Seq<char>, Seq<char>>(detail@),
        locked matches Ok(supervisor) ==> final(supervisor)@.mode == supervisor@.mode
            && exists|handle: &mut H, killed: Result<(), String>|
            {
                &&& final(supervisor)@.handle == #[trigger] stop_step(
                    supervisor@.handle,
                    *final(handle),
                    killed,
                ).0
                &&& texts(reply) == stopped_texts(
                    stop_step(supervisor@.handle, *final(handle), killed).1,
                )
                &&& supervisor@.handle matches Some(before) ==> *handle == before
                    && call_ensures(kill, (handle,), killed)
            },
{
    match locked {
        Err(detail) => stopped_messages(Err(Failure::Lock(detail))),
        Ok(supervisor) => {
            let ghost before = supervisor@;
            let outcome = supervisor.stop(kill);
            proof {
                let (handle, killed) = choose|handle: &mut H, killed: Result<(), String>|
                    (supervisor@.handle, outcome) == #[trigger] stop_step(
                        before.handle,
                        *final(handle),
                        killed,
                    ) && (before.handle matches Some(held) ==> *handle == held && call_ensures(
                        kill,
                        (handle,),
                        killed,
                    ));
                assert(final(supervisor)@.handle == stop_step(
                    before.handle,
                    *final(handle),
                    killed,
                ).0);
            }
            stopped_messages(outcome)
        },
    }
}

/// Probes whether the server is running.
///
/// Without access to the supervisor the answer is the description of why
/// there is none, and nothing else happens. With it, the answer is that of
/// [`Supervisor::check`], its failure in words.
pub fn check_python_server<H, F>(
    locked: Result<&mut Supervisor<H>, String>,
    poll: F,
) -> (reply: Result<bool, String>) where F: FnOnce(&mut H) -> Result<Probe, String>
    requires
        locked matches Ok(supervisor) ==> (supervisor@.handle matches Some(before)
            ==> attempt_allowed(poll, before)),
    ensures
        locked matches Err(detail) ==> failure_text(reply) == Err::<bool, Seq<char>>(detail@),
        locked matches Ok(supervisor) ==> final(supervisor)@.mode == supervisor@.mode
            && exists|handle: &mut H, polled: Result<Probe, String>|
            {
                &&& final(supervisor)@.handle == #[trigger] check_step(
                    supervisor@.handle,
                    *final(handle),
                    polled,
                ).0
                &&& failure_text(reply) == checked_texts(
                    check_step(supervisor@.handle, *final(handle), polled).1,
                )
                &&& supervisor@.handle matches Some(before) ==> *handle == before
                    && call_ensures(poll, (handle,), polled)
            },
{
    match locked {
        Err(detail) => checked_messages(Err(Failure::Lock(detail))),
        Ok(supervisor) => {
            let ghost before = supervisor@;
            let outcome = supervisor.check(poll);
            proof {
                let (handle, polled) = choose|handle: &mut H, polled: Result<Probe, String>|
                    (supervisor@.handle, outcome) == #[trigger] check_step(
                        before.handle,
                        *final(handle),
                        polled,
                    ) && (before.handle matches Some(held) ==> *handle == held && call_ensures(
                        poll,
                        (handle,),
                        polled,
                    ));
                assert(final(supervisor)@.handle == check_step(
                    before.handle,
                    *final(handle),
                    polled,
                ).0);
            }
            checked_messages(outcome)
        },
    }
}

} // verus!
