use server_supervisor::launch::{Launch, Mode};
use server_supervisor::reply::{Failure, Started, Stopped};
use server_supervisor::supervisor::{
    settle_kill, settle_poll, settle_spawn, Probe, Supervisor,
};

fn spawn_ok(id: u32) -> impl FnOnce(Launch) -> Result<u32, String> {
    move |_launch: Launch| Ok(id)
}

fn alive(_handle: &mut u32) -> Result<Probe, String> {
    Ok(Probe::Alive)
}

fn exited(_handle: &mut u32) -> Result<Probe, String> {
    Ok(Probe::Exited)
}

fn kill_ok(_handle: &mut u32) -> Result<(), String> {
    Ok(())
}

#[test]
fn new_supervisor_is_absent() {
    let sup: Supervisor<u32> = Supervisor::new(Mode::Production);
    assert!(!sup.is_running());
    assert_eq!(sup.handle(), None);
    assert_eq!(sup.mode(), Mode::Production);
}

#[test]
fn start_launches_and_keeps_the_handle() {
    let mut sup: Supervisor<u32> = Supervisor::new(Mode::Development);
    assert_eq!(sup.start(spawn_ok(41)), Ok(Started::Launched));
    assert!(sup.is_running());
    assert_eq!(sup.handle(), Some(&41));
    assert_eq!(sup.mode(), Mode::Development);
}

#[test]
fn start_hands_the_invocation_of_the_mode_to_spawn() {
    let mut seen: Vec<Launch> = Vec::new();
    let mut sup: Supervisor<u32> = Supervisor::new(Mode::Development);
    let reply = sup.start(|launch: Launch| {
        seen.push(launch);
        Ok(1)
    });
    assert_eq!(reply, Ok(Started::Launched));
    assert_eq!(seen, vec![Launch::for_mode(Mode::Development)]);

    let mut seen_production: Vec<Launch> = Vec::new();
    let mut bundled: Supervisor<u32> = Supervisor::new(Mode::Production);
    let reply = bundled.start(|launch: Launch| {
        seen_production.push(launch);
        Ok(2)
    });
    assert_eq!(reply, Ok(Started::Launched));
    assert_eq!(seen_production, vec![Launch::for_mode(Mode::Production)]);
}

#[test]
fn start_twice_spawns_once() {
    let mut spawns: u32 = 0;
    let mut sup: Supervisor<u32> = Supervisor::new(Mode::Development);
    let first = sup.start(|_launch: Launch| {
        spawns += 1;
        Ok(7)
    });
    assert_eq!(first, Ok(Started::Launched));
    let second = sup.start(|_launch: Launch| {
        spawns += 1;
        Ok(8)
    });
    assert_eq!(second, Ok(Started::AlreadyRunning));
    assert_eq!(spawns, 1);
    assert_eq!(sup.handle(), Some(&7));
}

#[test]
fn start_after_a_failed_spawn_spawns_again() {
    let mut sup: Supervisor<u32> = Supervisor::new(Mode::Production);
    let first = sup.start(|_launch: Launch| Err("No such file or directory".to_string()));
    assert_eq!(
        first,
        Err(Failure::Spawn("No such file or directory".to_string()))
    );
    assert!(!sup.is_running());
    assert_eq!(sup.start(spawn_ok(3)), Ok(Started::Launched));
    assert_eq!(sup.handle(), Some(&3));
}

#[test]
fn stop_when_nothing_runs_is_no_error() {
    let mut kills: u32 = 0;
    let mut sup: Supervisor<u32> = Supervisor::new(Mode::Development);
    let reply = sup.stop(|_handle: &mut u32| {
        kills += 1;
        Ok(())
    });
    assert_eq!(reply, Ok(Stopped::NotRunning));
    assert_eq!(kills, 0);
    assert!(!sup.is_running());
}

#[test]
fn start_stop_round_trip() {
    let mut sup: Supervisor<u32> = Supervisor::new(Mode::Development);
    assert_eq!(sup.start(spawn_ok(5)), Ok(Started::Launched));
    assert!(sup.is_running());
    assert_eq!(sup.stop(kill_ok), Ok(Stopped::Terminated));
    assert!(!sup.is_running());
    let mut polls: u32 = 0;
    let checked = sup.check(|_handle: &mut u32| {
        polls += 1;
        Ok(Probe::Alive)
    });
    assert_eq!(checked, Ok(false));
    assert_eq!(polls, 0);
}

#[test]
fn stop_is_asked_of_the_handle_that_start_stored() {
    let mut killed: Vec<u32> = Vec::new();
    let mut sup: Supervisor<u32> = Supervisor::new(Mode::Development);
    assert_eq!(sup.start(spawn_ok(99)), Ok(Started::Launched));
    let reply = sup.stop(|handle: &mut u32| {
        killed.push(*handle);
        Ok(())
    });
    assert_eq!(reply, Ok(Stopped::Terminated));
    assert_eq!(killed, vec![99]);
}

#[test]
fn check_reports_a_live_server_and_keeps_it() {
    let mut sup: Supervisor<u32> = Supervisor::new(Mode::Development);
    assert_eq!(sup.start(spawn_ok(11)), Ok(Started::Launched));
    assert_eq!(sup.check(alive), Ok(true));
    assert_eq!(sup.handle(), Some(&11));
    assert_eq!(sup.check(alive), Ok(true));
    assert!(sup.is_running());
}

#[test]
fn check_notices_an_exit_and_does_not_reap_twice() {
    let mut sup: Supervisor<u32> = Supervisor::new(Mode::Development);
    assert_eq!(sup.start(spawn_ok(12)), Ok(Started::Launched));
    assert_eq!(sup.check(exited), Ok(false));
    assert!(!sup.is_running());
    let mut polls: u32 = 0;
    let again = sup.check(|_handle: &mut u32| {
        polls += 1;
        Err("no such process".to_string())
    });
    assert_eq!(again, Ok(false));
    assert_eq!(polls, 0);
    assert!(!sup.is_running());
}

#[test]
fn check_surfaces_a_poll_failure_and_keeps_the_handle() {
    let mut sup: Supervisor<u32> = Supervisor::new(Mode::Development);
    assert_eq!(sup.start(spawn_ok(13)), Ok(Started::Launched));
    let reply = sup.check(|_handle: &mut u32| Err("bad handle".to_string()));
    assert_eq!(reply, Err(Failure::Poll("bad handle".to_string())));
    assert_eq!(sup.handle(), Some(&13));
}

#[test]
fn failed_stop_keeps_the_handle_and_the_next_stop_tries_again() {
    let mut kills: u32 = 0;
    let mut sup: Supervisor<u32> = Supervisor::new(Mode::Development);
    assert_eq!(sup.start(spawn_ok(21)), Ok(Started::Launched));
    let failed = sup.stop(|_handle: &mut u32| {
        kills += 1;
        Err("Operation not permitted".to_string())
    });
    assert_eq!(
        failed,
        Err(Failure::Kill("Operation not permitted".to_string()))
    );
    assert!(sup.is_running());
    assert_eq!(sup.handle(), Some(&21));
    let retried = sup.stop(|_handle: &mut u32| {
        kills += 1;
        Ok(())
    });
    assert_eq!(retried, Ok(Stopped::Terminated));
    assert_eq!(kills, 2);
    assert!(!sup.is_running());
}

#[test]
fn what_the_outside_work_does_to_the_handle_is_kept() {
    let mut sup: Supervisor<u32> = Supervisor::new(Mode::Development);
    assert_eq!(sup.start(spawn_ok(30)), Ok(Started::Launched));
    let polled = sup.check(|handle: &mut u32| {
        *handle += 1;
        Ok(Probe::Alive)
    });
    assert_eq!(polled, Ok(true));
    assert_eq!(sup.handle(), Some(&31));
    let failed = sup.stop(|handle: &mut u32| {
        *handle += 1;
        Err("busy".to_string())
    });
    assert_eq!(failed, Err(Failure::Kill("busy".to_string())));
    assert_eq!(sup.handle(), Some(&32));
}

#[test]
fn start_check_stop_scenario() {
    let mut sup: Supervisor<u32> = Supervisor::new(Mode::Development);
    assert_eq!(sup.start(spawn_ok(1)), Ok(Started::Launched));
    assert_eq!(sup.check(alive), Ok(true));
    assert_eq!(sup.stop(kill_ok), Ok(Stopped::Terminated));
    assert_eq!(sup.check(alive), Ok(false));
    assert_eq!(sup.stop(kill_ok), Ok(Stopped::NotRunning));
}

#[test]
fn the_supervisor_can_be_cycled() {
    let mut sup: Supervisor<u32> = Supervisor::new(Mode::Production);
    let mut round: u32 = 0;
    while round < 5 {
        assert_eq!(sup.start(spawn_ok(round)), Ok(Started::Launched));
        assert_eq!(sup.start(spawn_ok(1000)), Ok(Started::AlreadyRunning));
        assert_eq!(sup.handle(), Some(&round));
        if round % 2 == 0 {
            assert_eq!(sup.stop(kill_ok), Ok(Stopped::Terminated));
        } else {
            assert_eq!(sup.check(exited), Ok(false));
        }
        assert!(!sup.is_running());
        round += 1;
    }
}

#[test]
fn only_start_fills_the_slot() {
    let mut sup: Supervisor<u32> = Supervisor::new(Mode::Development);
    assert_eq!(sup.stop(kill_ok), Ok(Stopped::NotRunning));
    assert!(!sup.is_running());
    assert_eq!(sup.check(alive), Ok(false));
    assert!(!sup.is_running());
    assert_eq!(sup.start(spawn_ok(2)), Ok(Started::Launched));
    assert!(sup.is_running());
    assert_eq!(sup.start(spawn_ok(3)), Ok(Started::AlreadyRunning));
    assert!(sup.is_running());
}

#[test]
fn settle_spawn_keeps_the_handle_or_the_failure() {
    assert_eq!(
        settle_spawn::<u32>(Ok(4)),
        (Some(4), Ok(Started::Launched))
    );
    assert_eq!(
        settle_spawn::<u32>(Err("denied".to_string())),
        (None, Err(Failure::Spawn("denied".to_string())))
    );
}

#[test]
fn settle_kill_lets_go_only_on_success() {
    assert_eq!(settle_kill(4u32, Ok(())), (None, Ok(Stopped::Terminated)));
    assert_eq!(
        settle_kill(4u32, Err("denied".to_string())),
        (Some(4), Err(Failure::Kill("denied".to_string())))
    );
}

#[test]
fn settle_poll_lets_go_only_on_exit() {
    assert_eq!(settle_poll(4u32, Ok(Probe::Exited)), (None, Ok(false)));
    assert_eq!(settle_poll(4u32, Ok(Probe::Alive)), (Some(4), Ok(true)));
    assert_eq!(
        settle_poll(4u32, Err("denied".to_string())),
        (Some(4), Err(Failure::Poll("denied".to_string())))
    );
}
