use supertiny::args::split_arguments;
use supertiny::detector::{compare_fingerprints, Fingerprint, PollVerdict};
use supertiny::supervisor::{Action, Event, Phase, Supervisor};
use supertiny::target::{TargetSpec, DEFAULT_POLL_INTERVAL_SECS};

fn running(pid: u32) -> Supervisor {
    let mut s = Supervisor::new();
    assert_eq!(s.handle(Event::Start), Action::Spawn);
    assert_eq!(s.handle(Event::Spawned(pid)), Action::Watch(pid));
    s
}

#[test]
fn starts_by_spawning() {
    let mut s = Supervisor::new();
    assert_eq!(s.phase(), Phase::Idle);
    assert_eq!(s.handle(Event::Start), Action::Spawn);
    assert_eq!(s.phase(), Phase::Spawning);
}

#[test]
fn respawns_on_exit_with_any_status() {
    for code in [Some(0), Some(1), Some(-3), None] {
        let mut s = running(10);
        assert_eq!(s.handle(Event::ChildExited(code)), Action::Spawn);
        assert_eq!(s.phase(), Phase::Spawning);
        assert_eq!(s.handle(Event::Spawned(11)), Action::Watch(11));
        assert_eq!(s.phase(), Phase::Running(11));
    }
}

#[test]
fn reload_kills_then_respawns() {
    let mut s = running(20);
    assert_eq!(s.handle(Event::ReloadRequested), Action::Kill(20));
    assert_eq!(s.phase(), Phase::Restarting(20));
    assert_eq!(s.handle(Event::Killed), Action::Spawn);
    assert_eq!(s.handle(Event::Spawned(21)), Action::Watch(21));
}

#[test]
fn signal_kills_and_exits_zero() {
    let mut s = running(30);
    assert_eq!(s.handle(Event::TerminationRequested), Action::Kill(30));
    assert_eq!(s.handle(Event::Killed), Action::Exit(0));
    assert_eq!(s.phase(), Phase::Stopped(0));
    for e in [
        Event::Start,
        Event::ChildExited(Some(0)),
        Event::ReloadRequested,
        Event::Spawned(31),
        Event::Killed,
    ] {
        assert_eq!(s.handle(e), Action::Nothing);
        assert_eq!(s.phase(), Phase::Stopped(0));
    }
}

#[test]
fn signal_without_child_exits_at_once() {
    let mut s = Supervisor::new();
    assert_eq!(s.handle(Event::TerminationRequested), Action::Exit(0));
    let mut s = Supervisor::new();
    s.handle(Event::Start);
    assert_eq!(s.handle(Event::TerminationRequested), Action::Exit(0));
}

#[test]
fn launch_failure_exits_non_zero() {
    let mut s = Supervisor::new();
    s.handle(Event::Start);
    assert_eq!(s.handle(Event::LaunchFailed), Action::Exit(1));
    assert_eq!(s.phase(), Phase::Stopped(1));
}

#[test]
fn never_two_children() {
    let events = [
        Event::Start,
        Event::Spawned(1),
        Event::ReloadRequested,
        Event::ChildExited(Some(0)),
        Event::Spawned(2),
        Event::ReloadRequested,
        Event::ReloadRequested,
        Event::Killed,
        Event::Spawned(3),
        Event::ChildExited(None),
        Event::Spawned(4),
        Event::Spawned(5),
        Event::TerminationRequested,
        Event::Killed,
    ];
    let mut s = Supervisor::new();
    let mut live = 0i32;
    for e in events {
        let before = s.phase();
        let action = s.handle(e);
        let ends = matches!(
            (before, e),
            (Phase::Running(_) | Phase::Restarting(_) | Phase::ShuttingDown(_), Event::ChildExited(_))
                | (Phase::Restarting(_) | Phase::ShuttingDown(_), Event::Killed)
        );
        if ends {
            live -= 1;
        }
        if action == Action::Spawn {
            live += 1;
        }
        assert!(live <= 1);
    }
    assert_eq!(s.phase(), Phase::Stopped(0));
}

#[test]
fn replaced_binary_is_restarted_with_same_arguments() {
    let target = TargetSpec::new(
        "/tmp/app".to_string(),
        "/tmp/app.args".to_string(),
        DEFAULT_POLL_INTERVAL_SECS,
    );
    assert_eq!(target.binary_path(), "/tmp/app");
    assert_eq!(target.args_path(), "/tmp/app.args");
    assert_eq!(target.poll_interval_secs(), 1);

    let first_args = split_arguments("--port 8080");
    assert_eq!(first_args, vec!["--port".to_string(), "8080".to_string()]);
    let mut s = running(100);

    // the file is overwritten: its creation age starts again
    let verdict = compare_fingerprints(Fingerprint::Present(1), Fingerprint::Present(0));
    assert_eq!(verdict, PollVerdict::Changed);
    assert_eq!(s.handle(Event::ReloadRequested), Action::Kill(100));
    assert_eq!(s.handle(Event::Killed), Action::Spawn);
    let second_args = split_arguments("--port 8080");
    assert_eq!(second_args, first_args);
    assert_eq!(s.handle(Event::Spawned(101)), Action::Watch(101));
    assert_eq!(s.phase(), Phase::Running(101));
}
