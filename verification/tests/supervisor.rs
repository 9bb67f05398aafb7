use autonomi_browser::bootstrap::{BootAction, BootEvent, Bootstrap};
use autonomi_browser::outcome::{ExecutionOutcome, LogLine, LogStream};
use autonomi_browser::paths::{resolve_from, BaseDirectories};
use autonomi_browser::supervisor::{Supervisor, UnitAction, UnitEvent};

fn dirs_below(root: &str) -> BaseDirectories {
    resolve_from(Some(String::from(root))).unwrap()
}

fn running() -> Supervisor {
    let (state, _) = Supervisor::begin(&dirs_below("/data"));
    let (state, _) = state.step(UnitEvent::LineWritten);
    let (state, action) = state.step(UnitEvent::ConfigLoaded);
    assert_eq!(action, UnitAction::RunService);
    state
}

/// Drives a unit to its end with a service that returns `result`, and gives
/// back every move in order.
fn unit_moves(dirs: &BaseDirectories, result: Result<(), String>) -> (Supervisor, Vec<UnitAction>) {
    let mut result = Some(result);
    let mut moves = Vec::new();
    let (mut state, mut action) = Supervisor::begin(dirs);
    loop {
        let event = match &action {
            UnitAction::Write { .. } => UnitEvent::LineWritten,
            UnitAction::LoadConfig => UnitEvent::ConfigLoaded,
            UnitAction::RunService => UnitEvent::ServiceReturned {
                result: result.take().expect("the service runs once"),
            },
            UnitAction::Nothing => {
                moves.push(action);
                return (state, moves);
            }
        };
        moves.push(action);
        let next = state.step(event);
        state = next.0;
        action = next.1;
    }
}

#[test]
fn unit_begins_with_the_announcement() {
    let (state, action) = Supervisor::begin(&dirs_below("/data"));
    assert_eq!(state, Supervisor::Announcing);
    assert_eq!(
        action,
        UnitAction::Write {
            line: LogLine {
                stream: LogStream::Output,
                text: String::from(
                    "ANTTP starting. Media: /data/autonomi-browser/media, Cache: /data/autonomi-browser/cache"
                ),
            },
        }
    );
}

#[test]
fn unit_loads_the_configuration_after_the_announcement() {
    let (state, _) = Supervisor::begin(&dirs_below("/data"));
    let (state, action) = state.step(UnitEvent::LineWritten);
    assert_eq!(state, Supervisor::Configuring);
    assert_eq!(action, UnitAction::LoadConfig);
}

#[test]
fn unit_runs_the_service_after_the_configuration() {
    let (state, _) = Supervisor::begin(&dirs_below("/data"));
    let (state, _) = state.step(UnitEvent::LineWritten);
    let (state, action) = state.step(UnitEvent::ConfigLoaded);
    assert_eq!(state, Supervisor::Running);
    assert_eq!(action, UnitAction::RunService);
}

#[test]
fn clean_exit_is_reported_on_output() {
    let (state, action) = running().step(UnitEvent::ServiceReturned { result: Ok(()) });
    assert_eq!(state, Supervisor::Finished { outcome: ExecutionOutcome::CleanExit });
    assert_eq!(
        action,
        UnitAction::Write {
            line: LogLine {
                stream: LogStream::Output,
                text: String::from("ANTTP server exited cleanly."),
            },
        }
    );
}

#[test]
fn failure_is_reported_on_error() {
    let (state, action) = running()
        .step(UnitEvent::ServiceReturned { result: Err(String::from("address in use")) });
    assert_eq!(
        state,
        Supervisor::Finished { outcome: ExecutionOutcome::Failed(String::from("address in use")) }
    );
    assert_eq!(
        action,
        UnitAction::Write {
            line: LogLine {
                stream: LogStream::Error,
                text: String::from("ANTTP server failed: address in use"),
            },
        }
    );
}

#[test]
fn events_out_of_turn_change_nothing() {
    let (state, _) = Supervisor::begin(&dirs_below("/data"));
    let (state, action) = state.step(UnitEvent::ConfigLoaded);
    assert_eq!((&state, &action), (&Supervisor::Announcing, &UnitAction::Nothing));
    let (state, action) = state.step(UnitEvent::ServiceReturned { result: Ok(()) });
    assert_eq!((&state, &action), (&Supervisor::Announcing, &UnitAction::Nothing));
    let (state, _) = state.step(UnitEvent::LineWritten);
    let (state, action) = state.step(UnitEvent::LineWritten);
    assert_eq!((&state, &action), (&Supervisor::Configuring, &UnitAction::Nothing));
    let (state, action) =
        state.step(UnitEvent::ServiceReturned { result: Err(String::from("early")) });
    assert_eq!((&state, &action), (&Supervisor::Configuring, &UnitAction::Nothing));
    let (state, _) = state.step(UnitEvent::ConfigLoaded);
    let (state, action) = state.step(UnitEvent::ConfigLoaded);
    assert_eq!((&state, &action), (&Supervisor::Running, &UnitAction::Nothing));
    let (state, action) = state.step(UnitEvent::LineWritten);
    assert_eq!((&state, &action), (&Supervisor::Running, &UnitAction::Nothing));
}

#[test]
fn finished_unit_does_not_run_the_service_again() {
    let (mut state, _) = running().step(UnitEvent::ServiceReturned { result: Ok(()) });
    for _ in 0..2 {
        let (next, action) = state.step(UnitEvent::LineWritten);
        assert_eq!(action, UnitAction::Nothing);
        let (next, action) = next.step(UnitEvent::ConfigLoaded);
        assert_eq!(action, UnitAction::Nothing);
        let (next, action) =
            next.step(UnitEvent::ServiceReturned { result: Err(String::from("again")) });
        assert_eq!(action, UnitAction::Nothing);
        assert_eq!(next, Supervisor::Finished { outcome: ExecutionOutcome::CleanExit });
        state = next;
    }
}

#[test]
fn outcome_is_kept_once_finished() {
    let (state, _) = Supervisor::begin(&dirs_below("/data"));
    assert_eq!(state.outcome(), None);
    let state = running();
    assert_eq!(state.outcome(), None);
    let (state, _) = state.step(UnitEvent::ServiceReturned { result: Err(String::from("x")) });
    assert_eq!(state.outcome(), Some(&ExecutionOutcome::Failed(String::from("x"))));
    let (state, _) = running().step(UnitEvent::ServiceReturned { result: Ok(()) });
    assert_eq!(state.outcome(), Some(&ExecutionOutcome::CleanExit));
}

#[test]
fn unit_follows_its_script_to_a_clean_exit() {
    let dirs = dirs_below("/home/alice/.local/share");
    let (state, moves) = unit_moves(&dirs, Ok(()));
    assert_eq!(state, Supervisor::Finished { outcome: ExecutionOutcome::CleanExit });
    assert_eq!(moves.len(), 5);
    assert!(matches!(moves[0], UnitAction::Write { .. }));
    assert_eq!(moves[1], UnitAction::LoadConfig);
    assert_eq!(moves[2], UnitAction::RunService);
    assert_eq!(
        moves[3],
        UnitAction::Write {
            line: LogLine {
                stream: LogStream::Output,
                text: String::from("ANTTP server exited cleanly."),
            },
        }
    );
    assert_eq!(moves[4], UnitAction::Nothing);
}

#[test]
fn failing_service_leaves_the_host_launched() {
    let (host, _) = Bootstrap::begin_with(Some(String::from("/data")));
    let (host, _) = host.step(BootEvent::DirectoryReady);
    let (host, launch) = host.step(BootEvent::DirectoryReady);
    assert_eq!(host, Bootstrap::Launched);
    let dirs = match launch {
        BootAction::Launch { dirs } => dirs,
        other => panic!("expected a launch, found {:?}", other),
    };
    let (unit, moves) = unit_moves(&dirs, Err(String::from("failed at once")));
    assert_eq!(
        unit,
        Supervisor::Finished { outcome: ExecutionOutcome::Failed(String::from("failed at once")) }
    );
    assert_eq!(
        moves[3],
        UnitAction::Write {
            line: LogLine {
                stream: LogStream::Error,
                text: String::from("ANTTP server failed: failed at once"),
            },
        }
    );
    assert_eq!(host, Bootstrap::Launched);
}

#[test]
fn host_is_launched_while_the_service_has_not_returned() {
    let (host, _) = Bootstrap::begin_with(Some(String::from("/data")));
    let (host, _) = host.step(BootEvent::DirectoryReady);
    let (host, launch) = host.step(BootEvent::DirectoryReady);
    let dirs = match launch {
        BootAction::Launch { dirs } => dirs,
        other => panic!("expected a launch, found {:?}", other),
    };
    assert_eq!(host, Bootstrap::Launched);
    let (unit, _) = Supervisor::begin(&dirs);
    let (unit, _) = unit.step(UnitEvent::LineWritten);
    let (unit, action) = unit.step(UnitEvent::ConfigLoaded);
    assert_eq!(action, UnitAction::RunService);
    assert_eq!(unit, Supervisor::Running);
    assert_eq!(unit.outcome(), None);
    assert_eq!(host, Bootstrap::Launched);
}
