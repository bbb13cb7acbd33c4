use muhenkan_switch::error::{Artifact, ControlError, StopStage};
use muhenkan_switch::guard::JobObject;
use muhenkan_switch::supervisor::{
    KanataManager, KanataStatus, Liveness, ProcessPaths, Restart, RestartAction, RestartEvent,
    StartAction, StartEvent, StopAction, StopEvent, GRACE_PERIOD_MS, RESTART_DELAY_MS,
};

fn paths() -> ProcessPaths {
    ProcessPaths {
        executable: "/opt/app/kanata_cmd_allowed".to_string(),
        config: "/opt/app/muhenkan.kbd".to_string(),
    }
}

/// Runs a start from a manager that holds nothing, with a process that lives.
fn start_ok(manager: &mut KanataManager, pid: u32) {
    assert_eq!(manager.start(StartEvent::Requested), StartAction::Resolve);
    assert_eq!(
        manager.start(StartEvent::Resolved(Ok(paths()))),
        StartAction::Spawn { paths: paths() }
    );
    assert!(matches!(
        manager.start(StartEvent::Spawned(Some(pid))),
        StartAction::Settle { .. }
    ));
    assert_eq!(manager.start(StartEvent::Settled(Liveness::Alive)), StartAction::Done(Ok(())));
}

#[test]
fn start_with_valid_paths_reports_running() {
    let mut manager = KanataManager::new(None);
    assert_eq!(manager.status(Liveness::Alive), KanataStatus { running: false, pid: None });
    assert_eq!(manager.start(StartEvent::Requested), StartAction::Resolve);
    assert_eq!(
        manager.start(StartEvent::Resolved(Ok(paths()))),
        StartAction::Spawn { paths: paths() }
    );
    assert_eq!(
        manager.start(StartEvent::Spawned(Some(4242))),
        StartAction::Settle { pid: 4242, replaced: None, register: false, grace_ms: 500 }
    );
    // within the grace period the process already counts as running
    assert_eq!(
        manager.status(Liveness::Alive),
        KanataStatus { running: true, pid: Some(4242) }
    );
    assert_eq!(manager.start(StartEvent::Settled(Liveness::Alive)), StartAction::Done(Ok(())));
    assert_eq!(
        manager.status(Liveness::Alive),
        KanataStatus { running: true, pid: Some(4242) }
    );
    assert_eq!(manager.held(), Some(4242));
    assert!(!manager.launching());
}

#[test]
fn start_twice_is_rejected_and_keeps_the_process() {
    let mut manager = KanataManager::new(None);
    start_ok(&mut manager, 100);
    assert_eq!(manager.start(StartEvent::Requested), StartAction::Probe { pid: 100 });
    assert_eq!(
        manager.start(StartEvent::Probed(Liveness::Alive)),
        StartAction::Done(Err(ControlError::AlreadyRunning))
    );
    assert_eq!(manager.held(), Some(100));
    assert!(!manager.launching());
}

#[test]
fn start_with_failed_probe_is_rejected() {
    let mut manager = KanataManager::new(None);
    start_ok(&mut manager, 100);
    assert_eq!(manager.start(StartEvent::Requested), StartAction::Probe { pid: 100 });
    assert_eq!(
        manager.start(StartEvent::Probed(Liveness::Unknown)),
        StartAction::Done(Err(ControlError::AlreadyRunning))
    );
    assert_eq!(manager.held(), Some(100));
}

#[test]
fn start_replaces_a_crashed_process() {
    let mut manager = KanataManager::new(None);
    start_ok(&mut manager, 100);
    assert_eq!(manager.start(StartEvent::Requested), StartAction::Probe { pid: 100 });
    assert_eq!(manager.start(StartEvent::Probed(Liveness::Exited)), StartAction::Resolve);
    assert_eq!(
        manager.start(StartEvent::Resolved(Ok(paths()))),
        StartAction::Spawn { paths: paths() }
    );
    assert_eq!(
        manager.start(StartEvent::Spawned(Some(101))),
        StartAction::Settle {
            pid: 101,
            replaced: Some(100),
            register: false,
            grace_ms: GRACE_PERIOD_MS
        }
    );
    assert_eq!(manager.start(StartEvent::Settled(Liveness::Alive)), StartAction::Done(Ok(())));
    assert_eq!(manager.held(), Some(101));
}

#[test]
fn stop_is_idempotent() {
    let mut manager = KanataManager::new(None);
    assert_eq!(manager.stop(StopEvent::Requested), StopAction::Done(Ok(())));
    assert_eq!(manager.stop(StopEvent::Requested), StopAction::Done(Ok(())));
    assert_eq!(manager.held(), None);
    start_ok(&mut manager, 7);
    assert_eq!(manager.stop(StopEvent::Requested), StopAction::Signal { pid: 7 });
    assert_eq!(
        manager.stop(StopEvent::Signalled { pid: 7, sent: true }),
        StopAction::AwaitExit { pid: 7 }
    );
    assert_eq!(manager.stop(StopEvent::Reaped { confirmed: true }), StopAction::Done(Ok(())));
    assert_eq!(manager.stop(StopEvent::Requested), StopAction::Done(Ok(())));
    assert_eq!(manager.status(Liveness::Alive), KanataStatus { running: false, pid: None });
}

#[test]
fn stop_failure_still_discards_the_handle() {
    let mut manager = KanataManager::new(None);
    start_ok(&mut manager, 7);
    assert_eq!(manager.stop(StopEvent::Requested), StopAction::Signal { pid: 7 });
    assert_eq!(manager.held(), None);
    assert_eq!(
        manager.stop(StopEvent::Signalled { pid: 7, sent: false }),
        StopAction::Done(Err(ControlError::StopFailed(StopStage::Signal)))
    );
    assert_eq!(manager.held(), None);

    start_ok(&mut manager, 8);
    assert_eq!(manager.stop(StopEvent::Requested), StopAction::Signal { pid: 8 });
    assert_eq!(
        manager.stop(StopEvent::Signalled { pid: 8, sent: true }),
        StopAction::AwaitExit { pid: 8 }
    );
    assert_eq!(
        manager.stop(StopEvent::Reaped { confirmed: false }),
        StopAction::Done(Err(ControlError::StopFailed(StopStage::Wait)))
    );
    assert_eq!(manager.held(), None);
}

#[test]
fn start_after_stop_yields_a_new_process() {
    let mut manager = KanataManager::new(None);
    start_ok(&mut manager, 10);
    assert_eq!(manager.stop(StopEvent::Requested), StopAction::Signal { pid: 10 });
    assert_eq!(
        manager.stop(StopEvent::Signalled { pid: 10, sent: true }),
        StopAction::AwaitExit { pid: 10 }
    );
    assert_eq!(manager.stop(StopEvent::Reaped { confirmed: true }), StopAction::Done(Ok(())));
    assert!(!manager.status(Liveness::Alive).running);
    start_ok(&mut manager, 11);
    let status = manager.status(Liveness::Alive);
    assert!(status.running);
    assert_eq!(status.pid, Some(11));
    assert_ne!(status.pid, Some(10));
}

#[test]
fn missing_executable_fails_the_start() {
    let mut manager = KanataManager::new(None);
    assert_eq!(manager.start(StartEvent::Requested), StartAction::Resolve);
    assert_eq!(
        manager.start(StartEvent::Resolved(Err(Artifact::Executable))),
        StartAction::Done(Err(ControlError::NotFound(Artifact::Executable)))
    );
    assert_eq!(manager.status(Liveness::Alive), KanataStatus { running: false, pid: None });
    assert!(!manager.launching());
}

#[test]
fn missing_config_fails_the_start() {
    let mut manager = KanataManager::new(None);
    assert_eq!(manager.start(StartEvent::Requested), StartAction::Resolve);
    assert_eq!(
        manager.start(StartEvent::Resolved(Err(Artifact::Config))),
        StartAction::Done(Err(ControlError::NotFound(Artifact::Config)))
    );
    assert_eq!(manager.held(), None);
}

#[test]
fn refused_spawn_stores_nothing() {
    let mut manager = KanataManager::new(None);
    assert_eq!(manager.start(StartEvent::Requested), StartAction::Resolve);
    assert_eq!(
        manager.start(StartEvent::Resolved(Ok(paths()))),
        StartAction::Spawn { paths: paths() }
    );
    assert_eq!(
        manager.start(StartEvent::Spawned(None)),
        StartAction::Done(Err(ControlError::LaunchFailed))
    );
    assert_eq!(manager.held(), None);
    assert_eq!(manager.status(Liveness::Alive), KanataStatus { running: false, pid: None });
}

#[test]
fn immediate_exit_is_an_early_exit() {
    let mut manager = KanataManager::new(None);
    assert_eq!(manager.start(StartEvent::Requested), StartAction::Resolve);
    assert_eq!(
        manager.start(StartEvent::Resolved(Ok(paths()))),
        StartAction::Spawn { paths: paths() }
    );
    assert!(matches!(
        manager.start(StartEvent::Spawned(Some(55))),
        StartAction::Settle { pid: 55, .. }
    ));
    assert_eq!(
        manager.start(StartEvent::Settled(Liveness::Exited)),
        StartAction::Done(Err(ControlError::EarlyExit))
    );
    let status = manager.status(Liveness::Exited);
    assert!(!status.running);
    // a retry is possible: the dead handle does not block the next start
    assert_eq!(manager.start(StartEvent::Requested), StartAction::Probe { pid: 55 });
    assert_eq!(manager.start(StartEvent::Probed(Liveness::Exited)), StartAction::Resolve);
}

#[test]
fn concurrent_start_is_rejected() {
    let mut manager = KanataManager::new(None);
    // the first caller is on its way
    assert_eq!(manager.start(StartEvent::Requested), StartAction::Resolve);
    // the second one is turned away at once
    assert_eq!(
        manager.start(StartEvent::Requested),
        StartAction::Done(Err(ControlError::AlreadyRunning))
    );
    assert_eq!(
        manager.start(StartEvent::Resolved(Ok(paths()))),
        StartAction::Spawn { paths: paths() }
    );
    assert_eq!(
        manager.start(StartEvent::Requested),
        StartAction::Done(Err(ControlError::AlreadyRunning))
    );
    assert!(matches!(
        manager.start(StartEvent::Spawned(Some(900))),
        StartAction::Settle { pid: 900, .. }
    ));
    assert_eq!(
        manager.start(StartEvent::Requested),
        StartAction::Done(Err(ControlError::AlreadyRunning))
    );
    assert_eq!(manager.start(StartEvent::Settled(Liveness::Alive)), StartAction::Done(Ok(())));
    // exactly one process is held
    assert_eq!(manager.held(), Some(900));
    assert_eq!(manager.start(StartEvent::Requested), StartAction::Probe { pid: 900 });
    assert_eq!(
        manager.start(StartEvent::Probed(Liveness::Alive)),
        StartAction::Done(Err(ControlError::AlreadyRunning))
    );
}

#[test]
fn events_out_of_turn_are_ignored() {
    let mut manager = KanataManager::new(None);
    assert_eq!(manager.start(StartEvent::Spawned(Some(1))), StartAction::Ignored);
    assert_eq!(manager.start(StartEvent::Settled(Liveness::Alive)), StartAction::Ignored);
    assert_eq!(manager.start(StartEvent::Probed(Liveness::Exited)), StartAction::Ignored);
    assert_eq!(manager.start(StartEvent::Resolved(Ok(paths()))), StartAction::Ignored);
    assert_eq!(manager.held(), None);
    assert!(!manager.launching());
}

#[test]
fn status_leaves_a_dead_handle_in_place() {
    let mut manager = KanataManager::new(None);
    start_ok(&mut manager, 5);
    assert_eq!(
        manager.status(Liveness::Exited),
        KanataStatus { running: false, pid: Some(5) }
    );
    assert_eq!(manager.held(), Some(5));
    assert_eq!(
        manager.status(Liveness::Unknown),
        KanataStatus { running: true, pid: Some(5) }
    );
}

#[test]
fn spawn_registers_with_the_guard() {
    let guard = JobObject::new(true);
    assert!(guard.is_some());
    assert!(JobObject::new(false).is_none());
    let mut manager = KanataManager::new(guard);
    assert!(!manager.guards(77));
    assert_eq!(manager.start(StartEvent::Requested), StartAction::Resolve);
    assert_eq!(
        manager.start(StartEvent::Resolved(Ok(paths()))),
        StartAction::Spawn { paths: paths() }
    );
    assert_eq!(
        manager.start(StartEvent::Spawned(Some(77))),
        StartAction::Settle { pid: 77, replaced: None, register: true, grace_ms: 500 }
    );
    assert!(manager.guards(77));
    assert_eq!(manager.start(StartEvent::Settled(Liveness::Alive)), StartAction::Done(Ok(())));
    // a stop does not release the binding
    assert_eq!(manager.stop(StopEvent::Requested), StopAction::Signal { pid: 77 });
    assert!(manager.guards(77));
}

#[test]
fn guard_tracks_each_process_once() {
    let mut guard = JobObject::new(true).unwrap();
    assert!(!guard.tracks(1));
    guard.assign(1);
    guard.assign(2);
    guard.assign(1);
    assert!(guard.tracks(1));
    assert!(guard.tracks(2));
    assert!(!guard.tracks(3));
}

fn drive_restart(
    manager: &mut KanataManager,
    sent: bool,
    confirmed: bool,
    spawned: Option<u32>,
    settled: Liveness,
) -> Result<(), ControlError> {
    let mut run = Restart::new();
    let mut action = manager.restart(&mut run, RestartEvent::Requested);
    for _ in 0..16 {
        let event = match action {
            RestartAction::Done(result) => return result,
            RestartAction::Ignored => panic!("restart ignored an answer"),
            RestartAction::Delay { ms } => {
                assert_eq!(ms, RESTART_DELAY_MS);
                RestartEvent::Delayed
            }
            RestartAction::Stop(StopAction::Signal { pid }) => {
                RestartEvent::Stop(StopEvent::Signalled { pid, sent })
            }
            RestartAction::Stop(StopAction::AwaitExit { .. }) => {
                RestartEvent::Stop(StopEvent::Reaped { confirmed })
            }
            RestartAction::Stop(StopAction::Done(_)) => unreachable!(),
            RestartAction::Start(StartAction::Probe { .. }) => {
                RestartEvent::Start(StartEvent::Probed(Liveness::Exited))
            }
            RestartAction::Start(StartAction::Resolve) => {
                RestartEvent::Start(StartEvent::Resolved(Ok(paths())))
            }
            RestartAction::Start(StartAction::Spawn { .. }) => {
                RestartEvent::Start(StartEvent::Spawned(spawned))
            }
            RestartAction::Start(StartAction::Settle { .. }) => {
                RestartEvent::Start(StartEvent::Settled(settled))
            }
            RestartAction::Start(_) => unreachable!(),
        };
        action = manager.restart(&mut run, event);
    }
    panic!("restart did not end");
}

#[test]
fn restart_stops_then_starts() {
    let mut manager = KanataManager::new(None);
    start_ok(&mut manager, 20);
    assert_eq!(drive_restart(&mut manager, true, true, Some(21), Liveness::Alive), Ok(()));
    assert_eq!(
        manager.status(Liveness::Alive),
        KanataStatus { running: true, pid: Some(21) }
    );
}

#[test]
fn restart_from_stopped_starts() {
    let mut manager = KanataManager::new(None);
    assert_eq!(drive_restart(&mut manager, true, true, Some(3), Liveness::Alive), Ok(()));
    assert_eq!(manager.held(), Some(3));
}

#[test]
fn restart_reports_the_start_when_only_the_stop_failed() {
    let mut manager = KanataManager::new(None);
    start_ok(&mut manager, 20);
    assert_eq!(drive_restart(&mut manager, false, true, Some(21), Liveness::Alive), Ok(()));
    assert_eq!(manager.held(), Some(21));
}

#[test]
fn restart_surfaces_the_failing_step() {
    let mut manager = KanataManager::new(None);
    start_ok(&mut manager, 20);
    assert_eq!(
        drive_restart(&mut manager, true, true, None, Liveness::Alive),
        Err(ControlError::LaunchFailed)
    );
    assert_eq!(manager.held(), None);

    start_ok(&mut manager, 30);
    assert_eq!(
        drive_restart(&mut manager, true, true, Some(31), Liveness::Exited),
        Err(ControlError::EarlyExit)
    );

    let mut other = KanataManager::new(None);
    start_ok(&mut other, 40);
    assert_eq!(
        drive_restart(&mut other, true, false, None, Liveness::Alive),
        Err(ControlError::StopFailed(StopStage::Wait))
    );
}

#[test]
fn error_messages_differ() {
    let all = [
        ControlError::NotFound(Artifact::Executable),
        ControlError::NotFound(Artifact::Config),
        ControlError::NotFound(Artifact::HelperDir),
        ControlError::AlreadyRunning,
        ControlError::LaunchFailed,
        ControlError::EarlyExit,
        ControlError::StopFailed(StopStage::Signal),
        ControlError::StopFailed(StopStage::Wait),
    ];
    for (i, a) in all.iter().enumerate() {
        for (j, b) in all.iter().enumerate() {
            assert_eq!(i == j, a.message() == b.message());
        }
    }
    assert_eq!(ControlError::EarlyExit.message(), "キー割当の起動に失敗しました。");
    assert_eq!(ControlError::AlreadyRunning.message(), "キー割当は既に実行中です");
    assert_eq!(
        ControlError::StopFailed(StopStage::Wait).message(),
        "キー割当の終了待機に失敗しました"
    );
}
