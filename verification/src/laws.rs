//! What holds of whole operations: an operation is run step by step against
//! the answers that the operating system gives, with no other caller in
//! between, and the outcome is compared with what the controller promises.

use vstd::prelude::*;
use crate::error::{Artifact, ControlError, StopStage};
use crate::supervisor::{
    restart_result, restart_step, start_step, status_of, stop_step, LaunchPhase, Liveness,
    ManagerState, ProcessPaths, Restart, RestartAction, RestartEvent, RestartStage, StartAction,
    StartEvent, StopAction, StopEvent,
};

verus! {

/// The operating system's answers during one start.
pub struct LaunchAnswers {
    /// The probe of the handle that was still held.
    pub probe: Liveness,
    /// The search for the paths.
    pub found: Result<ProcessPaths, Artifact>,
    /// The spawn.
    pub spawned: Option<u32>,
    /// The probe after the grace period.
    pub settled: Liveness,
}

/// The operating system's answers during one stop.
pub struct StopAnswers {
    /// Whether the termination signal could be sent.
    pub sent: bool,
    /// Whether the exit was confirmed.
    pub confirmed: bool,
}

/// The event with which the caller answers `action` during a start.
pub open spec fn launch_answer(action: StartAction, os: LaunchAnswers) -> StartEvent {
    match action {
        StartAction::Probe { .. } => StartEvent::Probed(os.probe),
        StartAction::Resolve => StartEvent::Resolved(os.found),
        StartAction::Spawn { .. } => StartEvent::Spawned(os.spawned),
        _ => StartEvent::Settled(os.settled),
    }
}

/// A start carried on from `action` until it is over, in at most `fuel` steps.
pub open spec fn carry_start(
    s: ManagerState,
    action: StartAction,
    os: LaunchAnswers,
    fuel: nat,
) -> (ManagerState, Result<(), ControlError>)
    decreases fuel,
{
    match action {
        StartAction::Done(result) => (s, result),
        _ => if fuel == 0 {
            (s, Err(ControlError::LaunchFailed))
        } else {
            let (next, answer) = start_step(s, launch_answer(action, os));
            carry_start(next, answer, os, (fuel - 1) as nat)
        },
    }
}

/// The state and the result when a start is run to its end.
pub open spec fn start_run(s: ManagerState, os: LaunchAnswers) -> (
    ManagerState,
    Result<(), ControlError>,
) {
    let (next, action) = start_step(s, StartEvent::Requested);
    carry_start(next, action, os, 4)
}

/// The event with which the caller answers `action` during a stop.
pub open spec fn stop_answer(action: StopAction, os: StopAnswers) -> StopEvent {
    match action {
        StopAction::Signal { pid } => StopEvent::Signalled { pid, sent: os.sent },
        _ => StopEvent::Reaped { confirmed: os.confirmed },
    }
}

/// A stop carried on from `action` until it is over, in at most `fuel` steps.
pub open spec fn carry_stop(s: ManagerState, action: StopAction, os: StopAnswers, fuel: nat) -> (
    ManagerState,
    Result<(), ControlError>,
)
    decreases fuel,
{
    match action {
        StopAction::Done(result) => (s, result),
        _ => if fuel == 0 {
            (s, Err(ControlError::StopFailed(StopStage::Wait)))
        } else {
            let (next, answer) = stop_step(s, stop_answer(action, os));
            carry_stop(next, answer, os, (fuel - 1) as nat)
        },
    }
}

/// The state and the result when a stop is run to its end.
pub open spec fn stop_run(s: ManagerState, os: StopAnswers) -> (
    ManagerState,
    Result<(), ControlError>,
) {
    let (next, action) = stop_step(s, StopEvent::Requested);
    carry_stop(next, action, os, 2)
}

/// The event with which the caller answers `action` during a restart.
pub open spec fn restart_answer(
    action: RestartAction,
    stopping: StopAnswers,
    starting: LaunchAnswers,
) -> RestartEvent {
    match action {
        RestartAction::Stop(inner) => RestartEvent::Stop(stop_answer(inner, stopping)),
        RestartAction::Start(inner) => RestartEvent::Start(launch_answer(inner, starting)),
        _ => RestartEvent::Delayed,
    }
}

/// A restart carried on from `action` until it is over, in at most `fuel`
/// steps.
pub open spec fn carry_restart(
    s: ManagerState,
    run: Restart,
    action: RestartAction,
    stopping: StopAnswers,
    starting: LaunchAnswers,
    fuel: nat,
) -> (ManagerState, Result<(), ControlError>)
    decreases fuel,
{
    match action {
        RestartAction::Done(result) => (s, result),
        _ => if fuel == 0 {
            (s, Err(ControlError::StopFailed(StopStage::Wait)))
        } else {
            let (next, moved, answer) = restart_step(
                s,
                run,
                restart_answer(action, stopping, starting),
            );
            carry_restart(next, moved, answer, stopping, starting, (fuel - 1) as nat)
        },
    }
}

/// The state and the result when a restart is run to its end.
pub open spec fn restart_run(s: ManagerState, stopping: StopAnswers, starting: LaunchAnswers) -> (
    ManagerState,
    Result<(), ControlError>,
) {
    let fresh = Restart { stage: RestartStage::Pending, stopped: Ok(()) };
    let (next, moved, action) = restart_step(s, fresh, RestartEvent::Requested);
    carry_restart(next, moved, action, stopping, starting, 8)
}

/// A start succeeds exactly where the held process, if any, has exited, both
/// paths are found, the spawn is accepted and the new process has not exited
/// by the end of the grace period. Each failure has its own error, and the
/// held handle changes only where the spawn was accepted.
pub proof fn start_outcome(s: ManagerState, os: LaunchAnswers)
    requires
        s.phase == LaunchPhase::Idle,
    ensures
        start_run(s, os).0.phase == LaunchPhase::Idle,
        start_run(s, os).1 == (if s.held is Some && os.probe != Liveness::Exited {
            Err(ControlError::AlreadyRunning)
        } else {
            match os.found {
                Err(missing) => Err(ControlError::NotFound(missing)),
                Ok(_) => match os.spawned {
                    None => Err(ControlError::LaunchFailed),
                    Some(_) => if os.settled == Liveness::Exited {
                        Err(ControlError::EarlyExit)
                    } else {
                        Ok(())
                    },
                },
            }
        }),
        start_run(s, os).0 == (match start_run(s, os).1 {
            Ok(_) => s.storing(os.spawned.unwrap()).with_phase(LaunchPhase::Idle),
            Err(ControlError::EarlyExit) => s.storing(os.spawned.unwrap()).with_phase(
                LaunchPhase::Idle,
            ),
            Err(_) => s,
        }),
{
    reveal_with_fuel(carry_start, 5);
}

/// A stop gives up the held handle whatever the operating system answers. It
/// fails exactly where a handle was held and the signal could not be sent or,
/// with the signal sent, the exit could not be confirmed.
pub proof fn stop_outcome(s: ManagerState, os: StopAnswers)
    ensures
        stop_run(s, os).0 == s.released(),
        stop_run(s, os).1 == (if s.held is None || (os.sent && os.confirmed) {
            Ok(())
        } else if !os.sent {
            Err(ControlError::StopFailed(StopStage::Signal))
        } else {
            Err(ControlError::StopFailed(StopStage::Wait))
        }),
{
    reveal_with_fuel(carry_stop, 3);
}

/// A restart is a full stop followed by a start, whether or not the stop
/// succeeded; its result is that of the start where the start succeeded, and
/// the first failure otherwise.
pub proof fn restart_is_stop_then_start(
    s: ManagerState,
    stopping: StopAnswers,
    starting: LaunchAnswers,
)
    ensures
        restart_run(s, stopping, starting) == ({
            let (stopped, first) = stop_run(s, stopping);
            let (started, second) = start_run(stopped, starting);
            (started, restart_result(first, second))
        }),
{
    reveal_with_fuel(carry_stop, 3);
    reveal_with_fuel(carry_start, 5);
    reveal_with_fuel(carry_restart, 9);
}

/// While the process of a successful start has not exited, a second start
/// fails with `AlreadyRunning` and leaves everything as it was: the process
/// that the first start spawned stays the held one.
pub proof fn second_start_is_rejected(s: ManagerState, first: LaunchAnswers, second: LaunchAnswers)
    requires
        s.phase == LaunchPhase::Idle,
        start_run(s, first).1 is Ok,
        second.probe != Liveness::Exited,
    ensures
        start_run(s, first).0.held == first.spawned,
        start_run(start_run(s, first).0, second) == (
            start_run(s, first).0,
            Err::<(), ControlError>(ControlError::AlreadyRunning),
        ),
{
    start_outcome(s, first);
    start_outcome(start_run(s, first).0, second);
}

/// While a start is in flight, every other start is rejected with
/// `AlreadyRunning` at its first step and changes nothing.
pub proof fn concurrent_start_is_rejected(s: ManagerState, os: LaunchAnswers)
    requires
        s.phase != LaunchPhase::Idle,
    ensures
        start_step(s, StartEvent::Requested) == (
            s,
            StartAction::Done(Err(ControlError::AlreadyRunning)),
        ),
        start_run(s, os) == (s, Err::<(), ControlError>(ControlError::AlreadyRunning)),
{
    reveal_with_fuel(carry_start, 5);
}

/// A stop with nothing held succeeds and changes nothing; so does every stop
/// that follows another.
pub proof fn stop_is_idempotent(s: ManagerState, first: StopAnswers, second: StopAnswers)
    ensures
        s.held is None ==> stop_run(s, first) == (s, Ok::<(), ControlError>(())),
        stop_run(stop_run(s, first).0, second) == (
            stop_run(s, first).0,
            Ok::<(), ControlError>(()),
        ),
{
    stop_outcome(s, first);
    stop_outcome(stop_run(s, first).0, second);
}

/// After a stop nothing runs, whatever a probe says. A start that then finds
/// its paths, is accepted by the operating system and survives the grace
/// period succeeds, and the process it spawned is the held one: another one
/// than before, where the operating system did not hand out the old
/// identifier again.
pub proof fn start_after_stop(
    s: ManagerState,
    stopping: StopAnswers,
    starting: LaunchAnswers,
    liveness: Liveness,
)
    requires
        s.phase == LaunchPhase::Idle,
        starting.found is Ok,
        starting.spawned is Some,
        starting.settled != Liveness::Exited,
        starting.spawned != s.held,
    ensures
        !status_of(stop_run(s, stopping).0, liveness).running,
        status_of(stop_run(s, stopping).0, liveness).pid is None,
        start_run(stop_run(s, stopping).0, starting).1 is Ok,
        start_run(stop_run(s, stopping).0, starting).0.held == starting.spawned,
        start_run(stop_run(s, stopping).0, starting).0.held != s.held,
{
    stop_outcome(s, stopping);
    start_outcome(stop_run(s, stopping).0, starting);
}

/// A restart whose start finds its paths, is accepted and survives the grace
/// period succeeds even where its stop failed, and ends with the newly
/// spawned process held: another one than before, where the operating system
/// did not hand out the old identifier again.
pub proof fn restart_replaces_process(
    s: ManagerState,
    stopping: StopAnswers,
    starting: LaunchAnswers,
)
    requires
        s.phase == LaunchPhase::Idle,
        starting.found is Ok,
        starting.spawned is Some,
        starting.settled != Liveness::Exited,
        starting.spawned != s.held,
    ensures
        restart_run(s, stopping, starting).1 is Ok,
        restart_run(s, stopping, starting).0.held == starting.spawned,
        restart_run(s, stopping, starting).0.held != s.held,
{
    restart_is_stop_then_start(s, stopping, starting);
    start_after_stop(s, stopping, starting, Liveness::Unknown);
}

/// Where nothing is running and the executable is not found, a start fails
/// with `NotFound` for the executable and leaves everything as it was, so
/// that nothing is running afterwards either.
pub proof fn missing_executable_fails_start(s: ManagerState, os: LaunchAnswers)
    requires
        s.phase == LaunchPhase::Idle,
        s.held is None || os.probe == Liveness::Exited,
        os.found == Err::<ProcessPaths, Artifact>(Artifact::Executable),
    ensures
        start_run(s, os) == (
            s,
            Err::<(), ControlError>(ControlError::NotFound(Artifact::Executable)),
        ),
        !status_of(start_run(s, os).0, os.probe).running,
{
    start_outcome(s, os);
}

/// No step of a start removes a process from the resource guard or changes
/// whether there is a guard, and the held process stays bound to it.
pub proof fn start_keeps_guard(s: ManagerState, event: StartEvent)
    requires
        s.wf(),
    ensures
        guard_kept(s, start_step(s, event).0),
        start_step(s, event).0.held != s.held ==> event is Spawned && start_step(
            s,
            event,
        ).0.held == event->Spawned_0,
{
}

/// No step of a stop touches the resource guard, and the only change to the
/// held handle is that it is given up.
pub proof fn stop_keeps_guard(s: ManagerState, event: StopEvent)
    requires
        s.wf(),
    ensures
        guard_kept(s, stop_step(s, event).0),
        stop_step(s, event).0.held == s.held || (event == StopEvent::Requested && stop_step(
            s,
            event,
        ).0.held is None),
{
}

/// No step of a restart removes a process from the resource guard or changes
/// whether there is a guard, and the held process stays bound to it.
pub proof fn restart_keeps_guard(s: ManagerState, run: Restart, event: RestartEvent)
    requires
        s.wf(),
    ensures
        guard_kept(s, restart_step(s, run, event).0),
{
}

/// `after` is well formed, has a guard exactly where `before` has one, and
/// its guard holds every process that the guard of `before` holds.
pub open spec fn guard_kept(before: ManagerState, after: ManagerState) -> bool {
    &&& after.wf()
    &&& after.guard is Some <==> before.guard is Some
    &&& before.guard is Some ==> before.guard.unwrap().subset_of(after.guard.unwrap())
}

} // verus!
