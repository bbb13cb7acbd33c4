//! The process supervisor: the single owner of the helper process's handle.
//!
//! Spawning, signalling, waiting and sleeping are slow and belong to the
//! caller. The supervisor decides: each method takes what the caller has just
//! observed and answers with the next thing to do. Every call is one short
//! critical section, so a caller that keeps the manager behind a lock holds
//! that lock only while a decision is made.

use vstd::prelude::*;
use crate::error::{Artifact, ControlError, StopStage};
use crate::guard::JobObject;

verus! {

/// Milliseconds between a spawn and the probe that tells a started process
/// from one that exited at once.
pub const GRACE_PERIOD_MS: u64 = 500;

/// Milliseconds between the stop and the start of a restart, so that the
/// operating system can release what the old process held.
pub const RESTART_DELAY_MS: u64 = 500;

/// What a non-blocking probe of a process reports.
#[derive(Clone, Copy, Debug, PartialEq, Eq, Structural)]
pub enum Liveness {
    /// The operating system confirms that the process is alive.
    Alive,
    /// The operating system reports that the process has exited.
    Exited,
    /// The probe itself failed.
    Unknown,
}

/// A point-in-time reading of the supervised process.
#[derive(Clone, Copy, Debug, PartialEq, Eq, Structural)]
pub struct KanataStatus {
    pub running: bool,
    pub pid: Option<u32>,
}

/// The executable and its configuration file, as resolved for one start.
#[derive(Clone, Debug, PartialEq, Eq)]
pub struct ProcessPaths {
    pub executable: String,
    pub config: String,
}

/// How far a start that is in flight has come.
#[derive(Clone, Copy, Debug, PartialEq, Eq, Structural)]
pub enum LaunchPhase {
    /// No start is in flight.
    Idle,
    /// Waiting for the probe of the handle that is still held.
    Probing(u32),
    /// Waiting for the paths.
    Resolving,
    /// Waiting for the operating system's answer to the spawn.
    Spawning,
    /// The new handle is stored; waiting for the probe after the grace period.
    Settling(u32),
}

/// What the caller reports to `start`.
#[derive(Debug, PartialEq, Eq)]
pub enum StartEvent {
    /// A start is asked for.
    Requested,
    /// The held process was probed.
    Probed(Liveness),
    /// Both paths were searched for; `Err` names the first one missing.
    Resolved(Result<ProcessPaths, Artifact>),
    /// The spawn returned: the new process identifier, or nothing where the
    /// operating system refused.
    Spawned(Option<u32>),
    /// The grace period is over and the new process was probed.
    Settled(Liveness),
}

/// What `start` asks the caller to do next.
#[derive(Debug, PartialEq, Eq)]
pub enum StartAction {
    /// Probe the process `pid` without blocking, then report `Probed`.
    Probe { pid: u32 },
    /// Search for the executable and the configuration, then report `Resolved`.
    Resolve,
    /// Spawn the executable with its configuration, then report `Spawned`.
    Spawn { paths: ProcessPaths },
    /// The process `pid` is now the held one. Release the handle of
    /// `replaced`, bind `pid` to the resource guard if `register` is set,
    /// sleep `grace_ms`, probe `pid`, then report `Settled`.
    Settle { pid: u32, replaced: Option<u32>, register: bool, grace_ms: u64 },
    /// The start is over, with this result.
    Done(Result<(), ControlError>),
    /// The event answers nothing that was asked for; nothing has changed.
    Ignored,
}

/// What the caller reports to `stop`.
#[derive(Clone, Copy, Debug, PartialEq, Eq, Structural)]
pub enum StopEvent {
    /// A stop is asked for.
    Requested,
    /// The termination signal for `pid` was sent (`sent`), or could not be.
    Signalled { pid: u32, sent: bool },
    /// The wait for the exit of the process returned, with or without
    /// confirmation.
    Reaped { confirmed: bool },
}

/// What `stop` asks the caller to do next.
#[derive(Clone, Copy, Debug, PartialEq, Eq)]
pub enum StopAction {
    /// Send the termination signal to `pid`, then report `Signalled`.
    Signal { pid: u32 },
    /// Block until `pid` has exited, then report `Reaped`.
    AwaitExit { pid: u32 },
    /// The stop is over, with this result.
    Done(Result<(), ControlError>),
}

/// How far a restart has come.
#[derive(Clone, Copy, Debug, PartialEq, Eq, Structural)]
pub enum RestartStage {
    /// Not asked for yet.
    Pending,
    /// The stop is in flight.
    Stopping,
    /// The stop is over; the delay has not passed yet.
    Waiting,
    /// The start is in flight.
    Starting,
    /// The restart is over.
    Finished,
}

/// One restart in flight: where it stands, and how its stop ended.
#[derive(Clone, Copy, Debug, PartialEq, Eq)]
pub struct Restart {
    pub stage: RestartStage,
    pub stopped: Result<(), ControlError>,
}

/// What the caller reports to `restart`.
#[derive(Debug, PartialEq, Eq)]
pub enum RestartEvent {
    /// A restart is asked for.
    Requested,
    /// An answer to the stop in flight.
    Stop(StopEvent),
    /// The delay between stop and start has passed.
    Delayed,
    /// An answer to the start in flight.
    Start(StartEvent),
}

/// What `restart` asks the caller to do next.
#[derive(Debug, PartialEq, Eq)]
pub enum RestartAction {
    /// Do this for the stop, then report `Stop`.
    Stop(StopAction),
    /// Sleep `ms`, then report `Delayed`.
    Delay { ms: u64 },
    /// Do this for the start, then report `Start`.
    Start(StartAction),
    /// The restart is over, with this result.
    Done(Result<(), ControlError>),
    /// The event answers nothing that was asked for; nothing has changed.
    Ignored,
}

/// The supervisor as the contracts see it.
pub struct ManagerState {
    /// The identifier of the held handle, if one is held.
    pub held: Option<u32>,
    /// The start in flight, if any.
    pub phase: LaunchPhase,
    /// The processes bound to the resource guard, where there is a guard.
    pub guard: Option<Set<u32>>,
}

impl ManagerState {
    /// A held process is bound to the guard, where there is one.
    pub open spec fn wf(self) -> bool {
        self.guard is Some && self.held is Some ==> self.guard.unwrap().contains(
            self.held.unwrap(),
        )
    }

    /// This state with another phase.
    pub open spec fn with_phase(self, phase: LaunchPhase) -> ManagerState {
        ManagerState { phase, ..self }
    }

    /// This state after `pid` became the held process.
    pub open spec fn storing(self, pid: u32) -> ManagerState {
        ManagerState {
            held: Some(pid),
            phase: LaunchPhase::Settling(pid),
            guard: match self.guard {
                Some(members) => Some(members.insert(pid)),
                None => None,
            },
        }
    }

    /// This state after the held handle was given up.
    pub open spec fn released(self) -> ManagerState {
        ManagerState { held: None, ..self }
    }
}

/// The state after `event` reached a manager in state `s`, and the answer.
pub open spec fn start_step(s: ManagerState, event: StartEvent) -> (ManagerState, StartAction) {
    match event {
        StartEvent::Requested => match s.phase {
            LaunchPhase::Idle => match s.held {
                Some(pid) => (
                    s.with_phase(LaunchPhase::Probing(pid)),
                    StartAction::Probe { pid },
                ),
                None => (s.with_phase(LaunchPhase::Resolving), StartAction::Resolve),
            },
            _ => (s, StartAction::Done(Err(ControlError::AlreadyRunning))),
        },
        StartEvent::Probed(liveness) => match s.phase {
            LaunchPhase::Probing(_) => if liveness == Liveness::Exited {
                (s.with_phase(LaunchPhase::Resolving), StartAction::Resolve)
            } else {
                (
                    s.with_phase(LaunchPhase::Idle),
                    StartAction::Done(Err(ControlError::AlreadyRunning)),
                )
            },
            _ => (s, StartAction::Ignored),
        },
        StartEvent::Resolved(found) => match s.phase {
            LaunchPhase::Resolving => match found {
                Ok(paths) => (s.with_phase(LaunchPhase::Spawning), StartAction::Spawn { paths }),
                Err(missing) => (
                    s.with_phase(LaunchPhase::Idle),
                    StartAction::Done(Err(ControlError::NotFound(missing))),
                ),
            },
            _ => (s, StartAction::Ignored),
        },
        StartEvent::Spawned(outcome) => match s.phase {
            LaunchPhase::Spawning => match outcome {
                Some(pid) => (
                    s.storing(pid),
                    StartAction::Settle {
                        pid,
                        replaced: s.held,
                        register: s.guard is Some,
                        grace_ms: GRACE_PERIOD_MS,
                    },
                ),
                None => (
                    s.with_phase(LaunchPhase::Idle),
                    StartAction::Done(Err(ControlError::LaunchFailed)),
                ),
            },
            _ => (s, StartAction::Ignored),
        },
        StartEvent::Settled(liveness) => match s.phase {
            LaunchPhase::Settling(_) => (
                s.with_phase(LaunchPhase::Idle),
                StartAction::Done(
                    if liveness == Liveness::Exited {
                        Err(ControlError::EarlyExit)
                    } else {
                        Ok(())
                    },
                ),
            ),
            _ => (s, StartAction::Ignored),
        },
    }
}

/// The state after `event` reached a manager in state `s`, and the answer.
pub open spec fn stop_step(s: ManagerState, event: StopEvent) -> (ManagerState, StopAction) {
    match event {
        StopEvent::Requested => match s.held {
            Some(pid) => (s.released(), StopAction::Signal { pid }),
            None => (s, StopAction::Done(Ok(()))),
        },
        StopEvent::Signalled { pid, sent } => (
            s,
            if sent {
                StopAction::AwaitExit { pid }
            } else {
                StopAction::Done(Err(ControlError::StopFailed(StopStage::Signal)))
            },
        ),
        StopEvent::Reaped { confirmed } => (
            s,
            StopAction::Done(
                if confirmed {
                    Ok(())
                } else {
                    Err(ControlError::StopFailed(StopStage::Wait))
                },
            ),
        ),
    }
}

/// The result of a restart whose stop ended with `stopped` and whose start
/// ended with `started`: a start that succeeds makes up for a stop that
/// failed; otherwise the first failure is reported.
pub open spec fn restart_result(
    stopped: Result<(), ControlError>,
    started: Result<(), ControlError>,
) -> Result<(), ControlError> {
    match started {
        Ok(_) => Ok(()),
        Err(e) => match stopped {
            Ok(_) => Err(e),
            Err(first) => Err(first),
        },
    }
}

/// Where a restart stands once its stop has answered with `action`.
pub open spec fn after_stop(
    s: ManagerState,
    run: Restart,
    action: StopAction,
) -> (ManagerState, Restart, RestartAction) {
    match action {
        StopAction::Done(stopped) => (
            s,
            Restart { stage: RestartStage::Waiting, stopped },
            RestartAction::Delay { ms: RESTART_DELAY_MS },
        ),
        _ => (s, Restart { stage: RestartStage::Stopping, ..run }, RestartAction::Stop(action)),
    }
}

/// Where a restart stands once its start has answered with `action`.
pub open spec fn after_start(
    s: ManagerState,
    run: Restart,
    action: StartAction,
) -> (ManagerState, Restart, RestartAction) {
    match action {
        StartAction::Done(started) => (
            s,
            Restart { stage: RestartStage::Finished, ..run },
            RestartAction::Done(restart_result(run.stopped, started)),
        ),
        _ => (s, Restart { stage: RestartStage::Starting, ..run }, RestartAction::Start(action)),
    }
}

/// The state and the restart after `event` reached them, and the answer.
pub open spec fn restart_step(s: ManagerState, run: Restart, event: RestartEvent) -> (
    ManagerState,
    Restart,
    RestartAction,
) {
    match event {
        RestartEvent::Requested => if run.stage == RestartStage::Pending {
            let (next, action) = stop_step(s, StopEvent::Requested);
            after_stop(next, run, action)
        } else {
            (s, run, RestartAction::Ignored)
        },
        RestartEvent::Stop(answer) => if run.stage == RestartStage::Stopping && answer
            != StopEvent::Requested {
            let (next, action) = stop_step(s, answer);
            after_stop(next, run, action)
        } else {
            (s, run, RestartAction::Ignored)
        },
        RestartEvent::Delayed => if run.stage == RestartStage::Waiting {
            let (next, action) = start_step(s, StartEvent::Requested);
            after_start(next, run, action)
        } else {
            (s, run, RestartAction::Ignored)
        },
        RestartEvent::Start(answer) => if run.stage == RestartStage::Starting && answer
            != StartEvent::Requested {
            let (next, action) = start_step(s, answer);
            after_start(next, run, action)
        } else {
            (s, run, RestartAction::Ignored)
        },
    }
}

/// The status that a manager in state `s` reports when the probe of its held
/// process gave `liveness`.
pub open spec fn status_of(s: ManagerState, liveness: Liveness) -> KanataStatus {
    match s.held {
        Some(pid) => KanataStatus { running: liveness != Liveness::Exited, pid: Some(pid) },
        None => KanataStatus { running: false, pid: None },
    }
}

/// The supervisor of the one helper process.
#[derive(Debug)]
pub struct KanataManager {
    child: Option<u32>,
    phase: LaunchPhase,
    job: Option<JobObject>,
}

impl KanataManager {
    /// The manager as the contracts see it.
    pub closed spec fn view(&self) -> ManagerState {
        ManagerState {
            held: self.child,
            phase: self.phase,
            guard: match self.job {
                Some(job) => Some(job@),
                None => None,
            },
        }
    }

    /// A manager that holds nothing, with the resource guard `job` where the
    /// platform has one.
    pub fn new(job: Option<JobObject>) -> (manager: Self)
        ensures
            manager@.held is None,
            manager@.phase == LaunchPhase::Idle,
            manager@.guard == match job {
                Some(j) => Some(j@),
                None => None,
            },
            manager@.wf(),
    {
        KanataManager { child: None, phase: LaunchPhase::Idle, job }
    }

    /// The identifier of the held handle: the process to probe before
    /// `status` is asked.
    pub fn held(&self) -> (pid: Option<u32>)
        ensures
            pid == self@.held,
    {
        self.child
    }

    /// Whether a start is in flight.
    pub fn launching(&self) -> (busy: bool)
        ensures
            busy == (self@.phase != LaunchPhase::Idle),
    {
        !matches!(self.phase, LaunchPhase::Idle)
    }

    /// Whether `pid` is bound to the resource guard.
    pub fn guards(&self, pid: u32) -> (bound: bool)
        ensures
            bound == (self@.guard is Some && self@.guard.unwrap().contains(pid)),
    {
        match &self.job {
            Some(job) => job.tracks(pid),
            None => false,
        }
    }

    /// Takes one step of a start.
    ///
    /// A start is rejected with `AlreadyRunning` while another is in flight,
    /// and while the held process is not known to have exited. The held
    /// handle is replaced at one point only: when the spawn has succeeded.
    pub fn start(&mut self, event: StartEvent) -> (action: StartAction)
        ensures
            (final(self)@, action) == start_step(old(self)@, event),
            old(self)@.wf() ==> final(self)@.wf(),
    {
        match event {
            StartEvent::Requested => match self.phase {
                LaunchPhase::Idle => match self.child {
                    Some(pid) => {
                        self.phase = LaunchPhase::Probing(pid);
                        StartAction::Probe { pid }
                    },
                    None => {
                        self.phase = LaunchPhase::Resolving;
                        StartAction::Resolve
                    },
                },
                _ => StartAction::Done(Err(ControlError::AlreadyRunning)),
            },
            StartEvent::Probed(liveness) => match self.phase {
                LaunchPhase::Probing(_) => match liveness {
                    Liveness::Exited => {
                        self.phase = LaunchPhase::Resolving;
                        StartAction::Resolve
                    },
                    _ => {
                        self.phase = LaunchPhase::Idle;
                        StartAction::Done(Err(ControlError::AlreadyRunning))
                    },
                },
                _ => StartAction::Ignored,
            },
            StartEvent::Resolved(found) => match self.phase {
                LaunchPhase::Resolving => match found {
                    Ok(paths) => {
                        self.phase = LaunchPhase::Spawning;
                        StartAction::Spawn { paths }
                    },
                    Err(missing) => {
                        self.phase = LaunchPhase::Idle;
                        StartAction::Done(Err(ControlError::NotFound(missing)))
                    },
                },
                _ => StartAction::Ignored,
            },
            StartEvent::Spawned(outcome) => match self.phase {
                LaunchPhase::Spawning => match outcome {
                    Some(pid) => {
                        let replaced = self.child;
                        let register = self.bind(pid);
                        self.child = Some(pid);
                        self.phase = LaunchPhase::Settling(pid);
                        StartAction::Settle { pid, replaced, register, grace_ms: GRACE_PERIOD_MS }
                    },
                    None => {
                        self.phase = LaunchPhase::Idle;
                        StartAction::Done(Err(ControlError::LaunchFailed))
                    },
                },
                _ => StartAction::Ignored,
            },
            StartEvent::Settled(liveness) => match self.phase {
                LaunchPhase::Settling(_) => {
                    self.phase = LaunchPhase::Idle;
                    match liveness {
                        Liveness::Exited => StartAction::Done(Err(ControlError::EarlyExit)),
                        _ => StartAction::Done(Ok(())),
                    }
                },
                _ => StartAction::Ignored,
            },
        }
    }

    /// Records `pid` with the resource guard, where there is one.
    fn bind(&mut self, pid: u32) -> (register: bool)
        ensures
            register == (old(self)@.guard is Some),
            final(self)@.held == old(self)@.held,
            final(self)@.phase == old(self)@.phase,
            final(self)@.guard == match old(self)@.guard {
                Some(members) => Some(members.insert(pid)),
                None => None,
            },
    {
        match &mut self.job {
            Some(job) => {
                job.assign(pid);
                true
            },
            None => false,
        }
    }

    /// Takes one step of a stop.
    ///
    /// The held handle is given up as soon as the stop is asked for, whatever
    /// becomes of the signal and the wait. With nothing held the stop succeeds
    /// at once.
    pub fn stop(&mut self, event: StopEvent) -> (action: StopAction)
        ensures
            (final(self)@, action) == stop_step(old(self)@, event),
            old(self)@.wf() ==> final(self)@.wf(),
    {
        match event {
            StopEvent::Requested => match self.child {
                Some(pid) => {
                    self.child = None;
                    StopAction::Signal { pid }
                },
                None => StopAction::Done(Ok(())),
            },
            StopEvent::Signalled { pid, sent } => if sent {
                StopAction::AwaitExit { pid }
            } else {
                StopAction::Done(Err(ControlError::StopFailed(StopStage::Signal)))
            },
            StopEvent::Reaped { confirmed } => if confirmed {
                StopAction::Done(Ok(()))
            } else {
                StopAction::Done(Err(ControlError::StopFailed(StopStage::Wait)))
            },
        }
    }

    /// The status, given what the probe of the held process reported.
    ///
    /// A held process counts as running unless the operating system reports
    /// its exit. Nothing is changed: a handle whose process has exited stays held until
    /// a start or a stop consumes it. With nothing held, `liveness` is not
    /// looked at.
    pub fn status(&self, liveness: Liveness) -> (status: KanataStatus)
        ensures
            status == status_of(self@, liveness),
    {
        match self.child {
            Some(pid) => KanataStatus {
                running: !matches!(liveness, Liveness::Exited),
                pid: Some(pid),
            },
            None => KanataStatus { running: false, pid: None },
        }
    }
}

impl Restart {
    /// A restart that has not been asked for yet.
    pub fn new() -> (run: Self)
        ensures
            run == (Restart { stage: RestartStage::Pending, stopped: Ok(()) }),
    {
        Restart { stage: RestartStage::Pending, stopped: Ok(()) }
    }
}

impl KanataManager {
    /// Takes one step of the restart `run`: a full stop, the delay, then a
    /// start.
    ///
    /// The start is attempted whether or not the stop succeeded.
    pub fn restart(&mut self, run: &mut Restart, event: RestartEvent) -> (action: RestartAction)
        ensures
            (final(self)@, *final(run), action) == restart_step(old(self)@, *old(run), event),
            old(self)@.wf() ==> final(self)@.wf(),
    {
        match event {
            RestartEvent::Requested => match run.stage {
                RestartStage::Pending => {
                    let answer = self.stop(StopEvent::Requested);
                    Self::stopped_with(run, answer)
                },
                _ => RestartAction::Ignored,
            },
            RestartEvent::Stop(answer) => match (run.stage, answer) {
                (RestartStage::Stopping, StopEvent::Requested) => RestartAction::Ignored,
                (RestartStage::Stopping, _) => {
                    let answer = self.stop(answer);
                    Self::stopped_with(run, answer)
                },
                _ => RestartAction::Ignored,
            },
            RestartEvent::Delayed => match run.stage {
                RestartStage::Waiting => {
                    let answer = self.start(StartEvent::Requested);
                    Self::started_with(run, answer)
                },
                _ => RestartAction::Ignored,
            },
            RestartEvent::Start(answer) => match (run.stage, answer) {
                (RestartStage::Starting, StartEvent::Requested) => RestartAction::Ignored,
                (RestartStage::Starting, answer) => {
                    let answer = self.start(answer);
                    Self::started_with(run, answer)
                },
                _ => RestartAction::Ignored,
            },
        }
    }

    /// Moves the restart on once its stop has answered.
    fn stopped_with(run: &mut Restart, answer: StopAction) -> (action: RestartAction)
        ensures
            forall|s: ManagerState| after_stop(s, *old(run), answer) == (s, *final(run), action),
    {
        match answer {
            StopAction::Done(stopped) => {
                run.stage = RestartStage::Waiting;
                run.stopped = stopped;
                RestartAction::Delay { ms: RESTART_DELAY_MS }
            },
            _ => {
                run.stage = RestartStage::Stopping;
                RestartAction::Stop(answer)
            },
        }
    }

    /// Moves the restart on once its start has answered.
    fn started_with(run: &mut Restart, answer: StartAction) -> (action: RestartAction)
        ensures
            forall|s: ManagerState| after_start(s, *old(run), answer) == (s, *final(run), action),
    {
        match answer {
            StartAction::Done(started) => {
                run.stage = RestartStage::Finished;
                let result = match started {
                    Ok(_) => Ok(()),
                    Err(e) => match run.stopped {
                        Ok(_) => Err(e),
                        Err(first) => Err(first),
                    },
                };
                RestartAction::Done(result)
            },
            _ => {
                run.stage = RestartStage::Starting;
                RestartAction::Start(answer)
            },
        }
    }
}

} // verus!
