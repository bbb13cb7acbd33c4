//! The status watcher: it samples the supervisor at a fixed interval and
//! reports each change between running and stopped, once.

use vstd::prelude::*;
use crate::error::ControlError;
use crate::platform::Platform;
use crate::supervisor::{status_of, KanataManager, Liveness, ManagerState};

verus! {

/// Milliseconds between two samples.
pub const POLL_INTERVAL_MS: u64 = 2000;

/// The name of the event that carries a change to the subscribers.
pub const STATUS_EVENT: &'static str = "kanata-status-changed";

/// What the watcher takes a sample to say: running only where the supervisor
/// reports so and the probe itself did not fail.
pub open spec fn sample_of(s: ManagerState, liveness: Liveness) -> bool {
    status_of(s, liveness).running && liveness != Liveness::Unknown
}

/// What is reported for the sample `running` after the sample `last`: the new
/// value where it differs from the one before, and nothing for the first
/// sample.
pub open spec fn notification(last: Option<bool>, running: bool) -> Option<bool> {
    match last {
        Some(before) => if before != running {
            Some(running)
        } else {
            None
        },
        None => None,
    }
}

/// Everything that is reported while the samples `samples` come in, one after
/// the other, behind the sample `last`.
pub open spec fn notifications(last: Option<bool>, samples: Seq<bool>) -> Seq<bool>
    decreases samples.len(),
{
    if samples.len() == 0 {
        Seq::empty()
    } else {
        let rest = notifications(Some(samples[0]), samples.drop_first());
        match notification(last, samples[0]) {
            Some(change) => seq![change] + rest,
            None => rest,
        }
    }
}

/// The watcher's memory: the sample before this one.
#[derive(Clone, Copy, Debug, PartialEq, Eq)]
pub struct StatusWatcher {
    last: Option<bool>,
}

impl StatusWatcher {
    /// The last sample, if there has been one.
    pub closed spec fn view(&self) -> Option<bool> {
        self.last
    }

    /// A watcher that has not sampled yet.
    pub fn new() -> (watcher: Self)
        ensures
            watcher@ is None,
    {
        StatusWatcher { last: None }
    }

    /// Takes in the sample `running` and says what to report for it.
    pub fn observe(&mut self, running: bool) -> (change: Option<bool>)
        ensures
            final(self)@ == Some(running),
            change == notification(old(self)@, running),
    {
        let change = match self.last {
            Some(before) => if before != running {
                Some(running)
            } else {
                None
            },
            None => None,
        };
        self.last = Some(running);
        change
    }

    /// Samples `manager`, whose held process the caller has just probed, and
    /// says what to report. The supervisor is only read.
    pub fn poll(&mut self, manager: &KanataManager, liveness: Liveness) -> (change: Option<bool>)
        ensures
            final(self)@ == Some(sample_of(manager@, liveness)),
            change == notification(old(self)@, sample_of(manager@, liveness)),
    {
        let status = manager.status(liveness);
        let running = status.running && !matches!(liveness, Liveness::Unknown);
        self.observe(running)
    }
}

/// There is at most one report per sample and none for the first sample
/// ever taken; while the samples stay at `level`, where the sample before
/// them stood too, nothing is reported.
pub proof fn reports_follow_changes(last: Option<bool>, samples: Seq<bool>, level: bool)
    ensures
        notifications(last, samples).len() <= samples.len(),
        last is None && samples.len() > 0 ==> notifications(last, samples) == notifications(
            Some(samples[0]),
            samples.drop_first(),
        ),
        (last is None || last == Some(level)) && (forall|i: int|
            0 <= i < samples.len() ==> samples[i] == level) ==> notifications(last, samples).len()
            == 0,
    decreases samples.len(),
{
    if samples.len() > 0 {
        reports_follow_changes(Some(samples[0]), samples.drop_first(), level);
    }
}

/// A sample that differs from the one before it is reported, with its value,
/// ahead of everything that later samples give rise to.
pub proof fn change_is_reported(before: bool, samples: Seq<bool>)
    requires
        samples.len() > 0,
        samples[0] != before,
    ensures
        notifications(Some(before), samples) == seq![samples[0]] + notifications(
            Some(samples[0]),
            samples.drop_first(),
        ),
{
}

/// What the application does when it comes up, apart from starting the
/// helper.
#[derive(Clone, Copy, Debug, PartialEq, Eq)]
pub struct Setup {
    /// Offer to set up the input-device permission.
    pub offer_permission_setup: bool,
    /// Warn that window switching does not work under Wayland.
    pub warn_wayland: bool,
    /// The watcher to run from now on.
    pub watcher: StatusWatcher,
    /// Milliseconds between two samples of the watcher.
    pub poll_ms: u64,
}

/// Plans the application's start-up from the result of the first start.
///
/// The permission setup is offered where the start failed on Linux and the
/// input device cannot be written to; the Wayland warning is shown on Linux
/// under a Wayland session.
pub fn setup(
    started: Result<(), ControlError>,
    platform: Platform,
    input_device_writable: bool,
    wayland: bool,
) -> (plan: Setup)
    ensures
        plan.offer_permission_setup == (started is Err && platform == Platform::Linux
            && !input_device_writable),
        plan.warn_wayland == (platform == Platform::Linux && wayland),
        plan.watcher@ is None,
        plan.poll_ms == POLL_INTERVAL_MS,
{
    let linux = matches!(platform, Platform::Linux);
    Setup {
        offer_permission_setup: started.is_err() && linux && !input_device_writable,
        warn_wayland: linux && wayland,
        watcher: StatusWatcher::new(),
        poll_ms: POLL_INTERVAL_MS,
    }
}

} // verus!
