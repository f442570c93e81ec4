//! Clock servo decisions.
//!
//! A servo turns offset samples ([`ServoSample`]) into actions on a
//! [`SynchronizableClock`](crate::clock::SynchronizableClock) and reports a coarse
//! [`ServoState`] to the port state machine. This module holds the integer-valued decisions: the
//! stepping servo, and the step policy that decides when a sample warrants a discontinuous step.
use vstd::prelude::*;

use crate::clock::SynchronizableClock;
use crate::log::ClockMetrics;
use crate::time::{max_timestamp_nanos, TimeInterval, TimeStamp};

verus! {

/// Coarse lock state reported by a servo.
#[derive(Clone, Copy, Debug, PartialEq, Eq, Structural)]
pub enum ServoState {
    /// The servo has (recently) stepped the clock or has not started calibration yet.
    Unlocked,
    /// The servo is collecting baseline information before considering itself locked.
    Calibrating,
    /// The servo considers itself locked.
    Locked,
}

/// A timestamped offset measurement: `ingress` is the local reception time of the Sync, `offset`
/// the estimated `offsetFromMaster` at that time (positive when the local clock is ahead).
#[derive(Clone, Copy, Debug, PartialEq, Eq, Structural)]
pub struct ServoSample {
    pub ingress: TimeStamp,
    pub offset: TimeInterval,
}

/// The master time estimate of a sample (`ingress - offset`), when it is a valid timestamp.
pub open spec fn master_estimate_of(sample: ServoSample) -> Option<int> {
    let t = sample.ingress@ - sample.offset@;
    if 0 <= t <= max_timestamp_nanos() {
        Some(t)
    } else {
        None
    }
}

/// `|offset| > threshold`.
pub open spec fn beyond(sample: ServoSample, threshold: TimeInterval) -> bool {
    (if sample.offset@ < 0 {
        -sample.offset@
    } else {
        sample.offset@
    }) > threshold@
}

/// How a sample relates to an earlier one, for drift estimation.
#[derive(Clone, Copy, Debug, PartialEq, Eq, Structural)]
pub enum ServoSampleOrdering {
    /// Later by at least the minimum spacing: the change of offset over the change of ingress
    /// time, both in nanoseconds (their ratio is the drift).
    InOrder { delta_offset: i128, delta_ingress: i128 },
    /// Later, but by less than the minimum spacing.
    InOrderButLowDelta,
    /// Not later: the ingress time did not increase.
    OutOfOrder,
}

/// The ordering of `sample` after `earlier` with minimum spacing `min_delta`.
pub open spec fn sample_ordering(sample: ServoSample, earlier: ServoSample, min_delta: TimeInterval) -> ServoSampleOrdering {
    let delta_ingress = sample.ingress@ - earlier.ingress@;
    if delta_ingress <= 0 {
        ServoSampleOrdering::OutOfOrder
    } else if delta_ingress < min_delta@ {
        ServoSampleOrdering::InOrderButLowDelta
    } else {
        ServoSampleOrdering::InOrder {
            delta_offset: (sample.offset@ - earlier.offset@) as i128,
            delta_ingress: delta_ingress as i128,
        }
    }
}

impl ServoSample {
    /// A sample.
    pub fn new(ingress: TimeStamp, offset: TimeInterval) -> (s: ServoSample)
        ensures
            s == (ServoSample { ingress, offset }),
    {
        ServoSample { ingress, offset }
    }

    /// The master time estimate `ingress - offset`, or `None` when it is not a valid timestamp.
    pub fn master_estimate(&self) -> (ts: Option<TimeStamp>)
        ensures
            match master_estimate_of(*self) {
                Some(t) => ts matches Some(ts) && ts@ == t,
                None => ts is None,
            },
    {
        self.ingress.checked_sub(self.offset)
    }

    /// How this sample relates to the earlier sample `other`, with minimum spacing `min_delta`.
    pub fn drift(&self, other: &ServoSample, min_delta: TimeInterval) -> (o: ServoSampleOrdering)
        ensures
            o == sample_ordering(*self, *other, min_delta),
    {
        let delta_ingress = self.ingress.minus(&other.ingress);
        if delta_ingress.total_nanos() <= 0 {
            ServoSampleOrdering::OutOfOrder
        } else if delta_ingress.is_less_than(&min_delta) {
            ServoSampleOrdering::InOrderButLowDelta
        } else {
            let delta_offset = self.offset.total_nanos() - other.offset.total_nanos();
            ServoSampleOrdering::InOrder { delta_offset, delta_ingress: delta_ingress.total_nanos() }
        }
    }

    /// Report the offset to `metrics`.
    pub fn log<M: ClockMetrics>(&self, metrics: &M) {
        metrics.record_offset_from_master(self.offset);
    }

    /// `|offset| > threshold`.
    pub fn beyond_threshold(&self, threshold: TimeInterval) -> (b: bool)
        ensures
            b == beyond(*self, threshold),
    {
        threshold.is_less_than(&self.offset.abs())
    }
}

/// Threshold on the offset magnitude above which a step is taken.
#[derive(Clone, Copy, Debug, PartialEq, Eq, Structural)]
pub enum ServoThreshold {
    /// Threshold comparison is disabled.
    Disabled,
    /// Threshold comparison is enabled with the given limit.
    Enabled(TimeInterval),
}

/// `threshold` is enabled, positive, and exceeded by the sample's offset magnitude.
pub open spec fn exceeded(threshold: ServoThreshold, sample: ServoSample) -> bool {
    match threshold {
        ServoThreshold::Disabled => false,
        ServoThreshold::Enabled(t) => t@ > 0 && beyond(sample, t),
    }
}

impl ServoThreshold {
    /// Enable a step threshold.
    pub fn new(threshold: TimeInterval) -> (t: ServoThreshold)
        ensures
            t == ServoThreshold::Enabled(threshold),
    {
        ServoThreshold::Enabled(threshold)
    }

    /// Disable stepping on this threshold.
    pub fn disabled() -> (t: ServoThreshold)
        ensures
            t == ServoThreshold::Disabled,
    {
        ServoThreshold::Disabled
    }

    /// `true` if enabled, positive, and exceeded by `sample`'s offset magnitude.
    pub fn exceeded_by(&self, sample: &ServoSample) -> (b: bool)
        ensures
            b == exceeded(*self, *sample),
    {
        match self {
            ServoThreshold::Disabled => false,
            ServoThreshold::Enabled(t) => TimeInterval::zero().is_less_than(t)
                && sample.beyond_threshold(*t),
        }
    }
}

/// Whether a sample warrants a clock step, and to what time.
#[derive(Clone, Copy, Debug, PartialEq, Eq, Structural)]
pub enum ServoStepDecision {
    StepTo(TimeStamp),
    NoStep,
}

/// The step decision for a sample whose thresholds say `step`: to the master time estimate, if
/// it is a valid timestamp.
pub open spec fn step_decision(step: bool, sample: ServoSample, d: ServoStepDecision) -> bool {
    if step {
        match master_estimate_of(sample) {
            Some(t) => d matches ServoStepDecision::StepTo(ts) && ts@ == t,
            None => d == ServoStepDecision::NoStep,
        }
    } else {
        d == ServoStepDecision::NoStep
    }
}

/// When to step the clock: an initial threshold checked on the first sample only, and a steady
/// threshold checked on every sample.
pub struct StepPolicy {
    pub initial_threshold: Option<ServoThreshold>,
    pub threshold: ServoThreshold,
}

impl StepPolicy {
    /// A policy with an initial and a steady-state threshold.
    pub fn new(initial: ServoThreshold, threshold: ServoThreshold) -> (p: StepPolicy)
        ensures
            p.initial_threshold == Some(initial),
            p.threshold == threshold,
    {
        StepPolicy { initial_threshold: Some(initial), threshold }
    }

    /// Decide whether `sample` warrants a step: it does when the initial threshold (consumed by
    /// the first sample) or the steady threshold is exceeded; the step goes to the master time
    /// estimate, and is skipped when that estimate is not a valid timestamp.
    pub fn should_step(&mut self, sample: &ServoSample) -> (d: ServoStepDecision)
        ensures
            final(self).initial_threshold is None,
            final(self).threshold == old(self).threshold,
            step_decision(
                (match old(self).initial_threshold {
                    Some(t) => exceeded(t, *sample),
                    None => false,
                }) || exceeded(old(self).threshold, *sample),
                *sample,
                d,
            ),
    {
        let initial = self.initial_threshold.take();
        let initial_exceeded = match initial {
            Some(t) => t.exceeded_by(sample),
            None => false,
        };
        if initial_exceeded || self.threshold.exceeded_by(sample) {
            match sample.master_estimate() {
                Some(ts) => ServoStepDecision::StepTo(ts),
                None => ServoStepDecision::NoStep,
            }
        } else {
            ServoStepDecision::NoStep
        }
    }
}

/// A clock discipline strategy: consumes offset samples and acts on the clock (step or rate
/// adjustment).
///
/// Implemented here by [`SteppingServo`]; infrastructure provides rate-adjusting servos.
pub trait Servo {
    /// `s` is a state this servo can report after `sample`. A strategy may state which; by
    /// default any state is possible.
    open spec fn responds(&self, sample: ServoSample, s: ServoState) -> bool {
        true
    }

    /// Feed a sample, acting on `clock` as the strategy requires; the servo's coarse state after
    /// the sample.
    fn feed<C: SynchronizableClock>(&self, clock: &C, sample: ServoSample) -> (s: ServoState)
        ensures
            self.responds(sample, s),
    ;
}

/// The state of the stepping servo after `sample`: `Locked` when the master time estimate is a
/// valid timestamp (the clock is stepped to it), else `Unlocked`.
pub open spec fn stepping_state(sample: ServoSample) -> ServoState {
    if master_estimate_of(sample) is Some {
        ServoState::Locked
    } else {
        ServoState::Unlocked
    }
}

/// A servo that steps the clock to the master time estimate on every sample.
pub struct SteppingServo<M: ClockMetrics> {
    pub metrics: M,
}

impl<M: ClockMetrics> SteppingServo<M> {
    /// A stepping servo reporting offsets to `metrics`.
    pub fn new(metrics: M) -> (s: SteppingServo<M>)
        ensures
            s.metrics == metrics,
    {
        SteppingServo { metrics }
    }
}

impl<M: ClockMetrics> Servo for SteppingServo<M> {
    open spec fn responds(&self, sample: ServoSample, s: ServoState) -> bool {
        s == stepping_state(sample)
    }

    /// Step `clock` to the sample's master time estimate: `Locked` if the estimate is a valid
    /// timestamp, else `Unlocked` without touching the clock.
    fn feed<C: SynchronizableClock>(&self, clock: &C, sample: ServoSample) -> (s: ServoState)
        ensures
            master_estimate_of(sample) matches Some(t) ==> exists|ts: TimeStamp| ts@ == t && #[trigger] clock.stepped_to(ts),
    {
        sample.log(&self.metrics);
        match sample.master_estimate() {
            Some(ts) => {
                clock.step(ts);
                ServoState::Locked
            },
            None => ServoState::Unlocked,
        }
    }
}

} // verus!
