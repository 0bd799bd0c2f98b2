//! The flags of the orientation filter and what they decide per sample.
//!
//! An update runs in two halves around the caller's arithmetic. The first
//! half takes in whether the gyroscope is saturated and says what to do with
//! the ramped gain. The caller then moves the gain and judges the sensor
//! readings against the current estimate. The second half takes in those
//! judgements and says which gain and which feedback the update uses.

use vstd::prelude::*;
use crate::float_bits::{at_most, is_nan, magnitude, spec_at_most, spec_is_nan, spec_magnitude, SIGN_BIT};
use crate::recovery::{Reading, RecoveryGate};

verus! {

/// What the caller does with the ramped gain before an update.
#[derive(Clone, Copy, Debug, PartialEq, Eq, Structural)]
pub enum RampAction {
    /// Set the ramped gain back to its elevated starting value.
    Restart,
    /// Lower the ramped gain by one step.
    Advance,
    /// Leave the gain alone: the steady gain is in force.
    Hold,
}

/// The gain that scales the feedback of an update.
#[derive(Clone, Copy, Debug, PartialEq, Eq, Structural)]
pub enum GainSource {
    /// The elevated gain of the initialisation ramp.
    Ramped,
    /// The configured steady gain.
    Steady,
}

/// What an update uses.
#[derive(Clone, Copy, Debug, PartialEq, Eq, Structural)]
pub struct FeedbackPlan {
    pub gain: GainSource,
    pub use_accelerometer: bool,
    pub use_magnetometer: bool,
}

/// What the caller observes of one sample.
#[derive(Clone, Copy, Debug, PartialEq, Eq, Structural)]
pub struct SampleEvent {
    /// A gyroscope range is configured and some axis meets or exceeds it.
    pub gyroscope_saturated: bool,
    /// The ramped gain, after the ramp action, is no higher than the steady
    /// gain.
    pub gain_settled: bool,
    pub accelerometer: Reading,
    pub magnetometer: Reading,
}

/// Whether one axis of the angular rate meets or exceeds the gyroscope range
/// in magnitude. A range of zero, of either sign, switches the test off.
pub open spec fn spec_axis_saturated(range: u32, axis: u32) -> bool {
    spec_magnitude(range) != 0 && spec_at_most(range, spec_magnitude(axis))
}

/// Whether a sample saturates the gyroscope: a range is configured and some
/// axis meets or exceeds it.
pub open spec fn spec_gyroscope_saturated(range: u32, x: u32, y: u32, z: u32) -> bool {
    spec_axis_saturated(range, x) || spec_axis_saturated(range, y) || spec_axis_saturated(
        range,
        z,
    )
}

/// Judges from the bit patterns of the gyroscope range and of the three axes
/// of the angular rate whether the sample saturates the gyroscope.
pub fn gyroscope_saturated(range: u32, x: u32, y: u32, z: u32) -> (saturated: bool)
    ensures
        saturated == spec_gyroscope_saturated(range, x, y, z),
        range == 0 || range == SIGN_BIT || spec_is_nan(range) ==> !saturated,
{
    if magnitude(range) == 0 || is_nan(range) {
        false
    } else {
        at_most(range, magnitude(x)) || at_most(range, magnitude(y)) || at_most(
            range,
            magnitude(z),
        )
    }
}

/// Judges from the bit patterns of the ramped gain and of the steady gain
/// whether the ramp has come down to the steady gain.
pub fn gain_settled(ramped: u32, steady: u32) -> (settled: bool)
    ensures
        settled == spec_at_most(ramped, steady),
{
    at_most(ramped, steady)
}

/// The discrete state of the orientation filter.
#[derive(Clone, Copy, Debug, PartialEq, Eq, Structural)]
pub struct AhrsFlags {
    /// The ramped gain is in force.
    pub initialising: bool,
    /// The latest sample saturated the gyroscope.
    pub angular_rate_recovery: bool,
    pub accelerometer: RecoveryGate,
    pub magnetometer: RecoveryGate,
}

impl AhrsFlags {
    /// Both recovery triggers lie within their timeouts.
    pub open spec fn wf(self) -> bool {
        self.accelerometer.wf() && self.magnetometer.wf()
    }

    /// The ramp action for a sample: a saturated gyroscope restarts the ramp,
    /// otherwise the ramp advances while initialising.
    pub open spec fn ramp_action(self, gyroscope_saturated: bool) -> RampAction {
        if gyroscope_saturated {
            RampAction::Restart
        } else if self.initialising {
            RampAction::Advance
        } else {
            RampAction::Hold
        }
    }

    /// The flags after the first half of an update.
    pub open spec fn started(self, gyroscope_saturated: bool) -> AhrsFlags {
        AhrsFlags {
            initialising: self.initialising || gyroscope_saturated,
            angular_rate_recovery: gyroscope_saturated,
            ..self
        }
    }

    /// The flags after the second half of an update.
    pub open spec fn finished(
        self,
        gain_settled: bool,
        accelerometer: Reading,
        magnetometer: Reading,
    ) -> AhrsFlags {
        AhrsFlags {
            initialising: self.initialising && !gain_settled,
            angular_rate_recovery: self.angular_rate_recovery,
            accelerometer: self.accelerometer.next(accelerometer),
            magnetometer: self.magnetometer.next(magnetometer),
        }
    }

    /// What the update uses, as decided in its second half.
    pub open spec fn plan(
        self,
        gain_settled: bool,
        accelerometer: Reading,
        magnetometer: Reading,
    ) -> FeedbackPlan {
        FeedbackPlan {
            gain: if self.initialising && !gain_settled {
                GainSource::Ramped
            } else {
                GainSource::Steady
            },
            use_accelerometer: !self.accelerometer.ignores(accelerometer),
            use_magnetometer: !self.magnetometer.ignores(magnetometer),
        }
    }

    /// The flags after one whole update.
    pub open spec fn next(self, event: SampleEvent) -> AhrsFlags {
        self.started(event.gyroscope_saturated).finished(
            event.gain_settled,
            event.accelerometer,
            event.magnetometer,
        )
    }

    /// The gain that one whole update uses.
    pub open spec fn gain_used(self, event: SampleEvent) -> GainSource {
        self.started(event.gyroscope_saturated).plan(
            event.gain_settled,
            event.accelerometer,
            event.magnetometer,
        ).gain
    }

    /// The flags after the updates `events`, oldest first.
    pub open spec fn run(self, events: Seq<SampleEvent>) -> AhrsFlags
        decreases events.len(),
    {
        if events.len() == 0 {
            self
        } else {
            self.run(events.drop_last()).next(events.last())
        }
    }

    /// Flags at the start of fusion: initialising, nothing ignored, both
    /// triggers at zero with the timeout that the recovery trigger period
    /// gives.
    pub fn new(recovery_trigger_period: i32) -> (flags: AhrsFlags)
        ensures
            flags.initialising,
            !flags.angular_rate_recovery,
            flags.accelerometer == RecoveryGate::spec_new(recovery_trigger_period),
            flags.magnetometer == RecoveryGate::spec_new(recovery_trigger_period),
            flags.wf(),
    {
        AhrsFlags {
            initialising: true,
            angular_rate_recovery: false,
            accelerometer: RecoveryGate::new(recovery_trigger_period),
            magnetometer: RecoveryGate::new(recovery_trigger_period),
        }
    }

    /// First half of an update. Takes in whether the gyroscope is saturated
    /// and returns what to do with the ramped gain.
    pub fn start_sample(&mut self, gyroscope_saturated: bool) -> (ramp: RampAction)
        ensures
            *final(self) == old(self).started(gyroscope_saturated),
            ramp == old(self).ramp_action(gyroscope_saturated),
            final(self).angular_rate_recovery == gyroscope_saturated,
            old(self).wf() ==> final(self).wf(),
    {
        let ramp = if gyroscope_saturated {
            RampAction::Restart
        } else if self.initialising {
            RampAction::Advance
        } else {
            RampAction::Hold
        };
        self.angular_rate_recovery = gyroscope_saturated;
        if gyroscope_saturated {
            self.initialising = true;
        }
        ramp
    }

    /// Second half of an update. Takes in whether the ramped gain has come
    /// down to the steady gain and how each sensor's reading stands against
    /// the estimate, and returns which gain and which feedback to use.
    pub fn finish_sample(
        &mut self,
        gain_settled: bool,
        accelerometer: Reading,
        magnetometer: Reading,
    ) -> (plan: FeedbackPlan)
        ensures
            *final(self) == old(self).finished(gain_settled, accelerometer, magnetometer),
            plan == old(self).plan(gain_settled, accelerometer, magnetometer),
            (plan.gain == GainSource::Steady) == !final(self).initialising,
            plan.use_accelerometer == !final(self).accelerometer.ignored,
            plan.use_magnetometer == !final(self).magnetometer.ignored,
            old(self).wf() ==> final(self).wf(),
    {
        if gain_settled {
            self.initialising = false;
        }
        let use_accelerometer = self.accelerometer.step(accelerometer);
        let use_magnetometer = self.magnetometer.step(magnetometer);
        let gain = if self.initialising {
            GainSource::Ramped
        } else {
            GainSource::Steady
        };
        FeedbackPlan { gain, use_accelerometer, use_magnetometer }
    }

    /// Whether the ramped gain is in force.
    pub fn initialising(&self) -> (flag: bool)
        ensures
            flag == self.initialising,
    {
        self.initialising
    }

    /// Whether the latest sample saturated the gyroscope.
    pub fn angular_rate_recovery(&self) -> (flag: bool)
        ensures
            flag == self.angular_rate_recovery,
    {
        self.angular_rate_recovery
    }

    /// Whether the latest accelerometer feedback was left out.
    pub fn accelerometer_ignored(&self) -> (flag: bool)
        ensures
            flag == self.accelerometer.ignored,
    {
        self.accelerometer.ignored
    }

    /// Whether the latest magnetometer feedback was left out.
    pub fn magnetometer_ignored(&self) -> (flag: bool)
        ensures
            flag == self.magnetometer.ignored,
    {
        self.magnetometer.ignored
    }

    /// Whatever the samples, both recovery triggers stay between zero and
    /// their timeouts, and the timeouts stay what they were.
    pub proof fn lemma_triggers_bounded(self, events: Seq<SampleEvent>)
        requires
            self.wf(),
        ensures
            self.run(events).wf(),
            self.run(events).accelerometer.timeout == self.accelerometer.timeout,
            self.run(events).magnetometer.timeout == self.magnetometer.timeout,
        decreases events.len(),
    {
        if events.len() > 0 {
            self.lemma_triggers_bounded(events.drop_last());
        }
    }

    /// The steady gain is used exactly when initialisation is over after the
    /// update, which it is as soon as the ramped gain has settled. The ramp
    /// restarts only on a sample that saturates the gyroscope, and the
    /// recovery flag marks exactly those samples.
    pub proof fn lemma_gain_follows_phase(self, event: SampleEvent)
        ensures
            (self.gain_used(event) == GainSource::Steady) == !self.next(event).initialising,
            event.gain_settled ==> !self.next(event).initialising,
            (self.ramp_action(event.gyroscope_saturated) == RampAction::Restart)
                == event.gyroscope_saturated,
            self.next(event).angular_rate_recovery == event.gyroscope_saturated,
    {
    }

    /// The gain never steps back up on its own: once initialisation is over
    /// it stays over, and the steady gain stays in force, for as long as no
    /// sample saturates the gyroscope.
    pub proof fn lemma_steady_stays(self, events: Seq<SampleEvent>)
        requires
            !self.initialising,
            forall|i: int| 0 <= i < events.len() ==> !(#[trigger] events[i]).gyroscope_saturated,
        ensures
            !self.run(events).initialising,
            !self.run(events).angular_rate_recovery || events.len() == 0,
            events.len() > 0 ==> self.run(events.drop_last()).gain_used(events.last())
                == GainSource::Steady,
        decreases events.len(),
    {
        if events.len() > 0 {
            let before = events.drop_last();
            assert forall|i: int| 0 <= i < before.len() implies !(#[trigger] before[i]).gyroscope_saturated by {
                assert(before[i] == events[i]);
            }
            self.lemma_steady_stays(before);
            assert(events.last() == events[events.len() - 1]);
        }
    }

    /// A sensor whose readings are all absent contributes no feedback: with
    /// no accelerometer and no magnetometer the estimate follows the
    /// gyroscope alone.
    pub proof fn lemma_absent_sensors_unused(self, event: SampleEvent)
        requires
            event.accelerometer == Reading::Absent,
            event.magnetometer == Reading::Absent,
        ensures
            !self.started(event.gyroscope_saturated).plan(
                event.gain_settled,
                event.accelerometer,
                event.magnetometer,
            ).use_accelerometer,
            !self.started(event.gyroscope_saturated).plan(
                event.gain_settled,
                event.accelerometer,
                event.magnetometer,
            ).use_magnetometer,
            self.next(event).accelerometer.trigger == self.accelerometer.trigger,
            self.next(event).magnetometer.trigger == self.magnetometer.trigger,
    {
    }
}

} // verus!
