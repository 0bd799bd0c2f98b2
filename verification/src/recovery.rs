//! Rejection of a sensor's feedback, and recovery from sustained rejection.
//!
//! The accelerometer and the magnetometer each correct the orientation
//! estimate. A reading whose error against the estimate exceeds the sensor's
//! rejection angle is ignored. A trigger counts ignored samples up and
//! accepted samples down; when it reaches its timeout the estimate itself is
//! suspected, and readings are accepted whatever their error until the error
//! is back under the threshold.

use vstd::prelude::*;
use crate::float_bits::{less, spec_less};

verus! {

/// What one sample of a sensor looks like against the current estimate.
#[derive(Clone, Copy, Debug, PartialEq, Eq, Structural)]
pub enum Reading {
    /// The reading is the zero vector and gives no direction.
    Absent,
    /// The error is within the rejection angle.
    Within,
    /// The error exceeds the rejection angle.
    Exceeding,
}

/// How a reading that gives a direction stands, by the bit patterns of its
/// error angle and of the sensor's rejection angle: exceeding where the error
/// is greater than the rejection angle, within otherwise.
pub open spec fn spec_judge(error: u32, rejection: u32) -> Reading {
    if spec_less(rejection, error) {
        Reading::Exceeding
    } else {
        Reading::Within
    }
}

/// Judges a reading that gives a direction by its error angle.
pub fn judge(error: u32, rejection: u32) -> (reading: Reading)
    ensures
        reading == spec_judge(error, rejection),
        reading != Reading::Absent,
{
    if less(rejection, error) {
        Reading::Exceeding
    } else {
        Reading::Within
    }
}

/// Whether readings are judged by their error or accepted regardless.
#[derive(Clone, Copy, Debug, PartialEq, Eq, Structural)]
pub enum RecoveryMode {
    /// Readings that exceed the rejection angle are ignored.
    Normal,
    /// Readings are accepted until one is within the rejection angle.
    Forced,
}

/// The rejection state of one sensor.
#[derive(Clone, Copy, Debug, PartialEq, Eq, Structural)]
pub struct RecoveryGate {
    pub mode: RecoveryMode,
    /// Whether the latest sample's feedback was left out.
    pub ignored: bool,
    /// Rises with each ignored sample, falls with each accepted one.
    pub trigger: i32,
    /// The trigger value at which recovery is forced.
    pub timeout: i32,
}

/// The trigger after an ignored sample: one more, but no more than `timeout`.
pub open spec fn raised(trigger: int, timeout: int) -> int {
    if trigger < timeout {
        trigger + 1
    } else {
        timeout
    }
}

/// The trigger after an accepted sample: one less, but no less than zero.
pub open spec fn lowered(trigger: int) -> int {
    if trigger > 0 {
        trigger - 1
    } else {
        0
    }
}

/// The timeout that a recovery trigger period gives: the period itself, or
/// zero for a negative one.
pub open spec fn timeout_of(period: int) -> int {
    if period > 0 {
        period
    } else {
        0
    }
}

impl RecoveryGate {
    /// The trigger lies between zero and the timeout.
    pub open spec fn wf(self) -> bool {
        0 <= self.trigger <= self.timeout
    }

    /// Whether the feedback of a sample with this reading is left out: the
    /// reading is absent, or it exceeds the rejection angle while recovery is
    /// not forced.
    pub open spec fn ignores(self, reading: Reading) -> bool {
        match reading {
            Reading::Absent => true,
            Reading::Within => false,
            Reading::Exceeding => self.mode == RecoveryMode::Normal,
        }
    }

    /// The state after a sample with this reading.
    ///
    /// An absent reading leaves trigger and mode as they are. A reading
    /// within the rejection angle lowers the trigger and ends forced
    /// recovery. An exceeding reading is accepted under forced recovery and
    /// lowers the trigger; otherwise it is ignored and raises the trigger,
    /// and recovery is forced from the next sample on if the trigger has
    /// reached the timeout.
    pub open spec fn next(self, reading: Reading) -> RecoveryGate {
        match reading {
            Reading::Absent => RecoveryGate { ignored: true, ..self },
            Reading::Within => RecoveryGate {
                mode: RecoveryMode::Normal,
                ignored: false,
                trigger: lowered(self.trigger as int) as i32,
                timeout: self.timeout,
            },
            Reading::Exceeding => if self.mode == RecoveryMode::Forced {
                RecoveryGate {
                    mode: RecoveryMode::Forced,
                    ignored: false,
                    trigger: lowered(self.trigger as int) as i32,
                    timeout: self.timeout,
                }
            } else {
                RecoveryGate {
                    mode: if raised(self.trigger as int, self.timeout as int) >= self.timeout {
                        RecoveryMode::Forced
                    } else {
                        RecoveryMode::Normal
                    },
                    ignored: true,
                    trigger: raised(self.trigger as int, self.timeout as int) as i32,
                    timeout: self.timeout,
                }
            },
        }
    }

    /// The state after the readings `readings`, oldest first.
    pub open spec fn run(self, readings: Seq<Reading>) -> RecoveryGate
        decreases readings.len(),
    {
        if readings.len() == 0 {
            self
        } else {
            self.run(readings.drop_last()).next(readings.last())
        }
    }

    /// The state at the start of fusion: accepting, with the trigger at zero.
    pub open spec fn spec_new(recovery_trigger_period: i32) -> RecoveryGate {
        RecoveryGate {
            mode: RecoveryMode::Normal,
            ignored: false,
            trigger: 0,
            timeout: timeout_of(recovery_trigger_period as int) as i32,
        }
    }

    /// A gate for the given recovery trigger period in samples.
    pub fn new(recovery_trigger_period: i32) -> (gate: RecoveryGate)
        ensures
            gate == Self::spec_new(recovery_trigger_period),
            gate.timeout == timeout_of(recovery_trigger_period as int),
            gate.wf(),
    {
        let timeout: i32 = if recovery_trigger_period > 0 {
            recovery_trigger_period
        } else {
            0
        };
        RecoveryGate { mode: RecoveryMode::Normal, ignored: false, trigger: 0, timeout }
    }

    /// Takes in one sample of the sensor. Returns whether its feedback is to
    /// be used.
    pub fn step(&mut self, reading: Reading) -> (accepted: bool)
        ensures
            *final(self) == old(self).next(reading),
            accepted == !old(self).ignores(reading),
            accepted == !final(self).ignored,
            old(self).wf() ==> final(self).wf(),
    {
        match reading {
            Reading::Absent => {
                self.ignored = true;
            },
            Reading::Within => {
                self.mode = RecoveryMode::Normal;
                self.ignored = false;
                self.trigger = Self::lower(self.trigger);
            },
            Reading::Exceeding => {
                if self.mode == RecoveryMode::Forced {
                    self.ignored = false;
                    self.trigger = Self::lower(self.trigger);
                } else {
                    self.ignored = true;
                    if self.trigger < self.timeout {
                        self.trigger = self.trigger + 1;
                    } else {
                        self.trigger = self.timeout;
                    }
                    if self.trigger >= self.timeout {
                        self.mode = RecoveryMode::Forced;
                    }
                }
            },
        }
        !self.ignored
    }

    fn lower(trigger: i32) -> (less: i32)
        ensures
            less == lowered(trigger as int),
    {
        if trigger > 0 {
            trigger - 1
        } else {
            0
        }
    }

    /// Whether the latest sample's feedback was left out.
    pub fn ignored(&self) -> (ignored: bool)
        ensures
            ignored == self.ignored,
    {
        self.ignored
    }

    /// Whether recovery is forced for the next sample.
    pub fn recovering(&self) -> (forced: bool)
        ensures
            forced == (self.mode == RecoveryMode::Forced),
    {
        self.mode == RecoveryMode::Forced
    }

    /// Whatever the readings, the trigger stays between zero and the timeout,
    /// and the timeout stays what it was.
    pub proof fn lemma_trigger_bounded(self, readings: Seq<Reading>)
        requires
            self.wf(),
        ensures
            self.run(readings).wf(),
            self.run(readings).timeout == self.timeout,
        decreases readings.len(),
    {
        if readings.len() > 0 {
            self.lemma_trigger_bounded(readings.drop_last());
        }
    }

    /// A reading within the rejection angle is never ignored, and a reading
    /// that is absent always is.
    pub proof fn lemma_within_accepted(self, readings: Seq<Reading>)
        requires
            readings.len() > 0,
        ensures
            readings.last() == Reading::Within ==> !self.run(readings).ignored,
            readings.last() == Reading::Absent ==> self.run(readings).ignored,
    {
    }

    /// Whether every reading exceeds the rejection angle.
    pub open spec fn all_exceeding(readings: Seq<Reading>) -> bool {
        forall|i: int| 0 <= i < readings.len() ==> #[trigger] readings[i] == Reading::Exceeding
    }

    /// Of readings that all exceed the rejection angle, so do all but the
    /// last, and so does the last.
    pub proof fn lemma_all_exceeding_splits(readings: Seq<Reading>)
        requires
            Self::all_exceeding(readings),
            readings.len() > 0,
        ensures
            Self::all_exceeding(readings.drop_last()),
            readings.last() == Reading::Exceeding,
    {
        let before = readings.drop_last();
        assert forall|i: int| 0 <= i < before.len() implies #[trigger] before[i] == Reading::Exceeding by {
            assert(before[i] == readings[i]);
        }
        assert(readings.last() == readings[readings.len() - 1]);
    }

    /// Rejection cannot lock a sensor out: after as many exceeding readings
    /// in a row as the trigger is short of its timeout, and at least one,
    /// recovery is forced and the next exceeding reading is accepted.
    pub proof fn lemma_no_lockout(self, readings: Seq<Reading>)
        requires
            self.wf(),
            readings.len() >= self.timeout - self.trigger,
            readings.len() >= 1,
            Self::all_exceeding(readings),
        ensures
            self.run(readings).mode == RecoveryMode::Forced,
            !self.run(readings).ignores(Reading::Exceeding),
        decreases readings.len(),
    {
        let before = readings.drop_last();
        Self::lemma_all_exceeding_splits(readings);
        self.lemma_trigger_bounded(before);
        if before.len() >= 1 && before.len() >= self.timeout - self.trigger {
            self.lemma_no_lockout(before);
        } else {
            self.lemma_climb(before);
        }
    }

    /// While readings exceed the rejection angle and recovery is not yet
    /// forced, each one raises the trigger by one.
    pub proof fn lemma_climb(self, readings: Seq<Reading>)
        requires
            self.wf(),
            Self::all_exceeding(readings),
        ensures
            self.run(readings).mode == RecoveryMode::Forced
                || self.run(readings).trigger == self.trigger + readings.len(),
        decreases readings.len(),
    {
        if readings.len() > 0 {
            let before = readings.drop_last();
            Self::lemma_all_exceeding_splits(readings);
            self.lemma_climb(before);
            self.lemma_trigger_bounded(before);
        }
    }
}

} // verus!
