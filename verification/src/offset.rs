//! Stillness gate of the gyroscope offset corrector.
//!
//! The corrector low-pass filters the angular rate into a bias estimate, but
//! only while the body has been still for a sustained time. The caller
//! compares each corrected rate against the stillness threshold; the timer
//! here decides from that whether the bias estimate is updated.

use vstd::prelude::*;
use crate::float_bits::{less, magnitude, spec_less, spec_magnitude};

verus! {

/// Seconds of sustained stillness after which the bias estimate is updated.
pub const STILLNESS_SECONDS: u32 = 5;

/// The bit pattern of the stillness threshold, 3 degrees per second.
pub const STILLNESS_THRESHOLD_BITS: u32 = 0x4040_0000;

/// Whether the magnitude of one axis of the angular rate exceeds the
/// stillness threshold.
pub open spec fn spec_exceeds_threshold(axis: u32) -> bool {
    spec_less(STILLNESS_THRESHOLD_BITS, spec_magnitude(axis))
}

/// Whether the body is moving: some axis of the corrected angular rate
/// exceeds the stillness threshold in magnitude.
pub open spec fn spec_is_moving(x: u32, y: u32, z: u32) -> bool {
    spec_exceeds_threshold(x) || spec_exceeds_threshold(y) || spec_exceeds_threshold(z)
}

/// Judges from the bit patterns of the three axes of the corrected angular
/// rate whether the body is moving.
pub fn is_moving(x: u32, y: u32, z: u32) -> (moving: bool)
    ensures
        moving == spec_is_moving(x, y, z),
{
    less(STILLNESS_THRESHOLD_BITS, magnitude(x)) || less(STILLNESS_THRESHOLD_BITS, magnitude(y))
        || less(STILLNESS_THRESHOLD_BITS, magnitude(z))
}

/// Counts consecutive still samples up to a timeout.
#[derive(Clone, Copy, Debug, PartialEq, Eq, Structural)]
pub struct StillnessTimer {
    /// Samples of stillness needed before the bias estimate is updated.
    pub timeout: u32,
    /// Consecutive still samples seen so far, at most `timeout`.
    pub timer: u32,
}

impl StillnessTimer {
    /// The timer never passes its timeout.
    pub open spec fn wf(self) -> bool {
        self.timer <= self.timeout
    }

    /// Whether a sample with the given motion updates the bias estimate: the
    /// body is still and the timer has reached the timeout.
    pub open spec fn updates(self, moving: bool) -> bool {
        !moving && self.timer >= self.timeout
    }

    /// The timer after a sample with the given motion.
    pub open spec fn next(self, moving: bool) -> StillnessTimer {
        if moving {
            StillnessTimer { timeout: self.timeout, timer: 0 }
        } else if self.timer < self.timeout {
            StillnessTimer { timeout: self.timeout, timer: (self.timer + 1) as u32 }
        } else {
            self
        }
    }

    /// The timer after the samples `moves`, oldest first.
    pub open spec fn run(self, moves: Seq<bool>) -> StillnessTimer
        decreases moves.len(),
    {
        if moves.len() == 0 {
            self
        } else {
            self.run(moves.drop_last()).next(moves.last())
        }
    }

    /// Whether the last `count` samples of `moves` were all still.
    pub open spec fn still_for(moves: Seq<bool>, count: int) -> bool {
        0 <= count <= moves.len()
            && forall|i: int| moves.len() - count <= i < moves.len() ==> !#[trigger] moves[i]
    }

    /// A timer for the given sample rate in samples per second, at zero.
    pub fn new(sample_rate: u32) -> (timer: StillnessTimer)
        requires
            STILLNESS_SECONDS * sample_rate <= u32::MAX,
        ensures
            timer.timeout == STILLNESS_SECONDS * sample_rate,
            timer.timer == 0,
            timer.wf(),
    {
        StillnessTimer { timeout: STILLNESS_SECONDS * sample_rate, timer: 0 }
    }

    /// Takes in one sample. `moving` says whether any axis of the corrected
    /// angular rate exceeds the stillness threshold. Returns whether the bias
    /// estimate is to be updated from this sample.
    pub fn step(&mut self, moving: bool) -> (update: bool)
        ensures
            *final(self) == old(self).next(moving),
            update == old(self).updates(moving),
            moving ==> !update && final(self).timer == 0,
            old(self).wf() ==> final(self).wf(),
    {
        if moving {
            self.timer = 0;
            false
        } else if self.timer < self.timeout {
            self.timer = self.timer + 1;
            false
        } else {
            true
        }
    }

    /// Samples of stillness seen so far.
    pub fn timer(&self) -> (timer: u32)
        ensures
            timer == self.timer,
    {
        self.timer
    }

    /// Samples of stillness needed before the bias estimate is updated.
    pub fn timeout(&self) -> (timeout: u32)
        ensures
            timeout == self.timeout,
    {
        self.timeout
    }

    /// Whatever the samples, the timer stays within its timeout.
    pub proof fn lemma_run_bounded(self, moves: Seq<bool>)
        requires
            self.wf(),
        ensures
            self.run(moves).wf(),
            self.run(moves).timeout == self.timeout,
        decreases moves.len(),
    {
        if moves.len() > 0 {
            self.lemma_run_bounded(moves.drop_last());
        }
    }

    /// Counted from zero, the timer is the length of the current streak of
    /// still samples: the last `timer` samples were all still.
    pub proof fn lemma_timer_counts_stillness(self, moves: Seq<bool>)
        requires
            self.timer == 0,
        ensures
            Self::still_for(moves, self.run(moves).timer as int),
        decreases moves.len(),
    {
        if moves.len() > 0 {
            let before = moves.drop_last();
            self.lemma_timer_counts_stillness(before);
            assert forall|i: int|
                moves.len() - self.run(moves).timer <= i < moves.len() implies !#[trigger] moves[i] by {
                if i < before.len() {
                    assert(moves[i] == before[i]);
                }
            }
        }
    }

    /// The bias estimate is updated only after sustained stillness: counted
    /// from zero, a sample that updates it is still itself and follows at
    /// least `timeout` still samples.
    pub proof fn lemma_update_needs_stillness(self, moves: Seq<bool>, moving: bool)
        requires
            self.timer == 0,
            self.run(moves).updates(moving),
        ensures
            !moving,
            Self::still_for(moves, self.timeout as int),
    {
        self.lemma_timer_counts_stillness(moves);
        self.lemma_timeout_kept(moves);
        let count = self.run(moves).timer as int;
        assert forall|i: int| moves.len() - self.timeout <= i < moves.len() implies !#[trigger] moves[i] by {
            assert(moves.len() - count <= i);
        }
    }

    /// The timeout is fixed when the timer is made.
    pub proof fn lemma_timeout_kept(self, moves: Seq<bool>)
        ensures
            self.run(moves).timeout == self.timeout,
        decreases moves.len(),
    {
        if moves.len() > 0 {
            self.lemma_timeout_kept(moves.drop_last());
        }
    }

    /// A streak of still samples is counted in full until the timeout: after
    /// `count` still samples the timer stands at `count` or more, or at the
    /// timeout.
    pub proof fn lemma_streak_counted(self, moves: Seq<bool>, count: int)
        requires
            self.wf(),
            Self::still_for(moves, count),
        ensures
            self.run(moves).timer >= count || self.run(moves).timer == self.timeout,
        decreases moves.len(),
    {
        self.lemma_run_bounded(moves);
        if count > 0 {
            let before = moves.drop_last();
            assert forall|i: int| before.len() - (count - 1) <= i < before.len() implies !#[trigger] before[i] by {
                assert(before[i] == moves[i]);
            }
            self.lemma_streak_counted(before, count - 1);
            self.lemma_run_bounded(before);
            assert(!moves[moves.len() - 1]);
        }
    }

    /// Sustained stillness lets the filter run: once the last `timeout` samples
    /// were all still, every further still sample updates the bias estimate.
    pub proof fn lemma_stillness_opens(self, moves: Seq<bool>)
        requires
            self.wf(),
            Self::still_for(moves, self.timeout as int),
        ensures
            self.run(moves).timer == self.timeout,
            self.run(moves).updates(false),
    {
        self.lemma_streak_counted(moves, self.timeout as int);
        self.lemma_run_bounded(moves);
    }

    /// A sample in motion never updates the bias estimate and sends the timer
    /// back to zero, whatever came before.
    pub proof fn lemma_motion_resets(self, moves: Seq<bool>)
        requires
            moves.len() > 0,
            moves.last(),
        ensures
            self.run(moves).timer == 0,
            !self.run(moves.drop_last()).updates(moves.last()),
    {
    }
}

} // verus!
