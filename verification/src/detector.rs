//! Stateful onset detector over the bass band's energy trajectory.
//!
//! A beat is a rise of the bass energy by more than `VELOCITY_THRESHOLD`
//! between consecutive chunks, debounced so that at most one beat is
//! reported per `COOLDOWN_MS` window. The detector state is reset whenever
//! a new capture session starts, so no velocity spike from a previous
//! device's tail bleeds into the new session.

use vstd::prelude::*;
use crate::band::band_average;
use crate::params::{BASS_HIGH_HZ, BASS_LOW_HZ, COOLDOWN_MS, HALF_CHUNK, VELOCITY_THRESHOLD};

verus! {

/// Detector state: the previous chunk's bass energy and the time of the
/// last reported beat (`None` until a beat has been reported, standing for
/// a trigger time infinitely far in the past).
pub struct BeatDetector {
    pub last_bass_energy: u64,
    pub last_trigger_ms: Option<u64>,
}

/// The state a detector holds when constructed or reset: zero remembered
/// energy and no remembered trigger time.
pub open spec fn initial_detector() -> BeatDetector {
    BeatDetector { last_bass_energy: 0, last_trigger_ms: None }
}

/// More than `COOLDOWN_MS` milliseconds have passed since the last reported
/// beat (vacuously true when no beat was ever reported).
pub open spec fn cooldown_elapsed(d: BeatDetector, now_ms: u64) -> bool {
    match d.last_trigger_ms {
        Option::None => true,
        Option::Some(t) => now_ms - t > COOLDOWN_MS,
    }
}

/// Whether a chunk with bass energy `energy` observed at `now_ms` is a beat:
/// the energy rose by more than `VELOCITY_THRESHOLD` since the previous
/// chunk and the cooldown window has elapsed.
pub open spec fn spec_is_beat(d: BeatDetector, energy: int, now_ms: u64) -> bool {
    &&& energy - d.last_bass_energy > VELOCITY_THRESHOLD
    &&& cooldown_elapsed(d, now_ms)
}

/// The detector state after observing bass energy `energy` at `now_ms`:
/// the energy is always remembered, the trigger time only on a beat.
pub open spec fn spec_after_detect(d: BeatDetector, energy: int, now_ms: u64) -> BeatDetector {
    BeatDetector {
        last_bass_energy: energy as u64,
        last_trigger_ms: if spec_is_beat(d, energy, now_ms) {
            Option::Some(now_ms)
        } else {
            d.last_trigger_ms
        },
    }
}

/// The beat flags produced by feeding a detector the given trajectory of
/// (bass energy, timestamp) observations, in order.
pub open spec fn detect_outputs(d: BeatDetector, inputs: Seq<(u64, u64)>) -> Seq<bool>
    decreases inputs.len(),
{
    if inputs.len() == 0 {
        Seq::empty()
    } else {
        seq![spec_is_beat(d, inputs[0].0 as int, inputs[0].1)]
            + detect_outputs(
                spec_after_detect(d, inputs[0].0 as int, inputs[0].1),
                inputs.skip(1),
            )
    }
}

impl BeatDetector {
    /// Timestamps the detector has seen never exceed `now_ms`: the clock
    /// that feeds the detector is monotone within a session.
    pub open spec fn time_ok(self, now_ms: u64) -> bool {
        match self.last_trigger_ms {
            Option::None => true,
            Option::Some(t) => t <= now_ms,
        }
    }

    pub fn new() -> (d: BeatDetector)
        ensures
            d == initial_detector(),
    {
        BeatDetector { last_bass_energy: 0, last_trigger_ms: None }
    }

    /// Restores the initial state; called exactly once at session start,
    /// never mid-session.
    pub fn reset(&mut self)
        ensures
            *final(self) == initial_detector(),
    {
        self.last_bass_energy = 0;
        self.last_trigger_ms = None;
    }

    /// Observes one chunk's bass energy at time `now_ms` and reports whether
    /// it is a beat; unconditionally remembers the energy, and remembers the
    /// time iff a beat is reported.
    pub fn detect(&mut self, bass_energy: u64, now_ms: u64) -> (beat: bool)
        requires
            old(self).time_ok(now_ms),
        ensures
            beat == spec_is_beat(*old(self), bass_energy as int, now_ms),
            *final(self) == spec_after_detect(*old(self), bass_energy as int, now_ms),
            final(self).time_ok(now_ms),
    {
        let velocity_up = bass_energy > self.last_bass_energy
            && bass_energy - self.last_bass_energy > VELOCITY_THRESHOLD;
        let cooled = match self.last_trigger_ms {
            None => true,
            Some(t) => now_ms - t > COOLDOWN_MS,
        };
        let beat = velocity_up && cooled;
        self.last_bass_energy = bass_energy;
        if beat {
            self.last_trigger_ms = Some(now_ms);
        }
        beat
    }

    /// Observes one spectrum chunk: aggregates the bass band's average
    /// energy and feeds it to the detector.
    pub fn detect_beat(&mut self, spectrum: &Vec<u32>, now_ms: u64) -> (beat: bool)
        requires
            old(self).time_ok(now_ms),
            spectrum@.len() == HALF_CHUNK,
        ensures
            beat == spec_is_beat(
                *old(self),
                band_average(spectrum@, BASS_LOW_HZ, BASS_HIGH_HZ),
                now_ms,
            ),
            *final(self) == spec_after_detect(
                *old(self),
                band_average(spectrum@, BASS_LOW_HZ, BASS_HIGH_HZ),
                now_ms,
            ),
            final(self).time_ok(now_ms),
    {
        let bass_energy = crate::band::average_energy(spectrum, BASS_LOW_HZ, BASS_HIGH_HZ);
        self.detect(bass_energy, now_ms)
    }
}

/// Timestamps in a trajectory never decrease: each observation is at least
/// as late as every earlier one.
pub open spec fn times_nondecreasing(inputs: Seq<(u64, u64)>) -> bool {
    forall|k1: int, k2: int|
        #![trigger inputs[k1], inputs[k2]]
        0 <= k1 <= k2 < inputs.len() ==> inputs[k1].1 <= inputs[k2].1
}

/// Every observation in the trajectory happens at or after time `t`.
pub open spec fn times_at_least(inputs: Seq<(u64, u64)>, t: u64) -> bool {
    forall|k: int| 0 <= k < inputs.len() ==> t <= (#[trigger] inputs[k]).1
}

/// A trajectory yields exactly one beat flag per observation.
pub proof fn lemma_detect_outputs_len(d: BeatDetector, inputs: Seq<(u64, u64)>)
    ensures
        detect_outputs(d, inputs).len() == inputs.len(),
    decreases inputs.len(),
{
    if inputs.len() > 0 {
        lemma_detect_outputs_len(
            spec_after_detect(d, inputs[0].0 as int, inputs[0].1),
            inputs.skip(1),
        );
    }
}

/// While the last reported beat stands at time `t`, every further beat in a
/// time-ordered trajectory comes strictly more than `COOLDOWN_MS` after `t`.
pub proof fn lemma_cooldown_from_trigger(d: BeatDetector, inputs: Seq<(u64, u64)>, t: u64)
    requires
        d.last_trigger_ms == Option::Some(t),
        times_nondecreasing(inputs),
        times_at_least(inputs, t),
    ensures
        forall|k: int|
            0 <= k < inputs.len() && detect_outputs(d, inputs)[k] ==> inputs[k].1 - t > COOLDOWN_MS,
    decreases inputs.len(),
{
    if inputs.len() > 0 {
        let t0 = inputs[0].1;
        let b0 = spec_is_beat(d, inputs[0].0 as int, t0);
        let d1 = spec_after_detect(d, inputs[0].0 as int, t0);
        let t1: u64 = if b0 { t0 } else { t };
        let rest = inputs.skip(1);
        assert forall|k1: int, k2: int|
            #![trigger rest[k1], rest[k2]]
            0 <= k1 <= k2 < rest.len() implies rest[k1].1 <= rest[k2].1 by {
            assert(rest[k1] == inputs[k1 + 1]);
            assert(rest[k2] == inputs[k2 + 1]);
        }
        assert forall|k: int| 0 <= k < rest.len() implies t1 <= (#[trigger] rest[k]).1 by {
            assert(rest[k] == inputs[k + 1]);
        }
        lemma_cooldown_from_trigger(d1, rest, t1);
        lemma_detect_outputs_len(d1, rest);
        assert forall|k: int|
            0 <= k < inputs.len() && detect_outputs(d, inputs)[k] implies inputs[k].1 - t
            > COOLDOWN_MS by {
            if k > 0 {
                assert(detect_outputs(d, inputs)[k] == detect_outputs(d1, rest)[k - 1]);
                assert(rest[k - 1] == inputs[k]);
            }
        }
    }
}

/// The cooldown debounces: in any time-ordered trajectory, two reported
/// beats — however far apart in the sequence — lie strictly more than
/// `COOLDOWN_MS` milliseconds apart, so one percussive onset's multi-chunk
/// energy rise is collapsed into a single beat.
pub proof fn lemma_beats_are_debounced(d: BeatDetector, inputs: Seq<(u64, u64)>, i: int, j: int)
    requires
        times_nondecreasing(inputs),
        0 <= i < j < inputs.len(),
        d.time_ok(inputs[0].1),
        detect_outputs(d, inputs)[i],
        detect_outputs(d, inputs)[j],
    ensures
        inputs[j].1 - inputs[i].1 > COOLDOWN_MS,
    decreases i,
{
    let t0 = inputs[0].1;
    let d1 = spec_after_detect(d, inputs[0].0 as int, t0);
    let rest = inputs.skip(1);
    lemma_detect_outputs_len(d1, rest);
    assert forall|k1: int, k2: int|
        #![trigger rest[k1], rest[k2]]
        0 <= k1 <= k2 < rest.len() implies rest[k1].1 <= rest[k2].1 by {
        assert(rest[k1] == inputs[k1 + 1]);
        assert(rest[k2] == inputs[k2 + 1]);
    }
    assert(detect_outputs(d, inputs)[j] == detect_outputs(d1, rest)[j - 1]);
    assert(rest[j - 1] == inputs[j]);
    if i == 0 {
        assert(d1.last_trigger_ms == Option::Some(t0));
        assert forall|k: int| 0 <= k < rest.len() implies t0 <= (#[trigger] rest[k]).1 by {
            assert(rest[k] == inputs[k + 1]);
        }
        lemma_cooldown_from_trigger(d1, rest, t0);
    } else {
        assert(detect_outputs(d, inputs)[i] == detect_outputs(d1, rest)[i - 1]);
        assert(rest[i - 1] == inputs[i]);
        assert(rest[0] == inputs[1]);
        lemma_beats_are_debounced(d1, rest, i - 1, j - 1);
    }
}

/// Resetting a detector erases all history: a detector that was just reset
/// produces exactly the beat sequence of a brand-new one on every trajectory
/// of observations, so a device switch cannot leak velocity across sessions.
pub proof fn lemma_reset_equals_fresh(reset_d: BeatDetector, fresh_d: BeatDetector, inputs: Seq<(u64, u64)>)
    requires
        reset_d == initial_detector(),
        fresh_d == initial_detector(),
    ensures
        detect_outputs(reset_d, inputs) == detect_outputs(fresh_d, inputs),
{
}

/// Shared processing state: the one beat detector of the active session.
pub struct AudioState {
    pub beat_detector: BeatDetector,
}

impl AudioState {
    pub fn new() -> (s: Self)
        ensures
            s.beat_detector == initial_detector(),
    {
        AudioState { beat_detector: BeatDetector::new() }
    }
}

} // verus!
