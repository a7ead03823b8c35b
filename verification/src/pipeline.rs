//! Per-chunk feature extraction: one magnitude spectrum in, one
//! `FeatureFrame` out, updating the session's beat detector on the way.

use vstd::prelude::*;
use crate::band::{average_energy, band_average};
use crate::detector::{spec_after_detect, spec_is_beat, BeatDetector};
use crate::params::{
    BASS_HIGH_HZ, BASS_LOW_HZ, HALF_CHUNK, MIDS_HIGH_HZ, MIDS_LOW_HZ, NORMALIZATION_FACTOR,
};
use crate::rhythm::{normalize, spec_normalize};

verus! {

/// One emitted feature record: the beat flag and the scaled rhythm factor.
/// `rhythm_scaled / NORMALIZATION_FACTOR` is the rhythm factor in [0, 1].
#[derive(Clone, Copy, Debug, PartialEq, Eq, Structural)]
pub struct FeatureFrame {
    pub is_beat: bool,
    pub rhythm_scaled: u64,
}

/// Runs one spectrum chunk through the full feature pipeline: bass-band
/// energy feeds the beat detector, mids-band energy the rhythm normalizer.
pub fn process_block(spectrum: &Vec<u32>, now_ms: u64, detector: &mut BeatDetector) -> (frame: FeatureFrame)
    requires
        old(detector).time_ok(now_ms),
        spectrum@.len() == HALF_CHUNK,
    ensures
        frame.is_beat == spec_is_beat(
            *old(detector),
            band_average(spectrum@, BASS_LOW_HZ, BASS_HIGH_HZ),
            now_ms,
        ),
        frame.rhythm_scaled == spec_normalize(band_average(spectrum@, MIDS_LOW_HZ, MIDS_HIGH_HZ)),
        frame.rhythm_scaled <= NORMALIZATION_FACTOR,
        *final(detector) == spec_after_detect(
            *old(detector),
            band_average(spectrum@, BASS_LOW_HZ, BASS_HIGH_HZ),
            now_ms,
        ),
        final(detector).time_ok(now_ms),
{
    let is_beat = detector.detect_beat(spectrum, now_ms);
    let mids_energy = average_energy(spectrum, MIDS_LOW_HZ, MIDS_HIGH_HZ);
    let rhythm_scaled = normalize(mids_energy);
    FeatureFrame { is_beat, rhythm_scaled }
}

} // verus!
