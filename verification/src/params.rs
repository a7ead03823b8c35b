//! Fixed policy constants of the analysis pipeline.
//!
//! Samples are kept in raw signed 16-bit integer scale (not pre-normalized
//! to [-1, 1]), and the thresholds below are derived for that convention.

use vstd::prelude::*;

verus! {

/// Number of samples in one analysis chunk.
pub const CHUNK_SIZE: usize = 2046;

/// Number of retained spectrum bins (non-negative frequencies only).
pub const HALF_CHUNK: usize = CHUNK_SIZE / 2;

/// Assumed input sample rate, in Hz.
pub const SAMPLE_RATE_HZ: u64 = 44100;

/// Lower edge of the bass band, inclusive, in Hz.
pub const BASS_LOW_HZ: u64 = 20;

/// Upper edge of the bass band, exclusive, in Hz.
pub const BASS_HIGH_HZ: u64 = 250;

/// Lower edge of the mids band, inclusive, in Hz.
pub const MIDS_LOW_HZ: u64 = 250;

/// Upper edge of the mids band, exclusive, in Hz.
pub const MIDS_HIGH_HZ: u64 = 4000;

/// A beat is declared only when bass energy rises by more than this much
/// between consecutive chunks.
pub const VELOCITY_THRESHOLD: u64 = 5000;

/// Minimum spacing between two reported beats, in milliseconds.
pub const COOLDOWN_MS: u64 = 200;

/// Mid-band energy at or above which the rhythm factor saturates at 1.
/// A scaled rhythm value `r` stands for the factor `r / NORMALIZATION_FACTOR`.
pub const NORMALIZATION_FACTOR: u64 = 10000;

} // verus!
