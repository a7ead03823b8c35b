//! Frequency-band energy aggregation over a magnitude spectrum.
//!
//! A spectrum holds `HALF_CHUNK` non-negative magnitudes, one per bin, with
//! bin `i` centered at frequency `i * SAMPLE_RATE_HZ / CHUNK_SIZE` Hz. The
//! average energy of a band is the mean magnitude over the bins whose center
//! frequency falls in `[low_hz, high_hz)`, or 0 when no bin does.

use vstd::prelude::*;
use crate::params::{CHUNK_SIZE, HALF_CHUNK, SAMPLE_RATE_HZ};

verus! {

/// Whether bin `i`'s center frequency `i * SAMPLE_RATE_HZ / CHUNK_SIZE`
/// lies in `[low_hz, high_hz)`, compared exactly as rationals.
pub open spec fn bin_in_band(i: int, low_hz: u64, high_hz: u64) -> bool {
    &&& (low_hz as int) * (CHUNK_SIZE as int) <= i * (SAMPLE_RATE_HZ as int)
    &&& i * (SAMPLE_RATE_HZ as int) < (high_hz as int) * (CHUNK_SIZE as int)
}

/// Sum of the magnitudes of the in-band bins among the first `n` bins.
pub open spec fn band_sum(s: Seq<u32>, low_hz: u64, high_hz: u64, n: int) -> int
    decreases n,
{
    if n <= 0 {
        0
    } else {
        band_sum(s, low_hz, high_hz, n - 1)
            + if bin_in_band(n - 1, low_hz, high_hz) { s[n - 1] as int } else { 0 }
    }
}

/// Number of in-band bins among the first `n` bins.
pub open spec fn band_count(s: Seq<u32>, low_hz: u64, high_hz: u64, n: int) -> int
    decreases n,
{
    if n <= 0 {
        0
    } else {
        band_count(s, low_hz, high_hz, n - 1)
            + if bin_in_band(n - 1, low_hz, high_hz) { 1 as int } else { 0 }
    }
}

/// Average magnitude over the band's bins (integer division), 0 when the
/// band selects no bin.
pub open spec fn band_average(s: Seq<u32>, low_hz: u64, high_hz: u64) -> int {
    let c = band_count(s, low_hz, high_hz, s.len() as int);
    if c == 0 {
        0
    } else {
        band_sum(s, low_hz, high_hz, s.len() as int) / c
    }
}

/// Average magnitude of the bins whose center frequency falls in
/// `[low_hz, high_hz)`; 0 for a degenerate band that selects no bin.
///
/// The bounds on `low_hz` and `high_hz` only keep the rational frequency
/// comparison within machine range; both fixed bands lie far inside them.
pub fn average_energy(spectrum: &Vec<u32>, low_hz: u64, high_hz: u64) -> (r: u64)
    requires
        spectrum@.len() == HALF_CHUNK,
        low_hz <= 0x10000,
        high_hz <= 0x10000,
    ensures
        r == band_average(spectrum@, low_hz, high_hz),
{
    proof {
        assert((low_hz as int) * (CHUNK_SIZE as int) <= 0x10000 * 2046) by (nonlinear_arith)
            requires low_hz <= 0x10000, CHUNK_SIZE == 2046;
        assert((high_hz as int) * (CHUNK_SIZE as int) <= 0x10000 * 2046) by (nonlinear_arith)
            requires high_hz <= 0x10000, CHUNK_SIZE == 2046;
    }
    let low_edge: u64 = low_hz * (CHUNK_SIZE as u64);
    let high_edge: u64 = high_hz * (CHUNK_SIZE as u64);
    let len = spectrum.len();
    let mut sum: u64 = 0;
    let mut count: u64 = 0;
    let mut i: usize = 0;
    while i < len
        invariant
            len == spectrum@.len(),
            len == HALF_CHUNK,
            i <= len,
            low_edge == (low_hz as int) * (CHUNK_SIZE as int),
            high_edge == (high_hz as int) * (CHUNK_SIZE as int),
            sum == band_sum(spectrum@, low_hz, high_hz, i as int),
            count == band_count(spectrum@, low_hz, high_hz, i as int),
            sum <= (i as int) * 0xffff_ffff,
            count <= i,
        decreases len - i,
    {
        let freq_num: u64 = (i as u64) * SAMPLE_RATE_HZ;
        let in_band = low_edge <= freq_num && freq_num < high_edge;
        if in_band {
            sum = sum + spectrum[i] as u64;
            count = count + 1;
        }
        i = i + 1;
    }
    if count == 0 {
        0
    } else {
        sum / count
    }
}

} // verus!
