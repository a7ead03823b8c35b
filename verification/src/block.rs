//! Preparation of one analysis block from a delivered audio chunk.
//!
//! A delivered chunk is zero-padded or truncated to exactly `CHUNK_SIZE`
//! samples before the forward transform. Samples are kept in raw signed
//! 16-bit integer scale; the adapters below normalize each supported native
//! representation to that common scale (the floating-point representation is
//! converted by the host application, outside this crate).

use vstd::prelude::*;
use crate::params::CHUNK_SIZE;

verus! {

/// The sample the prepared block holds at index `i`: the delivered sample
/// where one exists, 0 past the end of the delivered chunk.
pub open spec fn padded_sample(s: Seq<i32>, i: int) -> i32 {
    if 0 <= i < s.len() {
        s[i]
    } else {
        0
    }
}

/// The prepared block for a delivered chunk: exactly `CHUNK_SIZE` samples,
/// the chunk's own up to its length, zeros beyond it.
pub open spec fn padded_block(s: Seq<i32>) -> Seq<i32> {
    Seq::new(CHUNK_SIZE as nat, |i: int| padded_sample(s, i))
}

/// Pads a short chunk with zeros, truncates a long one: the result always
/// holds exactly `CHUNK_SIZE` samples.
pub fn prepare_block(samples: &Vec<i32>) -> (block: Vec<i32>)
    ensures
        block@ == padded_block(samples@),
        block@.len() == CHUNK_SIZE,
{
    let mut block: Vec<i32> = Vec::new();
    let mut i: usize = 0;
    while i < CHUNK_SIZE
        invariant
            i <= CHUNK_SIZE,
            block@.len() == i,
            forall|j: int| 0 <= j < i ==> block@[j] == padded_sample(samples@, j),
        decreases CHUNK_SIZE - i,
    {
        if i < samples.len() {
            let s = samples[i];
            block.push(s);
        } else {
            block.push(0);
        }
        i = i + 1;
    }
    proof {
        assert(block@ =~= padded_block(samples@));
    }
    block
}

/// Padding is deterministic and depends only on what each of the first
/// `CHUNK_SIZE` sample positions holds (the delivered sample, or zero past
/// the chunk's end): two chunks that agree there — in particular, two equal
/// short chunks — prepare to the same block, and samples past `CHUNK_SIZE`
/// never influence it.
pub proof fn lemma_padding_deterministic(a: Seq<i32>, b: Seq<i32>)
    requires
        forall|i: int| 0 <= i < CHUNK_SIZE ==> padded_sample(a, i) == padded_sample(b, i),
    ensures
        padded_block(a) == padded_block(b),
{
    assert(padded_block(a) =~= padded_block(b));
}

/// A signed 16-bit sample is already in the common scale.
pub fn sample_from_i16(s: i16) -> (r: i32)
    ensures
        r == s as int,
{
    s as i32
}

/// An unsigned 16-bit sample is centered: 32768 (silence) maps to 0.
pub fn sample_from_u16(s: u16) -> (r: i32)
    ensures
        r == s as int - 32768,
{
    (s as i32) - 32768
}

/// Converts a whole signed 16-bit chunk to the common scale.
pub fn block_from_i16(data: &Vec<i16>) -> (r: Vec<i32>)
    ensures
        r@.len() == data@.len(),
        forall|i: int| 0 <= i < r@.len() ==> r@[i] == data@[i] as int,
{
    let mut r: Vec<i32> = Vec::new();
    let mut i: usize = 0;
    while i < data.len()
        invariant
            i <= data@.len(),
            r@.len() == i,
            forall|j: int| 0 <= j < i ==> r@[j] == data@[j] as int,
        decreases data@.len() - i,
    {
        let s = sample_from_i16(data[i]);
        r.push(s);
        i = i + 1;
    }
    r
}

/// Converts a whole unsigned 16-bit chunk to the common scale.
pub fn block_from_u16(data: &Vec<u16>) -> (r: Vec<i32>)
    ensures
        r@.len() == data@.len(),
        forall|i: int| 0 <= i < r@.len() ==> r@[i] == data@[i] as int - 32768,
{
    let mut r: Vec<i32> = Vec::new();
    let mut i: usize = 0;
    while i < data.len()
        invariant
            i <= data@.len(),
            r@.len() == i,
            forall|j: int| 0 <= j < i ==> r@[j] == data@[j] as int - 32768,
        decreases data@.len() - i,
    {
        let s = sample_from_u16(data[i]);
        r.push(s);
        i = i + 1;
    }
    r
}

} // verus!
