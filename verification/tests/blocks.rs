use beatcore::block::{block_from_i16, block_from_u16, prepare_block, sample_from_i16, sample_from_u16};
use beatcore::params::CHUNK_SIZE;

#[test]
fn short_block_is_zero_padded_deterministically() {
    let samples: Vec<i32> = vec![5, -3, 7];
    let once = prepare_block(&samples);
    let twice = prepare_block(&samples);
    assert_eq!(once, twice);
    assert_eq!(once.len(), CHUNK_SIZE);
    assert_eq!(once[0], 5);
    assert_eq!(once[1], -3);
    assert_eq!(once[2], 7);
    for i in 3usize..CHUNK_SIZE {
        assert_eq!(once[i], 0);
    }
}

#[test]
fn empty_block_pads_to_all_zeros() {
    let block = prepare_block(&Vec::new());
    assert_eq!(block.len(), CHUNK_SIZE);
    assert!(block.iter().all(|&s| s == 0));
}

#[test]
fn long_block_is_truncated() {
    let samples: Vec<i32> = (0i32..3000).collect();
    let block = prepare_block(&samples);
    assert_eq!(block.len(), CHUNK_SIZE);
    assert_eq!(block[0], 0);
    assert_eq!(block[CHUNK_SIZE - 1], (CHUNK_SIZE - 1) as i32);
}

#[test]
fn exact_block_is_kept_verbatim() {
    let samples: Vec<i32> = vec![9; CHUNK_SIZE];
    let block = prepare_block(&samples);
    assert_eq!(block, samples);
}

#[test]
fn signed_samples_keep_their_scale() {
    assert_eq!(sample_from_i16(i16::MIN), -32768);
    assert_eq!(sample_from_i16(0), 0);
    assert_eq!(sample_from_i16(i16::MAX), 32767);
    let block = block_from_i16(&vec![-1, 2, -3]);
    assert_eq!(block, vec![-1, 2, -3]);
}

#[test]
fn unsigned_samples_are_centered() {
    assert_eq!(sample_from_u16(0), -32768);
    assert_eq!(sample_from_u16(32768), 0);
    assert_eq!(sample_from_u16(u16::MAX), 32767);
    let block = block_from_u16(&vec![0, 32768, 65535]);
    assert_eq!(block, vec![-32768, 0, 32767]);
}
