use sha512_core::compress;
use sha512_core::compress_gated;
use sha512_core::consts::k_table;
use sha512_core::narrow::compress_block_narrow;
use sha512_core::scalar::compress_block_scalar;
use sha512_core::scalar::compress_scalar;
use sha512_core::wide::compress_pair_wide;
use sha512_core::wide::compress_wide;

/// The standard SHA-512 initialization vector.
fn iv() -> [u64; 8] {
    [
        0x6a09e667f3bcc908,
        0xbb67ae8584caa73b,
        0x3c6ef372fe94f82b,
        0xa54ff53a5f1d36f1,
        0x510e527fade682d1,
        0x9b05688c2b3e6c1f,
        0x1f83d9abfb41bd6b,
        0x5be0cd19137e2179,
    ]
}

/// The single padded block for the message "abc": the three message
/// bytes, the 0x80 padding byte, zeros, and the 24-bit length in the
/// trailing 128-bit big-endian length field.
fn abc_block() -> [u8; 128] {
    let mut b = [0u8; 128];
    b[0] = 0x61;
    b[1] = 0x62;
    b[2] = 0x63;
    b[3] = 0x80;
    b[127] = 24;
    b
}

/// A deterministic block of varied bytes, distinct per `seed`.
fn patterned_block(seed: u8) -> [u8; 128] {
    let mut b = [0u8; 128];
    let mut i: usize = 0;
    while i < 128 {
        b[i] = (seed.wrapping_mul(31)).wrapping_add((i as u8).wrapping_mul(7)).wrapping_add(i as u8 >> 3);
        i += 1;
    }
    b
}

fn arbitrary_state() -> [u64; 8] {
    [
        0x0123456789abcdef,
        0xfedcba9876543210,
        0x0f1e2d3c4b5a6978,
        0x8796a5b4c3d2e1f0,
        0x00ff00ff00ff00ff,
        0x123456789abcdef0,
        0xdeadbeefcafef00d,
        0x0102030405060708,
    ]
}

#[test]
fn empty_input_identity() {
    let mut state = arbitrary_state();
    let blocks: [[u8; 128]; 0] = [];
    compress(&mut state, &blocks);
    assert_eq!(state, arbitrary_state());

    let mut state2 = iv();
    compress_scalar(&mut state2, &blocks);
    assert_eq!(state2, iv());

    let mut state3 = iv();
    compress_gated(&mut state3, &blocks, true);
    assert_eq!(state3, iv());
}

#[test]
fn determinism_two_calls() {
    let blocks = [patterned_block(1), patterned_block(2), patterned_block(3)];
    let mut s1 = arbitrary_state();
    let mut s2 = arbitrary_state();
    compress(&mut s1, &blocks);
    compress(&mut s2, &blocks);
    assert_eq!(s1, s2);
}

#[test]
fn strategies_agree_single_block() {
    let block = patterned_block(9);
    let mut by_scalar = arbitrary_state();
    let mut by_narrow = arbitrary_state();
    let mut by_dispatch = arbitrary_state();
    compress_block_scalar(&mut by_scalar, &block);
    compress_block_narrow(&mut by_narrow, &block);
    compress(&mut by_dispatch, &[block]);
    assert_eq!(by_scalar, by_narrow);
    assert_eq!(by_scalar, by_dispatch);
}

#[test]
fn strategies_agree_block_sequence() {
    let blocks = [
        patterned_block(4),
        patterned_block(5),
        patterned_block(6),
        patterned_block(7),
    ];
    let mut by_wide = arbitrary_state();
    let mut by_scalar = arbitrary_state();
    let mut gated_on = arbitrary_state();
    let mut gated_off = arbitrary_state();
    compress_wide(&mut by_wide, &blocks);
    compress_scalar(&mut by_scalar, &blocks);
    compress_gated(&mut gated_on, &blocks, true);
    compress_gated(&mut gated_off, &blocks, false);
    assert_eq!(by_wide, by_scalar);
    assert_eq!(by_wide, gated_on);
    assert_eq!(by_wide, gated_off);
}

#[test]
fn sequential_decomposition_pair() {
    let a = patterned_block(11);
    let b = patterned_block(12);
    let mut by_pair = arbitrary_state();
    compress_pair_wide(&mut by_pair, &a, &b);

    let mut step_by_step = arbitrary_state();
    compress_scalar(&mut step_by_step, &[a]);
    compress_scalar(&mut step_by_step, &[b]);
    assert_eq!(by_pair, step_by_step);
}

#[test]
fn odd_count_three_blocks() {
    let a = patterned_block(21);
    let b = patterned_block(22);
    let c = patterned_block(23);
    let mut by_wide = arbitrary_state();
    compress_gated(&mut by_wide, &[a, b, c], true);

    let mut step_by_step = arbitrary_state();
    compress_block_scalar(&mut step_by_step, &a);
    compress_block_scalar(&mut step_by_step, &b);
    compress_block_scalar(&mut step_by_step, &c);
    assert_eq!(by_wide, step_by_step);
}

#[test]
fn abc_known_vector() {
    let mut state = iv();
    compress(&mut state, &[abc_block()]);
    assert_eq!(state[0], 0xddaf35a193617aba);
    assert_eq!(state[1], 0xcc417349ae204131);
}

#[test]
fn abc_known_vector_every_strategy() {
    let block = abc_block();

    let mut by_scalar = iv();
    compress_block_scalar(&mut by_scalar, &block);
    assert_eq!(by_scalar[0], 0xddaf35a193617aba);
    assert_eq!(by_scalar[1], 0xcc417349ae204131);

    let mut by_narrow = iv();
    compress_block_narrow(&mut by_narrow, &block);
    assert_eq!(by_narrow, by_scalar);
}

#[test]
fn two_block_known_vector() {
    // The standard 896-bit test message: fourteen 8-letter runs, each
    // starting one letter later.  Padded, it spans exactly two blocks,
    // so the pair path applies both with chaining in between.
    let mut first = [0u8; 128];
    let mut i: usize = 0;
    while i < 14 {
        let mut j: usize = 0;
        while j < 8 {
            first[8 * i + j] = b'a' + (i + j) as u8;
            j += 1;
        }
        i += 1;
    }
    first[112] = 0x80;
    let mut second = [0u8; 128];
    second[126] = 0x03;
    second[127] = 0x80;

    let expected: [u64; 8] = [
        0x8e959b75dae313da,
        0x8cf4f72814fc143f,
        0x8f7779c6eb9f7fa1,
        0x7299aeadb6889018,
        0x501d289e4900f7e4,
        0x331b99dec4b5433a,
        0xc7d329eeb6dd2654,
        0x5e96e55b874be909,
    ];

    let mut state = iv();
    compress(&mut state, &[first, second]);
    assert_eq!(state, expected);

    let mut by_pair = iv();
    compress_pair_wide(&mut by_pair, &first, &second);
    assert_eq!(by_pair, expected);

    let mut by_scalar = iv();
    compress_scalar(&mut by_scalar, &[first, second]);
    assert_eq!(by_scalar, expected);
}

#[test]
fn k_table_sanity() {
    let k = k_table();
    assert_eq!(k.len(), 80);
    assert_eq!(k[0], 0x428a2f98d728ae22);
    assert_eq!(k[79], 0x6c44198c4a475817);
}
