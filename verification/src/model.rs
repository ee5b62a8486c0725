//! Mathematical model of the SHA-512 compression function.
//!
//! Every executable strategy in this crate is specified against the
//! functions here: `compress_block` says what one block does to the
//! state, and `compress_seq` folds a whole block sequence.  All word
//! arithmetic is modulo 2^64.

use vstd::prelude::*;

verus! {

/// Addition of 64-bit words modulo 2^64.
pub open spec fn wadd(a: u64, b: u64) -> u64 {
    vstd::wrapping::u64_specs::wrapping_add(a, b)
}

/// Right rotation of a 64-bit word by `n` bit positions.
pub open spec fn rotr(x: u64, n: u64) -> u64
    recommends
        0 < n < 64,
{
    (x >> n) | (x << ((64 - n) as u64))
}

/// The Sigma0 function of the SHA-512 round: rotations by 28, 34, 39.
pub open spec fn big_sigma0(a: u64) -> u64 {
    rotr(a, 28) ^ rotr(a, 34) ^ rotr(a, 39)
}

/// The Sigma1 function of the SHA-512 round: rotations by 14, 18, 41.
pub open spec fn big_sigma1(a: u64) -> u64 {
    rotr(a, 14) ^ rotr(a, 18) ^ rotr(a, 41)
}

/// The sigma0 function of the schedule recurrence: rotations by 1 and 8,
/// shift by 7.
pub open spec fn small_sigma0(a: u64) -> u64 {
    rotr(a, 1) ^ rotr(a, 8) ^ (a >> 7u64)
}

/// The sigma1 function of the schedule recurrence: rotations by 19 and 61,
/// shift by 6.
pub open spec fn small_sigma1(a: u64) -> u64 {
    rotr(a, 19) ^ rotr(a, 61) ^ (a >> 6u64)
}

/// The choice function: each bit of `a` selects the bit of `b` or of `c`.
pub open spec fn ch(a: u64, b: u64, c: u64) -> u64 {
    c ^ (a & (b ^ c))
}

/// The majority function over three words, bit by bit.
pub open spec fn maj(a: u64, b: u64, c: u64) -> u64 {
    (a & b) ^ (a & c) ^ (b & c)
}

/// One round of the SHA-512 state update.  `s` is the 8-word working
/// state and `x` the round's schedule word with its round constant
/// already added.
pub open spec fn round_step(s: Seq<u64>, x: u64) -> Seq<u64>
    recommends
        s.len() == 8,
{
    let t = wadd(wadd(wadd(x, s[7]), big_sigma1(s[4])), ch(s[4], s[5], s[6]));
    seq![
        wadd(wadd(t, big_sigma0(s[0])), maj(s[0], s[1], s[2])),
        s[0],
        s[1],
        s[2],
        wadd(s[3], t),
        s[4],
        s[5],
        s[6],
    ]
}

/// Word `i` of the message schedule derived from the 16 block words `m`:
/// the block words themselves for `i < 16`, and the sigma recurrence
/// beyond, in the association order the executable strategies use.
pub open spec fn sched_word(m: Seq<u64>, i: int) -> u64
    recommends
        m.len() == 16,
        0 <= i < 80,
    decreases i,
{
    if i < 16 {
        m[i]
    } else {
        wadd(
            wadd(
                wadd(sched_word(m, i - 16), sched_word(m, i - 7)),
                small_sigma0(sched_word(m, i - 15)),
            ),
            small_sigma1(sched_word(m, i - 2)),
        )
    }
}

/// The working state after the first `n` rounds over the schedule of `m`,
/// starting from `s`.  Round `i` consumes `sched_word(m, i)` plus the
/// round constant `K[i]`.
pub open spec fn rounds(s: Seq<u64>, m: Seq<u64>, n: int) -> Seq<u64>
    recommends
        s.len() == 8,
        m.len() == 16,
        0 <= n <= 80,
    decreases n,
{
    if n <= 0 {
        s
    } else {
        round_step(rounds(s, m, n - 1), wadd(sched_word(m, n - 1), crate::consts::k_seq()[n - 1]))
    }
}

/// Pointwise addition modulo 2^64 of two 8-word states.
pub open spec fn acc8(a: Seq<u64>, b: Seq<u64>) -> Seq<u64>
    recommends
        a.len() == 8,
        b.len() == 8,
{
    Seq::new(8, |i: int| wadd(a[i], b[i]))
}

/// Word `j` of a 128-byte block, read big-endian.
pub open spec fn be_word(b: Seq<u8>, j: int) -> u64
    recommends
        b.len() == 128,
        0 <= j < 16,
{
    ((b[8 * j] as u64) << 56u64) | ((b[8 * j + 1] as u64) << 48u64) | ((b[8 * j + 2] as u64)
        << 40u64) | ((b[8 * j + 3] as u64) << 32u64) | ((b[8 * j + 4] as u64) << 24u64) | ((b[8 * j
        + 5] as u64) << 16u64) | ((b[8 * j + 6] as u64) << 8u64) | (b[8 * j + 7] as u64)
}

/// The 16 big-endian words of a 128-byte block.
pub open spec fn block_words(b: Seq<u8>) -> Seq<u64>
    recommends
        b.len() == 128,
{
    Seq::new(16, |j: int| be_word(b, j))
}

/// What compressing one 128-byte block does to an 8-word state: run the
/// 80 rounds from `s` and add the result back into `s` word by word.
pub open spec fn compress_block(s: Seq<u64>, b: Seq<u8>) -> Seq<u64>
    recommends
        s.len() == 8,
        b.len() == 128,
{
    acc8(s, rounds(s, block_words(b), 80))
}

/// What compressing a sequence of blocks does to the state: fold
/// `compress_block` over the blocks in order.  The empty sequence leaves
/// the state unchanged.
pub open spec fn compress_seq(s: Seq<u64>, blocks: Seq<Seq<u8>>) -> Seq<u64>
    decreases blocks.len(),
{
    if blocks.len() == 0 {
        s
    } else {
        compress_seq(compress_block(s, blocks[0]), blocks.drop_first())
    }
}

/// The byte sequences of a sequence of 128-byte blocks.
pub open spec fn block_views(blocks: Seq<[u8; 128]>) -> Seq<Seq<u8>> {
    blocks.map_values(|blk: [u8; 128]| blk@)
}

/// Appending one block to a sequence compresses the sequence first and
/// the new block last.
pub proof fn lemma_compress_seq_snoc(s: Seq<u64>, blocks: Seq<Seq<u8>>, b: Seq<u8>)
    ensures
        compress_seq(s, blocks.push(b)) == compress_block(compress_seq(s, blocks), b),
    decreases blocks.len(),
{
    let whole = blocks.push(b);
    if blocks.len() == 0 {
        assert(whole[0] == b);
        assert(whole.drop_first() =~= Seq::<Seq<u8>>::empty());
        assert(compress_seq(s, whole) == compress_seq(compress_block(s, b), whole.drop_first()));
        assert(compress_seq(compress_block(s, b), whole.drop_first()) == compress_block(s, b));
        assert(compress_seq(s, blocks) == s);
    } else {
        assert(whole[0] == blocks[0]);
        assert(whole.drop_first() =~= blocks.drop_first().push(b));
        assert(compress_seq(s, whole) == compress_seq(
            compress_block(s, blocks[0]),
            blocks.drop_first().push(b),
        ));
        lemma_compress_seq_snoc(compress_block(s, blocks[0]), blocks.drop_first(), b);
        assert(compress_seq(s, blocks) == compress_seq(
            compress_block(s, blocks[0]),
            blocks.drop_first(),
        ));
    }
}

/// Sequential decomposition: compressing a concatenation of two block
/// sequences equals compressing the first and then the second from the
/// state the first produced.  Batched strategies may parallelize schedule
/// computation, but block application always composes this way.
pub proof fn lemma_sequential_decomposition(s: Seq<u64>, bs1: Seq<Seq<u8>>, bs2: Seq<Seq<u8>>)
    ensures
        compress_seq(s, bs1 + bs2) == compress_seq(compress_seq(s, bs1), bs2),
    decreases bs1.len(),
{
    if bs1.len() == 0 {
        assert(bs1 + bs2 =~= bs2);
    } else {
        assert((bs1 + bs2)[0] == bs1[0]);
        assert((bs1 + bs2).drop_first() =~= bs1.drop_first() + bs2);
        lemma_sequential_decomposition(compress_block(s, bs1[0]), bs1.drop_first(), bs2);
    }
}

/// Compressing the empty block sequence is the identity on the state.
pub proof fn lemma_compress_empty(s: Seq<u64>)
    ensures
        compress_seq(s, Seq::<Seq<u8>>::empty()) == s,
{
}

/// Compressing three blocks applies them strictly in order: the first
/// alone, then the remaining pair.  This is the shape the dual-block
/// strategy takes on an odd block count.
pub proof fn lemma_odd_count(s: Seq<u64>, a: Seq<u8>, b: Seq<u8>, c: Seq<u8>)
    ensures
        compress_seq(s, seq![a, b, c]) == compress_seq(compress_seq(s, seq![a]), seq![b, c]),
        compress_seq(s, seq![a, b, c]) == compress_block(
            compress_block(compress_block(s, a), b),
            c,
        ),
{
    assert(seq![a] + seq![b, c] =~= seq![a, b, c]);
    lemma_sequential_decomposition(s, seq![a], seq![b, c]);
    lemma_compress_seq_snoc(s, seq![a, b], c);
    lemma_compress_seq_snoc(s, seq![a], b);
    lemma_compress_seq_snoc(s, seq![], a);
    assert(seq![a, b].push(c) =~= seq![a, b, c]);
    assert(seq![a].push(b) =~= seq![a, b]);
    assert(Seq::<Seq<u8>>::empty().push(a) =~= seq![a]);
}

/// The first schedule index still live in the 16-word circular buffer
/// when round `i` is about to run: the buffer holds words
/// `window_lo(i) .. window_lo(i) + 16`.
pub open spec fn window_lo(i: int) -> int {
    if i < 16 {
        0
    } else {
        i - 16
    }
}

/// Two schedule indices less than 16 apart never share a slot of a
/// 16-word circular buffer.
pub proof fn lemma_mod16_distinct(i: int, t: int)
    by (nonlinear_arith)
    requires
        0 <= t < i,
        i < t + 16,
    ensures
        t % 16 != i % 16,
{
}

/// Stepping a schedule index by 16 lands on the same slot of a 16-word
/// circular buffer.
pub proof fn lemma_mod16_step(i: int)
    by (nonlinear_arith)
    requires
        16 <= i,
    ensures
        (i - 16) % 16 == i % 16,
{
}

/// Determinism: the compressed state is a function of the starting state
/// and the blocks alone.
pub proof fn lemma_deterministic(
    s1: Seq<u64>,
    s2: Seq<u64>,
    blocks1: Seq<Seq<u8>>,
    blocks2: Seq<Seq<u8>>,
)
    requires
        s1 == s2,
        blocks1 == blocks2,
    ensures
        compress_seq(s1, blocks1) == compress_seq(s2, blocks2),
{
}

} // verus!
