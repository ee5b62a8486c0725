//! Shared executable primitives: the word functions, one state round,
//! block loading, the tail rounds over the circular schedule, and the
//! accumulation of a working copy back into the state.

use vstd::prelude::*;

use crate::consts;
use crate::model;

verus! {

/// Right rotation of `x` by `n` bit positions.
fn rotr64(x: u64, n: u64) -> (r: u64)
    requires
        0 < n < 64,
    ensures
        r == model::rotr(x, n),
{
    (x >> n) | (x << (64 - n))
}

/// The Sigma0 function of the round.
pub(crate) fn big_sigma0(a: u64) -> (r: u64)
    ensures
        r == model::big_sigma0(a),
{
    rotr64(a, 28) ^ rotr64(a, 34) ^ rotr64(a, 39)
}

/// The Sigma1 function of the round.
pub(crate) fn big_sigma1(a: u64) -> (r: u64)
    ensures
        r == model::big_sigma1(a),
{
    rotr64(a, 14) ^ rotr64(a, 18) ^ rotr64(a, 41)
}

/// The sigma0 function of the schedule recurrence.
pub(crate) fn small_sigma0(a: u64) -> (r: u64)
    ensures
        r == model::small_sigma0(a),
{
    rotr64(a, 1) ^ rotr64(a, 8) ^ (a >> 7)
}

/// The sigma1 function of the schedule recurrence.
pub(crate) fn small_sigma1(a: u64) -> (r: u64)
    ensures
        r == model::small_sigma1(a),
{
    rotr64(a, 19) ^ rotr64(a, 61) ^ (a >> 6)
}

/// The choice function.
pub(crate) fn ch(a: u64, b: u64, c: u64) -> (r: u64)
    ensures
        r == model::ch(a, b, c),
{
    c ^ (a & (b ^ c))
}

/// The majority function.
pub(crate) fn maj(a: u64, b: u64, c: u64) -> (r: u64)
    ensures
        r == model::maj(a, b, c),
{
    (a & b) ^ (a & c) ^ (b & c)
}

/// One SHA-512 round applied to the 8-word working state `s`, consuming
/// the schedule word `x` (round constant already added).
pub(crate) fn sha_round(s: &mut [u64; 8], x: u64)
    ensures
        final(s)@ == model::round_step(old(s)@, x),
{
    let t = x.wrapping_add(s[7]).wrapping_add(big_sigma1(s[4])).wrapping_add(
        ch(s[4], s[5], s[6]),
    );
    let n0 = t.wrapping_add(big_sigma0(s[0])).wrapping_add(maj(s[0], s[1], s[2]));
    let n4 = s[3].wrapping_add(t);
    *s = [n0, s[0], s[1], s[2], n4, s[4], s[5], s[6]];
    proof {
        assert(s@ =~= model::round_step(old(s)@, x));
    }
}

/// Reads the 16 big-endian words of a 128-byte block.
pub(crate) fn load_block_words(block: &[u8; 128]) -> (w: [u64; 16])
    ensures
        w@ == model::block_words(block@),
{
    let mut w: [u64; 16] = [0u64; 16];
    let mut j: usize = 0;
    while j < 16
        invariant
            0 <= j <= 16,
            forall|t: int| 0 <= t < j ==> w@[t] == model::be_word(block@, t),
        decreases 16 - j,
    {
        let v = ((block[8 * j] as u64) << 56) | ((block[8 * j + 1] as u64) << 48) | ((block[8 * j
            + 2] as u64) << 40) | ((block[8 * j + 3] as u64) << 32) | ((block[8 * j + 4] as u64)
            << 24) | ((block[8 * j + 5] as u64) << 16) | ((block[8 * j + 6] as u64) << 8) | (
        block[8 * j + 7] as u64);
        w[j] = v;
        j += 1;
    }
    proof {
        assert(w@ =~= model::block_words(block@));
    }
    w
}

/// Rounds 64 to 79, which reuse the 16-word schedule buffer circularly:
/// round `i` consumes slot `i % 16`, where expansion left schedule word
/// `i` with its constant added.
pub(crate) fn rounds_64_79(
    cur: &mut [u64; 8],
    ms: &[u64; 16],
    Ghost(s0): Ghost<Seq<u64>>,
    Ghost(m): Ghost<Seq<u64>>,
)
    requires
        old(cur)@ == model::rounds(s0, m, 64),
        forall|t: int| 64 <= t < 80 ==> ms@[t % 16] == model::wadd(
            model::sched_word(m, t),
            consts::k_seq()[t],
        ),
    ensures
        final(cur)@ == model::rounds(s0, m, 80),
{
    let mut i: usize = 64;
    while i < 80
        invariant
            64 <= i <= 80,
            cur@ == model::rounds(s0, m, i as int),
            forall|t: int| 64 <= t < 80 ==> ms@[t % 16] == model::wadd(
                model::sched_word(m, t),
                consts::k_seq()[t],
            ),
        decreases 80 - i,
    {
        proof {
            assert(ms@[(i as int) % 16] == model::wadd(
                model::sched_word(m, i as int),
                consts::k_seq()[i as int],
            ));
        }
        sha_round(cur, ms[i % 16]);
        i += 1;
    }
}

/// The 80 rounds of the second block of a pair, consuming its fully
/// expanded 80-word schedule (round constants already added).
pub(crate) fn process_second_block(cur: &mut [u64; 8], t2: &[u64; 80], Ghost(m): Ghost<Seq<u64>>)
    requires
        forall|t: int| 0 <= t < 80 ==> t2@[t] == model::wadd(
            model::sched_word(m, t),
            consts::k_seq()[t],
        ),
    ensures
        final(cur)@ == model::rounds(old(cur)@, m, 80),
{
    let ghost s0 = old(cur)@;
    let mut i: usize = 0;
    while i < 80
        invariant
            0 <= i <= 80,
            cur@ == model::rounds(s0, m, i as int),
            forall|t: int| 0 <= t < 80 ==> t2@[t] == model::wadd(
                model::sched_word(m, t),
                consts::k_seq()[t],
            ),
        decreases 80 - i,
    {
        sha_round(cur, t2[i]);
        i += 1;
    }
}

/// Adds the finished working copy back into the running state, word by
/// word, modulo 2^64.
pub(crate) fn accumulate_state(dst: &mut [u64; 8], src: &[u64; 8])
    ensures
        final(dst)@ == model::acc8(old(dst)@, src@),
{
    let mut i: usize = 0;
    while i < 8
        invariant
            0 <= i <= 8,
            forall|t: int| 0 <= t < i ==> dst@[t] == model::wadd(old(dst)@[t], src@[t]),
            forall|t: int| i <= t < 8 ==> dst@[t] == old(dst)@[t],
        decreases 8 - i,
    {
        dst[i] = dst[i].wrapping_add(src[i]);
        i += 1;
    }
    proof {
        assert(dst@ =~= model::acc8(old(dst)@, src@));
    }
}

} // verus!
