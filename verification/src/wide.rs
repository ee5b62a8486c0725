//! The wide dual-block compression strategy: schedule expansion two
//! words per step for each of two blocks at once.  Each wide lane pair
//! carries one word position of block A beside the same position of
//! block B; A's words land in the live 16-word circular buffer while
//! B's land in an 80-word scratch, consumed only after A's rounds are
//! done.  Schedule computation is batched, block application stays
//! strictly sequential.

use vstd::prelude::*;

use crate::consts;
use crate::model;
use crate::narrow;
use crate::ops;

verus! {

/// Compresses the pair (`a`, `b`) into the state: both schedules are
/// expanded together, then `a` is applied, then `b` from the state `a`
/// produced — never from the pre-pair state.
#[verifier::rlimit(100)]
pub fn compress_pair_wide(state: &mut [u64; 8], a: &[u8; 128], b: &[u8; 128])
    ensures
        final(state)@ == model::compress_block(
            model::compress_block(old(state)@, a@),
            b@,
        ),
{
    let k = consts::k_table();
    let mut xa: [u64; 16] = ops::load_block_words(a);
    let mut xb: [u64; 16] = ops::load_block_words(b);
    let ghost ma = xa@;
    let ghost mb = xb@;
    let mut ms: [u64; 16] = [0u64; 16];
    let mut t2: [u64; 80] = [0u64; 80];
    let mut j: usize = 0;
    while j < 16
        invariant
            0 <= j <= 16,
            xa@ == ma,
            xb@ == mb,
            k@ == consts::k_seq(),
            forall|u: int| 0 <= u < j ==> ms@[u] == model::wadd(
                model::sched_word(ma, u),
                consts::k_seq()[u],
            ),
            forall|u: int| 0 <= u < j ==> t2@[u] == model::wadd(
                model::sched_word(mb, u),
                consts::k_seq()[u],
            ),
        decreases 16 - j,
    {
        ms[j] = xa[j].wrapping_add(k[j]);
        t2[j] = xb[j].wrapping_add(k[j]);
        j += 1;
    }
    let mut cur: [u64; 8] = *state;
    let ghost s0 = state@;
    let mut t: usize = 0;
    while t < 32
        invariant
            0 <= t <= 32,
            k@ == consts::k_seq(),
            ma == model::block_words(a@),
            mb == model::block_words(b@),
            cur@ == model::rounds(s0, ma, 2 * (t as int)),
            forall|u: int| 2 * (t as int) <= u < 2 * (t as int) + 16 ==> xa@[u % 16]
                == model::sched_word(ma, u),
            forall|u: int| 2 * (t as int) <= u < 2 * (t as int) + 16 ==> ms@[u % 16]
                == model::wadd(model::sched_word(ma, u), consts::k_seq()[u]),
            forall|u: int| 2 * (t as int) <= u < 2 * (t as int) + 16 ==> xb@[u % 16]
                == model::sched_word(mb, u),
            forall|u: int| 0 <= u < 2 * (t as int) + 16 ==> t2@[u] == model::wadd(
                model::sched_word(mb, u),
                consts::k_seq()[u],
            ),
        decreases 32 - t,
    {
        let c: usize = 2 * t;
        let ghost cc = c as int;
        proof {
            assert(xa@[cc % 16] == model::sched_word(ma, cc));
            assert(xa@[(cc + 1) % 16] == model::sched_word(ma, cc + 1));
            assert(xa@[(cc + 2) % 16] == model::sched_word(ma, cc + 2));
            assert(xa@[(cc + 9) % 16] == model::sched_word(ma, cc + 9));
            assert(xa@[(cc + 10) % 16] == model::sched_word(ma, cc + 10));
            assert(xa@[(cc + 14) % 16] == model::sched_word(ma, cc + 14));
            assert(xa@[(cc + 15) % 16] == model::sched_word(ma, cc + 15));
            assert(xb@[cc % 16] == model::sched_word(mb, cc));
            assert(xb@[(cc + 1) % 16] == model::sched_word(mb, cc + 1));
            assert(xb@[(cc + 2) % 16] == model::sched_word(mb, cc + 2));
            assert(xb@[(cc + 9) % 16] == model::sched_word(mb, cc + 9));
            assert(xb@[(cc + 10) % 16] == model::sched_word(mb, cc + 10));
            assert(xb@[(cc + 14) % 16] == model::sched_word(mb, cc + 14));
            assert(xb@[(cc + 15) % 16] == model::sched_word(mb, cc + 15));
            assert(ms@[cc % 16] == model::wadd(model::sched_word(ma, cc), consts::k_seq()[cc]));
            assert(ms@[(cc + 1) % 16] == model::wadd(
                model::sched_word(ma, cc + 1),
                consts::k_seq()[cc + 1],
            ));
        }
        let w0a = xa[c % 16].wrapping_add(xa[(c + 9) % 16]).wrapping_add(
            ops::small_sigma0(xa[(c + 1) % 16]),
        ).wrapping_add(ops::small_sigma1(xa[(c + 14) % 16]));
        let w1a = xa[(c + 1) % 16].wrapping_add(xa[(c + 10) % 16]).wrapping_add(
            ops::small_sigma0(xa[(c + 2) % 16]),
        ).wrapping_add(ops::small_sigma1(xa[(c + 15) % 16]));
        let w0b = xb[c % 16].wrapping_add(xb[(c + 9) % 16]).wrapping_add(
            ops::small_sigma0(xb[(c + 1) % 16]),
        ).wrapping_add(ops::small_sigma1(xb[(c + 14) % 16]));
        let w1b = xb[(c + 1) % 16].wrapping_add(xb[(c + 10) % 16]).wrapping_add(
            ops::small_sigma0(xb[(c + 2) % 16]),
        ).wrapping_add(ops::small_sigma1(xb[(c + 15) % 16]));
        proof {
            assert(w0a == model::sched_word(ma, cc + 16));
            assert(w1a == model::sched_word(ma, cc + 17));
            assert(w0b == model::sched_word(mb, cc + 16));
            assert(w1b == model::sched_word(mb, cc + 17));
        }
        ops::sha_round(&mut cur, ms[c % 16]);
        proof {
            assert(cur@ == model::rounds(s0, ma, cc + 1));
        }
        ops::sha_round(&mut cur, ms[(c + 1) % 16]);
        proof {
            assert(cur@ == model::rounds(s0, ma, cc + 2));
        }
        ms[c % 16] = w0a.wrapping_add(k[c + 16]);
        ms[(c + 1) % 16] = w1a.wrapping_add(k[c + 17]);
        xa[c % 16] = w0a;
        xa[(c + 1) % 16] = w1a;
        xb[c % 16] = w0b;
        xb[(c + 1) % 16] = w1b;
        t2[c + 16] = w0b.wrapping_add(k[c + 16]);
        t2[c + 17] = w1b.wrapping_add(k[c + 17]);
        proof {
            model::lemma_mod16_step(cc + 16);
            model::lemma_mod16_step(cc + 17);
            assert forall|u: int| cc + 2 <= u < cc + 18 implies xa@[u % 16] == model::sched_word(
                ma,
                u,
            ) && ms@[u % 16] == model::wadd(model::sched_word(ma, u), consts::k_seq()[u])
                && xb@[u % 16] == model::sched_word(mb, u) by {
                if u < cc + 16 {
                    model::lemma_mod16_distinct(cc + 16, u);
                    model::lemma_mod16_distinct(cc + 17, u);
                }
            }
        }
        t += 1;
    }
    ops::rounds_64_79(&mut cur, &ms, Ghost(s0), Ghost(ma));
    ops::accumulate_state(state, &cur);
    proof {
        assert(state@ == model::compress_block(s0, a@));
    }
    let mut cur2: [u64; 8] = *state;
    ops::process_second_block(&mut cur2, &t2, Ghost(mb));
    ops::accumulate_state(state, &cur2);
}

/// Compresses a sequence of blocks with the dual-block strategy: an odd
/// leading block goes through the narrow strategy, every remaining
/// consecutive pair through `compress_pair_wide`, in order.
pub fn compress_wide(state: &mut [u64; 8], blocks: &[[u8; 128]])
    ensures
        final(state)@ == model::compress_seq(old(state)@, model::block_views(blocks@)),
{
    let ghost s0 = state@;
    proof {
        assert(model::block_views(blocks@.take(0)) =~= Seq::<Seq<u8>>::empty());
    }
    let mut i: usize = 0;
    if blocks.len() % 2 == 1 {
        narrow::compress_block_narrow(state, &blocks[0]);
        i = 1;
        proof {
            assert(model::block_views(blocks@.take(1)) =~= Seq::<Seq<u8>>::empty().push(
                blocks@[0]@,
            ));
            model::lemma_compress_seq_snoc(s0, Seq::<Seq<u8>>::empty(), blocks@[0]@);
        }
    }
    while i < blocks.len()
        invariant
            0 <= i <= blocks@.len(),
            (blocks@.len() - i as int) % 2 == 0,
            state@ == model::compress_seq(s0, model::block_views(blocks@.take(i as int))),
        decreases blocks@.len() - i,
    {
        let ghost ii = i as int;
        compress_pair_wide(state, &blocks[i], &blocks[i + 1]);
        proof {
            assert(model::block_views(blocks@.take(ii + 1)) =~= model::block_views(
                blocks@.take(ii),
            ).push(blocks@[ii]@));
            assert(model::block_views(blocks@.take(ii + 2)) =~= model::block_views(
                blocks@.take(ii + 1),
            ).push(blocks@[ii + 1]@));
            model::lemma_compress_seq_snoc(s0, model::block_views(blocks@.take(ii)), blocks@[ii]@);
            model::lemma_compress_seq_snoc(
                s0,
                model::block_views(blocks@.take(ii + 1)),
                blocks@[ii + 1]@,
            );
        }
        i += 2;
    }
    proof {
        assert(blocks@.take(blocks@.len() as int) =~= blocks@);
    }
}

} // verus!
