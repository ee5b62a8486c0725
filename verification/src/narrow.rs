//! The narrow batched compression strategy: schedule expansion two
//! words per step over paired lanes, one block at a time, with the
//! rounds interleaved.  The lane pair is represented as two plain
//! words, so the batching is purely structural.

use vstd::prelude::*;

use crate::consts;
use crate::model;
use crate::ops;

verus! {

/// Compresses one 128-byte block into the state, narrow strategy: each
/// expansion step produces schedule words `c + 16` and `c + 17` from the
/// 16-word raw window while rounds `c` and `c + 1` run, keeping the
/// constant-added schedule in a 16-word circular buffer.
#[verifier::rlimit(60)]
pub fn compress_block_narrow(state: &mut [u64; 8], block: &[u8; 128])
    ensures
        final(state)@ == model::compress_block(old(state)@, block@),
{
    let k = consts::k_table();
    let mut x: [u64; 16] = ops::load_block_words(block);
    let ghost m = x@;
    let mut ms: [u64; 16] = [0u64; 16];
    let mut j: usize = 0;
    while j < 16
        invariant
            0 <= j <= 16,
            x@ == m,
            k@ == consts::k_seq(),
            forall|u: int| 0 <= u < j ==> ms@[u] == model::wadd(
                model::sched_word(m, u),
                consts::k_seq()[u],
            ),
        decreases 16 - j,
    {
        ms[j] = x[j].wrapping_add(k[j]);
        j += 1;
    }
    let mut cur: [u64; 8] = *state;
    let ghost s0 = state@;
    let mut t: usize = 0;
    while t < 32
        invariant
            0 <= t <= 32,
            k@ == consts::k_seq(),
            m == model::block_words(block@),
            cur@ == model::rounds(s0, m, 2 * (t as int)),
            forall|u: int| 2 * (t as int) <= u < 2 * (t as int) + 16 ==> x@[u % 16]
                == model::sched_word(m, u),
            forall|u: int| 2 * (t as int) <= u < 2 * (t as int) + 16 ==> ms@[u % 16]
                == model::wadd(model::sched_word(m, u), consts::k_seq()[u]),
        decreases 32 - t,
    {
        let c: usize = 2 * t;
        let ghost cc = c as int;
        proof {
            assert(x@[cc % 16] == model::sched_word(m, cc));
            assert(x@[(cc + 1) % 16] == model::sched_word(m, cc + 1));
            assert(x@[(cc + 2) % 16] == model::sched_word(m, cc + 2));
            assert(x@[(cc + 9) % 16] == model::sched_word(m, cc + 9));
            assert(x@[(cc + 10) % 16] == model::sched_word(m, cc + 10));
            assert(x@[(cc + 14) % 16] == model::sched_word(m, cc + 14));
            assert(x@[(cc + 15) % 16] == model::sched_word(m, cc + 15));
            assert(ms@[cc % 16] == model::wadd(model::sched_word(m, cc), consts::k_seq()[cc]));
            assert(ms@[(cc + 1) % 16] == model::wadd(
                model::sched_word(m, cc + 1),
                consts::k_seq()[cc + 1],
            ));
        }
        let w0 = x[c % 16].wrapping_add(x[(c + 9) % 16]).wrapping_add(
            ops::small_sigma0(x[(c + 1) % 16]),
        ).wrapping_add(ops::small_sigma1(x[(c + 14) % 16]));
        let w1 = x[(c + 1) % 16].wrapping_add(x[(c + 10) % 16]).wrapping_add(
            ops::small_sigma0(x[(c + 2) % 16]),
        ).wrapping_add(ops::small_sigma1(x[(c + 15) % 16]));
        proof {
            assert(w0 == model::sched_word(m, cc + 16));
            assert(w1 == model::sched_word(m, cc + 17));
        }
        ops::sha_round(&mut cur, ms[c % 16]);
        proof {
            assert(cur@ == model::rounds(s0, m, cc + 1));
        }
        ops::sha_round(&mut cur, ms[(c + 1) % 16]);
        proof {
            assert(cur@ == model::rounds(s0, m, cc + 2));
        }
        ms[c % 16] = w0.wrapping_add(k[c + 16]);
        ms[(c + 1) % 16] = w1.wrapping_add(k[c + 17]);
        x[c % 16] = w0;
        x[(c + 1) % 16] = w1;
        proof {
            model::lemma_mod16_step(cc + 16);
            model::lemma_mod16_step(cc + 17);
            assert forall|u: int| cc + 2 <= u < cc + 18 implies x@[u % 16] == model::sched_word(
                m,
                u,
            ) && ms@[u % 16] == model::wadd(model::sched_word(m, u), consts::k_seq()[u]) by {
                if u < cc + 16 {
                    model::lemma_mod16_distinct(cc + 16, u);
                    model::lemma_mod16_distinct(cc + 17, u);
                }
            }
        }
        t += 1;
    }
    ops::rounds_64_79(&mut cur, &ms, Ghost(s0), Ghost(m));
    ops::accumulate_state(state, &cur);
}

} // verus!
