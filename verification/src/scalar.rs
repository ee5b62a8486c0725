//! The scalar compression strategy: one schedule word produced and one
//! round run per step, a block at a time.  It is the reference strategy
//! the batched ones are measured against; all of them meet the same
//! contract, `model::compress_seq`.

use vstd::prelude::*;

use crate::consts;
use crate::model;
use crate::ops;

verus! {

/// Compresses one 128-byte block into the state, scalar strategy.  The
/// schedule lives in a 16-word circular buffer: from round 16 on, the
/// slot of the word consumed 16 rounds ago receives the new word.
pub fn compress_block_scalar(state: &mut [u64; 8], block: &[u8; 128])
    ensures
        final(state)@ == model::compress_block(old(state)@, block@),
{
    let k = consts::k_table();
    let mut ws: [u64; 16] = ops::load_block_words(block);
    let ghost m = ws@;
    let mut cur: [u64; 8] = *state;
    let ghost s0 = state@;
    let mut i: usize = 0;
    proof {
        assert(m == model::block_words(block@));
    }
    while i < 80
        invariant
            0 <= i <= 80,
            k@ == consts::k_seq(),
            m == model::block_words(block@),
            cur@ == model::rounds(s0, m, i as int),
            forall|t: int|
                model::window_lo(i as int) <= t < model::window_lo(i as int) + 16
                    ==> ws@[t % 16] == model::sched_word(m, t),
        decreases 80 - i,
    {
        let ghost ii = i as int;
        if i >= 16 {
            proof {
                model::lemma_mod16_step(ii);
                assert(ws@[(ii - 16) % 16] == model::sched_word(m, ii - 16));
                assert(ws@[(ii - 7) % 16] == model::sched_word(m, ii - 7));
                assert(ws@[(ii - 15) % 16] == model::sched_word(m, ii - 15));
                assert(ws@[(ii - 2) % 16] == model::sched_word(m, ii - 2));
            }
            let wn = ws[(i - 16) % 16].wrapping_add(ws[(i - 7) % 16]).wrapping_add(
                ops::small_sigma0(ws[(i - 15) % 16]),
            ).wrapping_add(ops::small_sigma1(ws[(i - 2) % 16]));
            proof {
                assert(wn == model::sched_word(m, ii));
            }
            ws[(i - 16) % 16] = wn;
            proof {
                assert forall|t: int| ii - 15 <= t <= ii implies ws@[t % 16] == model::sched_word(
                    m,
                    t,
                ) by {
                    if t < ii {
                        model::lemma_mod16_distinct(ii, t);
                    }
                }
            }
        }
        proof {
            assert(ws@[ii % 16] == model::sched_word(m, ii));
        }
        let x = ws[i % 16].wrapping_add(k[i]);
        ops::sha_round(&mut cur, x);
        i += 1;
    }
    ops::accumulate_state(state, &cur);
}

/// Compresses a sequence of 128-byte blocks into the state, block by
/// block in order, with the scalar strategy.  Zero blocks leave the
/// state untouched.
pub fn compress_scalar(state: &mut [u64; 8], blocks: &[[u8; 128]])
    ensures
        final(state)@ == model::compress_seq(old(state)@, model::block_views(blocks@)),
{
    let ghost s0 = state@;
    proof {
        assert(model::block_views(blocks@.take(0)) =~= Seq::<Seq<u8>>::empty());
    }
    let mut i: usize = 0;
    while i < blocks.len()
        invariant
            0 <= i <= blocks@.len(),
            state@ == model::compress_seq(s0, model::block_views(blocks@.take(i as int))),
        decreases blocks@.len() - i,
    {
        let ghost ii = i as int;
        compress_block_scalar(state, &blocks[i]);
        proof {
            assert(model::block_views(blocks@.take(ii + 1)) =~= model::block_views(
                blocks@.take(ii),
            ).push(blocks@[ii]@));
            model::lemma_compress_seq_snoc(s0, model::block_views(blocks@.take(ii)), blocks@[ii]@);
        }
        i += 1;
    }
    proof {
        assert(blocks@.take(blocks@.len() as int) =~= blocks@);
    }
}

} // verus!
