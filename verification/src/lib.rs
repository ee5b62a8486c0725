//! Verified SHA-512 compression core.
//!
//! The library folds 128-byte message blocks into a running 8-word hash
//! state, exactly as FIPS 180-4 prescribes.  Three interchangeable
//! strategies are provided: a scalar one (one schedule word per step), a
//! narrow batched one (two schedule words per step, one block at a time),
//! and a wide dual-block one (two schedule words per step for each of two
//! blocks at once).  Every strategy is proved to compute the same
//! mathematical function, `model::compress_seq`, so batching is a
//! performance transform and never a semantic one.

use vstd::prelude::*;

pub mod consts;
pub mod model;
mod ops;
pub mod narrow;
pub mod scalar;
pub mod wide;

verus! {

/// Compresses `blocks` into `state` in order, using the wide dual-block
/// strategy: an odd leading block through the narrow strategy, the rest
/// in pairs.  Zero blocks leave the state unchanged, and the result is a
/// function of `(state, blocks)` alone.
///
/// The batched strategies here are plain-word code and run on any
/// machine; a caller that carries a hardware-capability answer for lane
/// selection can use `compress_gated` instead, with the same contract.
pub fn compress(state: &mut [u64; 8], blocks: &[[u8; 128]])
    ensures
        final(state)@ == model::compress_seq(old(state)@, model::block_views(blocks@)),
{
    wide::compress_wide(state, blocks);
}

/// The capability-gated dispatcher: `wide_lanes` is the cached answer of
/// a one-time hardware probe, and selects the wide dual-block strategy
/// or the scalar fallback.  The answer never changes the resulting
/// state — only how it is computed.
pub fn compress_gated(state: &mut [u64; 8], blocks: &[[u8; 128]], wide_lanes: bool)
    ensures
        final(state)@ == model::compress_seq(old(state)@, model::block_views(blocks@)),
{
    if wide_lanes {
        wide::compress_wide(state, blocks);
    } else {
        scalar::compress_scalar(state, blocks);
    }
}

} // verus!
