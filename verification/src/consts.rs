//! The SHA-512 round constants: the 80 64-bit words of FIPS 180-4,
//! the fractional parts of the cube roots of the first 80 primes.
//!
//! Hardware-register implementations sometimes keep a second,
//! lane-replicated copy of this table so a wide addition needs no
//! re-layout; here the lanes are plain words, so the one table serves
//! every strategy.

use vstd::prelude::*;

verus! {

/// The round-constant table as a sequence: `k_seq()[i]` is the constant
/// mixed into round `i`.
pub open spec fn k_seq() -> Seq<u64> {
    seq![
        0x428a2f98d728ae22u64,
        0x7137449123ef65cdu64,
        0xb5c0fbcfec4d3b2fu64,
        0xe9b5dba58189dbbcu64,
        0x3956c25bf348b538u64,
        0x59f111f1b605d019u64,
        0x923f82a4af194f9bu64,
        0xab1c5ed5da6d8118u64,
        0xd807aa98a3030242u64,
        0x12835b0145706fbeu64,
        0x243185be4ee4b28cu64,
        0x550c7dc3d5ffb4e2u64,
        0x72be5d74f27b896fu64,
        0x80deb1fe3b1696b1u64,
        0x9bdc06a725c71235u64,
        0xc19bf174cf692694u64,
        0xe49b69c19ef14ad2u64,
        0xefbe4786384f25e3u64,
        0x0fc19dc68b8cd5b5u64,
        0x240ca1cc77ac9c65u64,
        0x2de92c6f592b0275u64,
        0x4a7484aa6ea6e483u64,
        0x5cb0a9dcbd41fbd4u64,
        0x76f988da831153b5u64,
        0x983e5152ee66dfabu64,
        0xa831c66d2db43210u64,
        0xb00327c898fb213fu64,
        0xbf597fc7beef0ee4u64,
        0xc6e00bf33da88fc2u64,
        0xd5a79147930aa725u64,
        0x06ca6351e003826fu64,
        0x142929670a0e6e70u64,
        0x27b70a8546d22ffcu64,
        0x2e1b21385c26c926u64,
        0x4d2c6dfc5ac42aedu64,
        0x53380d139d95b3dfu64,
        0x650a73548baf63deu64,
        0x766a0abb3c77b2a8u64,
        0x81c2c92e47edaee6u64,
        0x92722c851482353bu64,
        0xa2bfe8a14cf10364u64,
        0xa81a664bbc423001u64,
        0xc24b8b70d0f89791u64,
        0xc76c51a30654be30u64,
        0xd192e819d6ef5218u64,
        0xd69906245565a910u64,
        0xf40e35855771202au64,
        0x106aa07032bbd1b8u64,
        0x19a4c116b8d2d0c8u64,
        0x1e376c085141ab53u64,
        0x2748774cdf8eeb99u64,
        0x34b0bcb5e19b48a8u64,
        0x391c0cb3c5c95a63u64,
        0x4ed8aa4ae3418acbu64,
        0x5b9cca4f7763e373u64,
        0x682e6ff3d6b2b8a3u64,
        0x748f82ee5defb2fcu64,
        0x78a5636f43172f60u64,
        0x84c87814a1f0ab72u64,
        0x8cc702081a6439ecu64,
        0x90befffa23631e28u64,
        0xa4506cebde82bde9u64,
        0xbef9a3f7b2c67915u64,
        0xc67178f2e372532bu64,
        0xca273eceea26619cu64,
        0xd186b8c721c0c207u64,
        0xeada7dd6cde0eb1eu64,
        0xf57d4f7fee6ed178u64,
        0x06f067aa72176fbau64,
        0x0a637dc5a2c898a6u64,
        0x113f9804bef90daeu64,
        0x1b710b35131c471bu64,
        0x28db77f523047d84u64,
        0x32caab7b40c72493u64,
        0x3c9ebe0a15c9bebcu64,
        0x431d67c49c100d4cu64,
        0x4cc5d4becb3e42b6u64,
        0x597f299cfc657e2au64,
        0x5fcb6fab3ad6faecu64,
        0x6c44198c4a475817u64,
    ]
}

/// The round-constant table as a value: exactly the 80 entries of
/// `k_seq`, for the executable strategies to read.
#[verifier::rlimit(100)]
pub fn k_table() -> (k: [u64; 80])
    ensures
        k@ == k_seq(),
        k@.len() == 80,
{
    let k: [u64; 80] = [
        0x428a2f98d728ae22u64,
        0x7137449123ef65cdu64,
        0xb5c0fbcfec4d3b2fu64,
        0xe9b5dba58189dbbcu64,
        0x3956c25bf348b538u64,
        0x59f111f1b605d019u64,
        0x923f82a4af194f9bu64,
        0xab1c5ed5da6d8118u64,
        0xd807aa98a3030242u64,
        0x12835b0145706fbeu64,
        0x243185be4ee4b28cu64,
        0x550c7dc3d5ffb4e2u64,
        0x72be5d74f27b896fu64,
        0x80deb1fe3b1696b1u64,
        0x9bdc06a725c71235u64,
        0xc19bf174cf692694u64,
        0xe49b69c19ef14ad2u64,
        0xefbe4786384f25e3u64,
        0x0fc19dc68b8cd5b5u64,
        0x240ca1cc77ac9c65u64,
        0x2de92c6f592b0275u64,
        0x4a7484aa6ea6e483u64,
        0x5cb0a9dcbd41fbd4u64,
        0x76f988da831153b5u64,
        0x983e5152ee66dfabu64,
        0xa831c66d2db43210u64,
        0xb00327c898fb213fu64,
        0xbf597fc7beef0ee4u64,
        0xc6e00bf33da88fc2u64,
        0xd5a79147930aa725u64,
        0x06ca6351e003826fu64,
        0x142929670a0e6e70u64,
        0x27b70a8546d22ffcu64,
        0x2e1b21385c26c926u64,
        0x4d2c6dfc5ac42aedu64,
        0x53380d139d95b3dfu64,
        0x650a73548baf63deu64,
        0x766a0abb3c77b2a8u64,
        0x81c2c92e47edaee6u64,
        0x92722c851482353bu64,
        0xa2bfe8a14cf10364u64,
        0xa81a664bbc423001u64,
        0xc24b8b70d0f89791u64,
        0xc76c51a30654be30u64,
        0xd192e819d6ef5218u64,
        0xd69906245565a910u64,
        0xf40e35855771202au64,
        0x106aa07032bbd1b8u64,
        0x19a4c116b8d2d0c8u64,
        0x1e376c085141ab53u64,
        0x2748774cdf8eeb99u64,
        0x34b0bcb5e19b48a8u64,
        0x391c0cb3c5c95a63u64,
        0x4ed8aa4ae3418acbu64,
        0x5b9cca4f7763e373u64,
        0x682e6ff3d6b2b8a3u64,
        0x748f82ee5defb2fcu64,
        0x78a5636f43172f60u64,
        0x84c87814a1f0ab72u64,
        0x8cc702081a6439ecu64,
        0x90befffa23631e28u64,
        0xa4506cebde82bde9u64,
        0xbef9a3f7b2c67915u64,
        0xc67178f2e372532bu64,
        0xca273eceea26619cu64,
        0xd186b8c721c0c207u64,
        0xeada7dd6cde0eb1eu64,
        0xf57d4f7fee6ed178u64,
        0x06f067aa72176fbau64,
        0x0a637dc5a2c898a6u64,
        0x113f9804bef90daeu64,
        0x1b710b35131c471bu64,
        0x28db77f523047d84u64,
        0x32caab7b40c72493u64,
        0x3c9ebe0a15c9bebcu64,
        0x431d67c49c100d4cu64,
        0x4cc5d4becb3e42b6u64,
        0x597f299cfc657e2au64,
        0x5fcb6fab3ad6faecu64,
        0x6c44198c4a475817u64,
    ];
    proof {
        assert(k@ =~= k_seq());
    }
    k
}

} // verus!
