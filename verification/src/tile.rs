//! Rows of map tiles.
use vstd::prelude::*;
use vstd::arithmetic::power2::{lemma2_to64, lemma_pow2_strictly_increases, pow2};
use vstd::bits::lemma_u64_shl_is_mul;

verus! {

/// The Mercator ordinate of a parallel, as a fraction of pi:
/// `numerator / denominator`, with a positive denominator.
#[derive(Debug, PartialEq, Eq, Clone, Copy, Structural)]
pub struct Ordinate {
    pub numerator: i64,
    pub denominator: i64,
}

/// The ordinate of the middle of row `y` of the tiles at zoom level `z`.
///
/// At zoom level `z` the map is `2^z` rows high. The middle of row `y` lies
/// `y + 1/2` rows below the top, at the ordinate `pi * (1 - 2 * (y + 1/2) / 2^z)`.
/// The zoom level must be below 32.
pub fn tile_ordinate(y: u32, z: u32) -> (r: Ordinate)
    requires
        z < 32,
    ensures
        r.denominator == pow2(z as nat),
        r.numerator == pow2(z as nat) - 2 * y - 1,
{
    let shift: u64 = z as u64;
    proof {
        lemma2_to64();
        if z < 31 {
            lemma_pow2_strictly_increases(z as nat, 31);
        }
        lemma_u64_shl_is_mul(1, shift);
    }
    let rows: u64 = 1u64 << shift;
    let denominator: i64 = rows as i64;
    let numerator: i64 = denominator - 2 * (y as i64) - 1;
    Ordinate { numerator, denominator }
}

} // verus!
