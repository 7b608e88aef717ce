//! Units of distance and their size against the kilometre.
use vstd::prelude::*;

verus! {

/// The units in which a ruler can express distances.
#[derive(Debug, PartialEq, Eq, Clone, Copy, Structural)]
pub enum DistanceUnit {
    Kilometers,
    Miles,
    NauticalMiles,
    Meters,
    Yards,
    Feet,
    Inches,
}

/// A positive fraction, `numerator / denominator`.
#[derive(Debug, PartialEq, Eq, Clone, Copy, Structural)]
pub struct Ratio {
    pub numerator: u64,
    pub denominator: u64,
}

impl DistanceUnit {
    /// The length of one unit in tenths of a millimetre: a mile is 1609.344 m,
    /// a nautical mile 1852 m, a yard 0.9144 m, a foot 0.3048 m and an inch
    /// 0.0254 m.
    pub open spec fn length(self) -> int {
        match self {
            DistanceUnit::Kilometers => 10_000_000,
            DistanceUnit::Miles => 16_093_440,
            DistanceUnit::NauticalMiles => 18_520_000,
            DistanceUnit::Meters => 10_000,
            DistanceUnit::Yards => 9_144,
            DistanceUnit::Feet => 3_048,
            DistanceUnit::Inches => 254,
        }
    }

    /// How many of this unit make a kilometre, in lowest terms.
    pub open spec fn per_kilometer(self) -> Ratio {
        match self {
            DistanceUnit::Kilometers => Ratio { numerator: 1, denominator: 1 },
            DistanceUnit::Miles => Ratio { numerator: 15_625, denominator: 25_146 },
            DistanceUnit::NauticalMiles => Ratio { numerator: 250, denominator: 463 },
            DistanceUnit::Meters => Ratio { numerator: 1_000, denominator: 1 },
            DistanceUnit::Yards => Ratio { numerator: 1_250_000, denominator: 1_143 },
            DistanceUnit::Feet => Ratio { numerator: 1_250_000, denominator: 381 },
            DistanceUnit::Inches => Ratio { numerator: 5_000_000, denominator: 127 },
        }
    }

    /// The factor that turns a number of kilometres into a number of this unit.
    pub fn conversion_factor_kilometers(&self) -> (r: Ratio)
        ensures
            r == self.per_kilometer(),
            r.numerator > 0,
            r.denominator > 0,
            r.numerator * self.length() == 10_000_000 * r.denominator,
    {
        match self {
            DistanceUnit::Kilometers => Ratio { numerator: 1, denominator: 1 },
            DistanceUnit::Miles => Ratio { numerator: 15_625, denominator: 25_146 },
            DistanceUnit::NauticalMiles => Ratio { numerator: 250, denominator: 463 },
            DistanceUnit::Meters => Ratio { numerator: 1_000, denominator: 1 },
            DistanceUnit::Yards => Ratio { numerator: 1_250_000, denominator: 1_143 },
            DistanceUnit::Feet => Ratio { numerator: 1_250_000, denominator: 381 },
            DistanceUnit::Inches => Ratio { numerator: 5_000_000, denominator: 127 },
        }
    }
}

/// A distance counted in one unit is the same distance counted in another,
/// scaled by the quotient of the two units' lengths: the factors of two units
/// stand in the inverse proportion of their lengths.
pub proof fn factors_follow_lengths(from: DistanceUnit, to: DistanceUnit)
    ensures
        to.per_kilometer().numerator * from.per_kilometer().denominator * to.length()
            == from.per_kilometer().numerator * to.per_kilometer().denominator * from.length(),
{
}

} // verus!
