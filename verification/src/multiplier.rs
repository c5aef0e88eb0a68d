//! Rate multipliers and the randomised rounding that applies them.
//!
//! A multiplier is a non-negative fixed-point number with six decimal
//! places. Applying one to an integer base gives a product that is rarely an
//! integer; the rounding policy turns it into one by rounding up with a
//! probability equal to the multiplier's fractional part, and down otherwise.

use crate::random::draw_in_range;
use vstd::prelude::*;

verus! {

/// How many units of `Multiplier::millionths` make 1.0.
pub const SCALE: u64 = 1_000_000;

/// A non-negative rate, counted in millionths: 1.0 is `SCALE`, 1.25 is 1_250_000.
#[derive(Debug, Copy, Clone, PartialEq, Eq, Hash, Structural)]
pub struct Multiplier {
    pub millionths: u64,
}

/// The natural number `n`, held at `u64::MAX` where it would not fit.
pub open spec fn capped(n: nat) -> u64 {
    if n <= u64::MAX {
        n as u64
    } else {
        u64::MAX
    }
}

impl Multiplier {
    /// The part of the multiplier after the decimal point, in millionths.
    pub open spec fn fraction(self) -> nat {
        self.millionths as nat % SCALE as nat
    }

    /// `base` times the multiplier, in millionths. Exact.
    pub open spec fn product(self, base: u64) -> nat {
        base as nat * self.millionths as nat
    }

    /// `base` times the multiplier, rounded down to an integer.
    pub open spec fn floor(self, base: u64) -> nat {
        self.product(base) / SCALE as nat
    }

    /// `base` times the multiplier, rounded up to an integer.
    pub open spec fn ceil(self, base: u64) -> nat {
        if self.product(base) % SCALE as nat == 0 {
            self.floor(base)
        } else {
            self.floor(base) + 1
        }
    }

    /// The rounding policy for one draw from `0..SCALE`: up when the draw
    /// falls below the fractional part of the multiplier, down otherwise.
    /// A result that does not fit in a `u64` is held at `u64::MAX`.
    pub open spec fn rounded(self, base: u64, draw: u64) -> u64 {
        if draw < self.fraction() {
            capped(self.ceil(base))
        } else {
            capped(self.floor(base))
        }
    }

    /// Whether the rounding policy can return `outcome` for some draw.
    pub open spec fn may_round_to(self, base: u64, outcome: u64) -> bool {
        exists|draw: u64| draw < SCALE && outcome == #[trigger] self.rounded(base, draw)
    }

    /// The product of two multipliers, rounded down to a millionth and held
    /// at the largest multiplier where it would not fit.
    pub open spec fn times(self, factor: Multiplier) -> Multiplier {
        Multiplier {
            millionths: capped(self.millionths as nat * factor.millionths as nat / SCALE as nat),
        }
    }

    /// The multiplier 1.0.
    pub fn one() -> (unit: Multiplier)
        ensures
            unit.millionths == SCALE,
    {
        Multiplier { millionths: SCALE }
    }

    /// Multiplies two rates.
    pub fn scaled(self, factor: Multiplier) -> (scaled: Multiplier)
        ensures
            scaled == self.times(factor),
    {
        assert(self.millionths as nat * factor.millionths as nat <= u64::MAX as nat
            * u64::MAX as nat) by (nonlinear_arith);
        let wide: u128 = self.millionths as u128 * factor.millionths as u128;
        let quotient: u128 = wide / SCALE as u128;
        if quotient > u64::MAX as u128 {
            Multiplier { millionths: u64::MAX }
        } else {
            Multiplier { millionths: quotient as u64 }
        }
    }

    /// Applies the multiplier to `base` and rounds by the given draw: see `rounded`.
    pub fn round_with_draw(self, base: u64, draw: u64) -> (outcome: u64)
        ensures
            outcome == self.rounded(base, draw),
    {
        assert(base as nat * self.millionths as nat <= u64::MAX as nat * u64::MAX as nat)
            by (nonlinear_arith);
        let wide: u128 = base as u128 * self.millionths as u128;
        let floor: u128 = wide / SCALE as u128;
        let exact: bool = wide % SCALE as u128 == 0;
        let up: bool = draw < self.millionths % SCALE;
        let value: u128 = if up && !exact {
            floor + 1
        } else {
            floor
        };
        if value > u64::MAX as u128 {
            u64::MAX
        } else {
            value as u64
        }
    }
}

/// What the rounding policy can return: the product rounded down, or, when
/// the multiplier has a fractional part, the product rounded up.
pub proof fn lemma_rounding_outcomes(multiplier: Multiplier, base: u64, outcome: u64)
    ensures
        multiplier.may_round_to(base, outcome) <==> (outcome == capped(multiplier.floor(base)) || (
        multiplier.fraction() > 0 && outcome == capped(multiplier.ceil(base)))),
{
    if outcome == capped(multiplier.floor(base)) {
        assert(outcome == multiplier.rounded(base, (SCALE - 1) as u64));
    }
    if multiplier.fraction() > 0 && outcome == capped(multiplier.ceil(base)) {
        assert(outcome == multiplier.rounded(base, 0));
    }
}

/// Multiply the base by the multiplier and round up or down at random.
/// Rounds up with a probability equal to the fractional part of the
/// multiplier, so that a click multiplier of 1.25 gives two clicks one time
/// in four.
pub fn rand_round(base: u64, multiplier: Multiplier) -> (outcome: u64)
    ensures
        multiplier.may_round_to(base, outcome),
{
    let draw: u64 = draw_in_range(0, SCALE);
    multiplier.round_with_draw(base, draw)
}

} // verus!
