//! Decimal fixed-point numbers.
use vstd::arithmetic::div_mod::lemma_fundamental_div_mod;
use vstd::arithmetic::div_mod::lemma_fundamental_div_mod_converse;
use vstd::prelude::*;

verus! {

/// Number of raw steps that make up one unit.
pub const SCALE: i64 = 1_000_000;

/// A decimal number with six fractional digits, held as a count of
/// millionths: `raw == 1_500_000` stands for 1.5.
#[derive(Clone, Copy, Debug, PartialEq, Eq, Structural)]
pub struct Fixed {
    pub raw: i64,
}

/// Quotient of `m` by a positive `d`, rounded towards negative infinity.
pub fn floor_div(m: i128, d: i128) -> (q: i128)
    requires
        d > 0,
    ensures
        q == m as int / d as int,
{
    if m >= 0 {
        m / d
    } else {
        let t: i128 = m / d;
        let r: i128 = m % d;
        proof {
            let n: int = -(m as int);
            lemma_fundamental_div_mod(n, d as int);
            assert(m as int == t * d + r && t * d <= t) by (nonlinear_arith)
                requires
                    n == d * (n / (d as int)) + n % (d as int),
                    t == -(n / (d as int)),
                    r == -(n % (d as int)),
                    m == -n,
                    n > 0,
                    d >= 1,
                    0 <= n % (d as int),
            ;
            if r == 0 {
                lemma_fundamental_div_mod_converse(m as int, d as int, t as int, 0);
            } else {
                assert(m as int == (t - 1) * d + (d + r)) by (nonlinear_arith)
                    requires
                        m as int == t * d + r,
                ;
                lemma_fundamental_div_mod_converse(m as int, d as int, t - 1, d + r);
            }
        }
        if r == 0 {
            t
        } else {
            t - 1
        }
    }
}

impl Fixed {
    /// The whole number `units`, if it can be held.
    pub fn from_units(units: i64) -> (r: Option<Fixed>)
        ensures
            r == if i64::MIN <= units * SCALE <= i64::MAX {
                Some(Fixed { raw: (units * SCALE) as i64 })
            } else {
                None
            },
    {
        match units.checked_mul(SCALE) {
            Some(raw) => Some(Fixed { raw }),
            None => None,
        }
    }

    /// Sum of two numbers, if it can be held.
    pub fn checked_add(self, rhs: Fixed) -> (r: Option<Fixed>)
        ensures
            r == Fixed::sum(self, rhs),
    {
        match self.raw.checked_add(rhs.raw) {
            Some(raw) => Some(Fixed { raw }),
            None => None,
        }
    }

    /// What [`Fixed::checked_add`] computes.
    pub open spec fn sum(a: Fixed, b: Fixed) -> Option<Fixed> {
        if i64::MIN <= a.raw + b.raw <= i64::MAX {
            Some(Fixed { raw: (a.raw + b.raw) as i64 })
        } else {
            None
        }
    }

    /// What [`Fixed::scaled`] computes: `self * num / den`, rounded down to
    /// the next millionth.
    pub open spec fn ratio(self, num: i64, den: i64) -> Option<Fixed> {
        let q = (self.raw * num) / (den as int);
        if i64::MIN <= q <= i64::MAX {
            Some(Fixed { raw: q as i64 })
        } else {
            None
        }
    }

    /// This number multiplied by the fraction `num / den`, rounded towards
    /// negative infinity, if the result can be held.
    pub fn scaled(self, num: i64, den: i64) -> (r: Option<Fixed>)
        requires
            den > 0,
        ensures
            r == self.ratio(num, den),
    {
        assert(-0x4000_0000_0000_0000_0000_0000_0000_0000 <= self.raw * num
            <= 0x4000_0000_0000_0000_0000_0000_0000_0000) by (nonlinear_arith)
            requires
                -0x8000_0000_0000_0000 <= self.raw <= 0x7fff_ffff_ffff_ffff,
                -0x8000_0000_0000_0000 <= num <= 0x7fff_ffff_ffff_ffff,
        ;
        let product: i128 = (self.raw as i128) * (num as i128);
        let q: i128 = floor_div(product, den as i128);
        if q < i64::MIN as i128 || q > i64::MAX as i128 {
            None
        } else {
            Some(Fixed { raw: q as i64 })
        }
    }
}

} // verus!
