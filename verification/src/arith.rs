//! Fixed-point arithmetic on 128-bit magnitudes: rounded products of a value
//! with a ratio, parts-per-million fractions and 18-decimal prices.

use vstd::prelude::*;
use vstd::arithmetic::div_mod::*;
use vstd::arithmetic::mul::*;

verus! {

/// Plain amount of an asset, in base units.
pub type Balance = u128;

/// How a quotient that is not an integer is turned into one.
#[derive(Clone, Copy, Debug, PartialEq, Eq, Structural)]
pub enum Rounding {
    /// Towards infinity.
    Up,
    /// Towards zero.
    Down,
}

/// Whether a quotient with the remainder `rem` is raised by one.
pub open spec fn rounds_up(rem: nat, r: Rounding) -> bool {
    match r {
        Rounding::Up => rem > 0,
        Rounding::Down => false,
    }
}

/// `n / d` rounded as `r` says. Meaningful for `d > 0`.
pub open spec fn rounded_div(n: nat, d: nat, r: Rounding) -> nat {
    if rounds_up(n % d, r) {
        n / d + 1
    } else {
        n / d
    }
}

/// `a * b / c` rounded as `r` says, where it exists and fits 128 bits.
pub open spec fn mul_div(a: nat, b: nat, c: nat, r: Rounding) -> Option<u128> {
    if c == 0 || rounded_div(a * b, c, r) > u128::MAX {
        None
    } else {
        Some(rounded_div(a * b, c, r) as u128)
    }
}

/// `a * b / c` rounded down, where it exists and fits 128 bits.
pub open spec fn mul_div_floor(a: nat, b: nat, c: nat) -> Option<u128> {
    mul_div(a, b, c, Rounding::Down)
}

/// Calls `sp_arithmetic::helpers_128bit::multiply_by_rational_with_rounding`.
///
/// Trusted: the product `a * b` is formed in 256 bits and divided by `c`;
/// rounding up raises the quotient by one where the division leaves a
/// remainder. The call yields `None` exactly when `c` is zero or the rounded
/// quotient exceeds `u128::MAX`, and does not fail otherwise.
#[verifier::external_body]
pub(crate) fn multiply_by_rational_with_rounding(a: u128, b: u128, c: u128, r: Rounding) -> (res:
    Option<u128>)
    ensures
        res == mul_div(a as nat, b as nat, c as nat, r),
{
    let rounding = match r {
        Rounding::Up => sp_arithmetic::Rounding::Up,
        Rounding::Down => sp_arithmetic::Rounding::Down,
    };
    sp_arithmetic::helpers_128bit::multiply_by_rational_with_rounding(a, b, c, rounding)
}

/// The part of `x` that `part` is of `whole`, rounded down. It is at most
/// `x`, so it always exists.
pub(crate) fn mul_div_part(x: u128, part: u128, whole: u128) -> (res: u128)
    requires
        part <= whole,
        whole > 0,
    ensures
        res == (x * part) / (whole as int),
        res <= x,
        mul_div_floor(x as nat, part as nat, whole as nat) == Some(res),
        mul_div_floor(part as nat, x as nat, whole as nat) == Some(res),
{
    proof {
        assert(part * x <= whole * x) by (nonlinear_arith)
            requires
                part <= whole,
                x >= 0,
        ;
        lemma_div_is_ordered(part * x, whole * x, whole as int);
        lemma_div_multiples_vanish(x as int, whole as int);
        assert(x * part == part * x) by (nonlinear_arith);
    }
    match multiply_by_rational_with_rounding(x, part, whole, Rounding::Down) {
        Some(r) => r,
        // Not reached: the quotient is at most `x`.
        None => x,
    }
}

/// Number of parts in a whole [`Permill`].
pub const PERMILL_ACCURACY: u32 = 1_000_000;

/// A fraction between zero and one, in parts per million.
#[derive(Clone, Copy, Debug, PartialEq, Eq, Structural)]
pub struct Permill {
    parts: u32,
}

impl Permill {
    /// The parts per million that the fraction holds.
    pub closed spec fn parts(self) -> nat {
        self.parts as nat
    }

    /// A fraction never exceeds one.
    #[verifier::type_invariant]
    pub open spec fn in_range(self) -> bool {
        self.parts() <= 1_000_000
    }

    /// The fraction of `x` that `self` stands for, rounded down.
    pub open spec fn mul_floor_spec(self, x: nat) -> nat {
        (x * self.parts()) / 1_000_000
    }

    /// What is left of `x` once the fraction `self` has been taken, the part
    /// kept being rounded down.
    pub open spec fn left_from_one_spec(self, x: nat) -> nat {
        (x * (1_000_000 - self.parts()) as nat) / 1_000_000
    }

    /// The fraction with `parts` parts per million; more than a million parts
    /// make one whole.
    pub fn from_parts(parts: u32) -> (res: Permill)
        ensures
            res.in_range(),
            res.parts() == if parts <= 1_000_000 {
                parts as nat
            } else {
                1_000_000nat
            },
    {
        if parts <= PERMILL_ACCURACY {
            Permill { parts }
        } else {
            Permill { parts: PERMILL_ACCURACY }
        }
    }

    /// The fraction `percent / 100`; above a hundred it is one whole.
    pub fn from_percent(percent: u32) -> (res: Permill)
        ensures
            res.in_range(),
            res.parts() == if percent <= 100 {
                percent as nat * 10_000
            } else {
                1_000_000nat
            },
    {
        if percent <= 100 {
            Permill { parts: percent * 10_000 }
        } else {
            Permill { parts: PERMILL_ACCURACY }
        }
    }

    /// The empty fraction.
    pub fn zero() -> (res: Permill)
        ensures
            res.in_range(),
            res.parts() == 0,
    {
        Permill { parts: 0 }
    }

    /// One whole.
    pub fn one() -> (res: Permill)
        ensures
            res.in_range(),
            res.parts() == 1_000_000,
    {
        Permill { parts: PERMILL_ACCURACY }
    }

    /// The parts per million.
    pub fn deconstruct(self) -> (res: u32)
        ensures
            res == self.parts(),
            res <= 1_000_000,
    {
        proof {
            use_type_invariant(&self);
        }
        self.parts
    }

    /// Whether the fraction is empty.
    pub fn is_zero(self) -> (res: bool)
        ensures
            res == (self.parts() == 0),
    {
        self.parts == 0
    }

    /// What is missing from `self` to one whole.
    pub fn left_from_one(self) -> (res: Permill)
        ensures
            res.in_range(),
            res.parts() == 1_000_000 - self.parts(),
    {
        proof {
            use_type_invariant(&self);
        }
        Permill { parts: PERMILL_ACCURACY - self.parts }
    }

    /// `self * x`, rounded down. Never overflows, since a fraction is at most one.
    pub fn mul_floor(self, x: u128) -> (res: u128)
        ensures
            res == self.mul_floor_spec(x as nat),
            res <= x,
    {
        proof {
            use_type_invariant(&self);
        }
        let p: u128 = self.parts as u128;
        let whole: u128 = x / 1_000_000;
        let rest: u128 = x % 1_000_000;
        proof {
            lemma_split_product(x as int, p as int, 1_000_000);
            assert(whole * p <= whole * 1_000_000) by (nonlinear_arith)
                requires
                    p <= 1_000_000,
                    whole >= 0,
            ;
            assert(rest * p <= 1_000_000 * 1_000_000) by (nonlinear_arith)
                requires
                    0 <= rest < 1_000_000,
                    0 <= p <= 1_000_000,
            ;
            assert((rest * p) / 1_000_000 <= rest) by {
                assert(rest * p <= rest * 1_000_000) by (nonlinear_arith)
                    requires
                        p <= 1_000_000,
                        rest >= 0,
                ;
                lemma_div_is_ordered(rest * p, rest * 1_000_000, 1_000_000);
                lemma_div_multiples_vanish(rest as int, 1_000_000);
            }
        }
        whole * p + rest * p / 1_000_000
    }
}

/// Dividing `x * p` by `m` can be done on the quotient and the remainder of
/// `x` separately.
pub proof fn lemma_split_product(x: int, p: int, m: int)
    requires
        x >= 0,
        p >= 0,
        m > 0,
    ensures
        (x * p) / m == (x / m) * p + ((x % m) * p) / m,
{
    let q = x / m;
    let r = x % m;
    lemma_fundamental_div_mod(x, m);
    assert(x * p == (q * p) * m + r * p) by (nonlinear_arith)
        requires
            x == m * q + r,
    ;
    lemma_div_multiples_vanish_quotient_sum(q * p, r * p, m);
}

/// A multiple of the divisor leaves the quotient as a whole summand.
pub proof fn lemma_div_multiples_vanish_quotient_sum(k: int, b: int, m: int)
    requires
        m > 0,
        b >= 0,
    ensures
        (k * m + b) / m == k + b / m,
{
    lemma_fundamental_div_mod(b, m);
    let bq = b / m;
    let br = b % m;
    assert(k * m + b == m * (k + bq) + br) by (nonlinear_arith)
        requires
            b == m * bq + br,
    ;
    lemma_fundamental_div_mod_converse(k * m + b, m, k + bq, br);
}

/// What one whole is as the inner number of a [`FixedU128`].
pub const FIXED_ACCURACY: u128 = 1_000_000_000_000_000_000;

/// A number with eighteen decimal places, held as the count of its
/// quintillionth parts.
#[derive(Clone, Copy, Debug, PartialEq, Eq, Structural)]
pub struct FixedU128 {
    /// The number times ten to the eighteenth.
    pub inner: u128,
}

impl FixedU128 {
    /// The number whose count of parts is `inner`.
    pub fn from_inner(inner: u128) -> (res: FixedU128)
        ensures
            res.inner == inner,
    {
        FixedU128 { inner }
    }

    /// The count of parts.
    pub fn into_inner(self) -> (res: u128)
        ensures
            res == self.inner,
    {
        self.inner
    }

    /// The number one.
    pub fn one() -> (res: FixedU128)
        ensures
            res.inner == FIXED_ACCURACY,
    {
        FixedU128 { inner: FIXED_ACCURACY }
    }

    /// The whole number `n`.
    pub fn from_u32(n: u32) -> (res: FixedU128)
        ensures
            res.inner == n * FIXED_ACCURACY,
    {
        FixedU128 { inner: (n as u128) * FIXED_ACCURACY }
    }

    /// `n / d` with the places beyond the eighteenth cut off; `None` when `d`
    /// is zero or the number is too large.
    pub fn checked_from_rational(n: u128, d: u128) -> (res: Option<FixedU128>)
        ensures
            res == match mul_div_floor(n as nat, FIXED_ACCURACY as nat, d as nat) {
                Some(inner) => Some(FixedU128 { inner }),
                None => None,
            },
    {
        match multiply_by_rational_with_rounding(n, FIXED_ACCURACY, d, Rounding::Down) {
            Some(inner) => Some(FixedU128 { inner }),
            None => None,
        }
    }

    /// `self * n` rounded down; `None` when it does not fit 128 bits.
    pub fn checked_mul_int(self, n: u128) -> (res: Option<u128>)
        ensures
            res == mul_div_floor(self.inner as nat, n as nat, FIXED_ACCURACY as nat),
    {
        multiply_by_rational_with_rounding(self.inner, n, FIXED_ACCURACY, Rounding::Down)
    }
}

/// The product of two 32-bit numbers, which always fits 64 bits.
pub fn widening_mul(a: u32, b: u32) -> (res: u64)
    ensures
        res == a * b,
{
    assert(a * b <= 0xffff_ffff * 0xffff_ffff) by (nonlinear_arith)
        requires
            0 <= a <= 0xffff_ffff,
            0 <= b <= 0xffff_ffff,
    ;
    (a as u64) * (b as u64)
}

} // verus!
