//! Fixed-point exchange rates and per-million fractions.
//!
//! The arithmetic itself is done by `sp_arithmetic` (`FixedU128`, `Permill`);
//! this module holds the library's own plain-value views of both types and the
//! trusted wrappers through which the verified code calls into that crate.

use vstd::prelude::*;
use sp_arithmetic::FixedPointNumber;

verus! {

/// The accuracy of an `ExchangeRate`: the inner value of the rate `1` (18 decimals).
pub const FIXED_ACCURACY: u128 = 1_000_000_000_000_000_000u128;

/// The accuracy of a `Permill`: the number of parts in a whole.
pub const PERMILL_ACCURACY: u32 = 1_000_000u32;

/// `a * b / c` over the integers, rounded down.
pub open spec fn mul_div_floor(a: int, b: int, c: int) -> int {
    a * b / c
}

/// `x * parts / 1_000_000`, rounded to the nearest integer, an exact half rounded down.
pub open spec fn permill_mul_spec(parts: int, x: int) -> int {
    let prod = x * parts;
    prod / 1_000_000 + if prod % 1_000_000 > 500_000 { 1int } else { 0int }
}

/// `a * b / c` as `sp_arithmetic`'s `multiply_by_rational` computes it: rounded down
/// where `a * b` fits in a `u128`, where `c` fits in one 32-bit limb, or where `c` divides
/// `a` or `b`; otherwise rounded to the nearest integer, a remainder of at most half of `c`
/// (halved rounding down) rounding down.
pub open spec fn rational_mul_div(a: int, b: int, c: int) -> int {
    let q = a * b / c;
    if a * b <= u128::MAX || c < 0x1_0000_0000 || a % c == 0 || b % c == 0 {
        q
    } else if a * b % c > c / 2 {
        q + 1
    } else {
        q
    }
}

/// `rational_mul_div(a, b, c)` where it fits in a `u128`, else `None`.
pub open spec fn checked_rational_mul_div(a: int, b: int, c: int) -> Option<u128> {
    if rational_mul_div(a, b, c) > u128::MAX {
        None
    } else {
        Some(rational_mul_div(a, b, c) as u128)
    }
}

/// The rounding of `multiply_by_rational` moves the result by at most one above the
/// floor, and not at all while the product fits in a `u128`.
pub proof fn lemma_rational_mul_div_bounds(a: int, b: int, c: int)
    requires
        0 <= a,
        0 <= b,
        1 <= c,
    ensures
        0 <= mul_div_floor(a, b, c) <= rational_mul_div(a, b, c) <= mul_div_floor(a, b, c) + 1,
        a * b <= u128::MAX ==> rational_mul_div(a, b, c) == mul_div_floor(a, b, c)
            && mul_div_floor(a, b, c) <= u128::MAX,
        mul_div_floor(a, b, c) < u128::MAX ==> checked_rational_mul_div(a, b, c) is Some,
        mul_div_floor(a, b, c) > u128::MAX ==> checked_rational_mul_div(a, b, c) is None,
{
    let p = a * b;
    assert(0 <= p) by (nonlinear_arith)
        requires
            0 <= a,
            0 <= b,
            p == a * b,
    ;
    let q = p / c;
    assert(0 <= q <= p) by (nonlinear_arith)
        requires
            0 <= p,
            1 <= c,
            q == p / c,
    ;
}

/// Trusted: `FixedU128::checked_from_rational(n, d)` from `sp_arithmetic`, taken by its
/// inner value: `None` when `d` is zero, else `multiply_by_rational(n, 10^18, d)` where the
/// result fits in a `u128`, else `None`.
#[verifier::external_body]
fn fixed_checked_from_rational(n: u128, d: u128) -> (r: Option<u128>)
    ensures
        d == 0 ==> r is None,
        d != 0 ==> r == checked_rational_mul_div(n as int, FIXED_ACCURACY as int, d as int),
{
    match sp_arithmetic::FixedU128::checked_from_rational(n, d) {
        Some(f) => Some(f.into_inner()),
        None => None,
    }
}

/// Trusted: `FixedU128::checked_mul_int(n)` from `sp_arithmetic` on the rate with inner
/// value `inner`: `multiply_by_rational(inner, n, 10^18)` where the result fits in a
/// `u128`, else `None`.
#[verifier::external_body]
fn fixed_checked_mul_int(inner: u128, n: u128) -> (r: Option<u128>)
    ensures
        r == checked_rational_mul_div(inner as int, n as int, FIXED_ACCURACY as int),
{
    sp_arithmetic::FixedU128::from_inner(inner).checked_mul_int(n)
}

/// Trusted: `FixedU128::reciprocal` from `sp_arithmetic` on the rate with inner value
/// `inner`: `None` for the rate zero, else `10^36 / inner` rounded down (the product
/// `10^18 * 10^18` fits in a `u128`, so `multiply_by_rational` divides exactly once).
#[verifier::external_body]
fn fixed_reciprocal(inner: u128) -> (r: Option<u128>)
    ensures
        inner == 0 ==> r is None,
        inner != 0 ==> r == Some(
            mul_div_floor(FIXED_ACCURACY as int, FIXED_ACCURACY as int, inner as int) as u128,
        ),
{
    match sp_arithmetic::FixedU128::from_inner(inner).reciprocal() {
        Some(f) => Some(f.into_inner()),
        None => None,
    }
}

/// Trusted: `Permill::from_parts(parts) * x` from `sp_arithmetic`, which is
/// `overflow_prune_mul` with `Rounding::Nearest`: `x * parts / 10^6`, rounded to the
/// nearest integer with an exact half rounded down.
#[verifier::external_body]
fn permill_mul_int(parts: u32, x: u128) -> (r: u128)
    requires
        parts <= PERMILL_ACCURACY,
    ensures
        r == permill_mul_spec(parts as int, x as int),
{
    sp_arithmetic::Permill::from_parts(parts) * x
}


/// A fixed-point exchange rate with 18 decimals, held as its inner value
/// (`inner / 10^18`), as `FixedU128` holds it.
#[derive(Clone, Copy, Debug, PartialEq, Eq, Structural)]
pub struct ExchangeRate {
    pub inner: u128,
}

impl ExchangeRate {
    /// The rate whose inner value is `inner`.
    pub fn from_inner(inner: u128) -> (r: ExchangeRate)
        ensures
            r.inner == inner,
    {
        ExchangeRate { inner }
    }

    /// The inner value of the rate.
    pub fn into_inner(self) -> (r: u128)
        ensures
            r == self.inner,
    {
        self.inner
    }

    /// The rate `n / d`, or `None` when `d` is zero or the rate does not fit.
    pub fn checked_from_rational(n: u128, d: u128) -> (r: Option<ExchangeRate>)
        ensures
            d == 0 ==> r is None,
            d != 0 ==> match checked_rational_mul_div(n as int, FIXED_ACCURACY as int, d as int) {
                None => r is None,
                Some(v) => r == Some(ExchangeRate { inner: v }),
            },
            d != 0 && n * FIXED_ACCURACY <= u128::MAX ==> r == Some(
                ExchangeRate {
                    inner: mul_div_floor(n as int, FIXED_ACCURACY as int, d as int) as u128,
                },
            ),
            d != 0 && mul_div_floor(n as int, FIXED_ACCURACY as int, d as int) < u128::MAX
                ==> r is Some,
            d != 0 && mul_div_floor(n as int, FIXED_ACCURACY as int, d as int) > u128::MAX
                ==> r is None,
            r matches Some(x) ==> mul_div_floor(n as int, FIXED_ACCURACY as int, d as int)
                <= x.inner <= mul_div_floor(n as int, FIXED_ACCURACY as int, d as int) + 1,
    {
        proof {
            if d != 0 {
                lemma_rational_mul_div_bounds(n as int, FIXED_ACCURACY as int, d as int);
            }
        }
        match fixed_checked_from_rational(n, d) {
            Some(inner) => Some(ExchangeRate { inner }),
            None => None,
        }
    }

    /// `self * n` for an integer `n`, or `None` when the product does not fit.
    pub fn checked_mul_int(&self, n: u128) -> (r: Option<u128>)
        ensures
            r == checked_rational_mul_div(self.inner as int, n as int, FIXED_ACCURACY as int),
            self.inner * n <= u128::MAX ==> r == Some(
                mul_div_floor(self.inner as int, n as int, FIXED_ACCURACY as int) as u128,
            ),
            mul_div_floor(self.inner as int, n as int, FIXED_ACCURACY as int) < u128::MAX
                ==> r is Some,
            mul_div_floor(self.inner as int, n as int, FIXED_ACCURACY as int) > u128::MAX
                ==> r is None,
            r matches Some(v) ==> mul_div_floor(self.inner as int, n as int, FIXED_ACCURACY as int)
                <= v <= mul_div_floor(self.inner as int, n as int, FIXED_ACCURACY as int) + 1,
    {
        proof {
            lemma_rational_mul_div_bounds(self.inner as int, n as int, FIXED_ACCURACY as int);
        }
        fixed_checked_mul_int(self.inner, n)
    }

    /// `1 / self`, or `None` when `self` is zero.
    pub fn reciprocal(&self) -> (r: Option<ExchangeRate>)
        ensures
            self.inner == 0 ==> r is None,
            self.inner != 0 ==> r == Some(
                ExchangeRate {
                    inner: mul_div_floor(
                        FIXED_ACCURACY as int,
                        FIXED_ACCURACY as int,
                        self.inner as int,
                    ) as u128,
                },
            ),
    {
        match fixed_reciprocal(self.inner) {
            Some(inner) => Some(ExchangeRate { inner }),
            None => None,
        }
    }
}

/// A fraction in parts per million, between zero and one whole.
#[derive(Clone, Copy, Debug)]
pub struct Permill {
    parts: u32,
}

impl Permill {
    /// The number of parts per million, never more than a whole.
    pub closed spec fn spec_parts(self) -> u32 {
        if self.parts > PERMILL_ACCURACY {
            PERMILL_ACCURACY
        } else {
            self.parts
        }
    }

    /// The fraction `parts / 10^6`, saturated at one whole.
    pub fn from_parts(parts: u32) -> (r: Permill)
        ensures
            r.spec_parts() == (if parts > PERMILL_ACCURACY {
                PERMILL_ACCURACY
            } else {
                parts
            }),
    {
        if parts > PERMILL_ACCURACY {
            Permill { parts: PERMILL_ACCURACY }
        } else {
            Permill { parts }
        }
    }

    /// The number of parts per million.
    pub fn deconstruct(&self) -> (r: u32)
        ensures
            r == self.spec_parts(),
    {
        if self.parts > PERMILL_ACCURACY {
            PERMILL_ACCURACY
        } else {
            self.parts
        }
    }

    /// `self * x`: `x * parts / 10^6`, rounded to the nearest integer (an exact half down).
    pub fn mul_int(&self, x: u128) -> (r: u128)
        ensures
            r == permill_mul_spec(self.spec_parts() as int, x as int),
            r <= x,
            // `r` is `x * parts / 10^6` rounded to the nearest integer, a half down.
            -500_000 < x * self.spec_parts() - r * 1_000_000 <= 500_000,
    {
        let parts = self.deconstruct();
        proof {
            lemma_permill_mul_bounded(parts as int, x as int);
            lemma_permill_mul_rounding(parts as int, x as int);
        }
        permill_mul_int(parts, x)
    }
}

/// Every `Permill` is at most one whole.
pub proof fn lemma_permill_bounded(p: Permill)
    ensures
        p.spec_parts() <= PERMILL_ACCURACY,
{
}

/// `permill_mul_spec(parts, x)` is `x * parts / 10^6` rounded to the nearest integer, an
/// exact half down: it is the one integer within half a unit of that quotient, from below
/// included and from above excluded.
pub proof fn lemma_permill_mul_rounding(parts: int, x: int)
    requires
        0 <= parts,
        0 <= x,
    ensures
        -500_000 < x * parts - permill_mul_spec(parts, x) * 1_000_000 <= 500_000,
{
    let prod = x * parts;
    let q = prod / 1_000_000;
    let r = prod % 1_000_000;
    assert(prod == q * 1_000_000 + r && 0 <= r < 1_000_000);
}

/// A fraction of at most one whole of `x` is between zero and `x`.
pub proof fn lemma_permill_mul_bounded(parts: int, x: int)
    requires
        0 <= parts <= 1_000_000,
        0 <= x,
    ensures
        0 <= permill_mul_spec(parts, x) <= x,
{
    let prod = x * parts;
    assert(0 <= prod <= x * 1_000_000) by (nonlinear_arith)
        requires
            0 <= parts <= 1_000_000,
            0 <= x,
            prod == x * parts,
    ;
    let q = prod / 1_000_000;
    let r = prod % 1_000_000;
    assert(prod == q * 1_000_000 + r && 0 <= r < 1_000_000);
    assert(q <= x) by (nonlinear_arith)
        requires
            prod == q * 1_000_000 + r,
            0 <= r,
            prod <= x * 1_000_000,
    ;
    if q == x {
        assert(r == 0);
    }
}

} // verus!
