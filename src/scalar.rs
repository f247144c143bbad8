//! The fixed-point scalar that stores one coordinate axis, and the rounding
//! division that every unit conversion goes through.
use vstd::prelude::*;
use vstd::arithmetic::div_mod::{lemma_div_is_ordered, lemma_fundamental_div_mod};
use vstd::arithmetic::mul::lemma_mul_inequality;

verus! {

/// The storage type of one coordinate axis: tenths of a unit, 0.0 to 6553.5.
pub type CoordinateValue = u16;

/// A type wide enough to hold the product of any two [`CoordinateValue`]s.
pub type InternalCalculationType = u32;

/// The largest representable scalar value.
pub const SCALAR_MAX: CoordinateValue = 65535;

/// `SCALAR_MAX` as a mathematical integer.
pub open spec fn scalar_max() -> int {
    SCALAR_MAX as int
}

/// Round-half-up integer division: `n / d` rounded to the nearest integer,
/// with halves rounded up.
pub open spec fn round_div(n: int, d: int) -> int {
    (n + d / 2) / d
}

/// The product of two scalars, plus a rounding term of at most half a
/// scalar, still fits in the intermediate type.
pub proof fn lemma_scalar_product_fits(a: int, b: int, c: int)
    requires
        0 <= a <= scalar_max(),
        0 <= b <= scalar_max(),
        0 <= c <= scalar_max() / 2,
    ensures
        0 <= a * b <= a * b + c <= InternalCalculationType::MAX,
{
    assert(0 <= a * b <= 65535 * 65535) by (nonlinear_arith)
        requires
            0 <= a <= 65535,
            0 <= b <= 65535,
    ;
}

/// Divides `dividend` by `divider`, rounding to the closest integer (halves up).
pub fn div_round_closest(
    dividend: InternalCalculationType,
    divider: InternalCalculationType,
) -> (r: InternalCalculationType)
    requires
        divider > 0,
        dividend + divider / 2 <= InternalCalculationType::MAX,
    ensures
        r == round_div(dividend as int, divider as int),
{
    (dividend + (divider / 2)) / divider
}

/// An absolute pixel offset `p` along an image side of length `len`, as a
/// fraction of the full scalar range, rounded to the nearest scalar.
pub open spec fn percentage_of(p: int, len: int) -> int {
    round_div(p * scalar_max(), len)
}

/// A fraction `q` of the full scalar range, as an absolute pixel offset along
/// an image side of length `len`, rounded to the nearest pixel.
pub open spec fn pixels_of(q: int, len: int) -> int {
    round_div(q * len, scalar_max())
}

/// The largest error that a pixel to percentage to pixel round trip may
/// introduce along a side of length `len`: `ceil(len / SCALAR_MAX) + 1`.
pub open spec fn round_trip_tolerance(len: int) -> int {
    (len + scalar_max() - 1) / scalar_max() + 1
}

/// Scaling to a percentage keeps the order of offsets.
pub proof fn lemma_percentage_of_monotonic(a: int, b: int, len: int)
    requires
        0 <= a <= b,
        len > 0,
    ensures
        percentage_of(a, len) <= percentage_of(b, len),
{
    lemma_mul_inequality(a, b, scalar_max());
    lemma_div_is_ordered(a * scalar_max() + len / 2, b * scalar_max() + len / 2, len);
}

/// Scaling to pixels keeps the order of fractions.
pub proof fn lemma_pixels_of_monotonic(a: int, b: int, len: int)
    requires
        0 <= a <= b,
        len >= 0,
    ensures
        pixels_of(a, len) <= pixels_of(b, len),
{
    lemma_mul_inequality(a, b, len);
    lemma_div_is_ordered(a * len + scalar_max() / 2, b * len + scalar_max() / 2, scalar_max());
}

/// Rescales pixel offset `p` on a side of length `len` into a fraction of the
/// full scalar range.
pub fn scale_to_percentage(p: CoordinateValue, len: CoordinateValue) -> (r: CoordinateValue)
    requires
        0 < len,
        p <= len,
    ensures
        r == percentage_of(p as int, len as int),
{
    proof {
        lemma_scalar_product_fits(p as int, scalar_max(), len as int / 2);
        lemma_percentage_of_monotonic(p as int, len as int, len as int);
        let l = len as int;
        let n = l * scalar_max() + l / 2;
        lemma_fundamental_div_mod(n, l);
        assert(n / l <= scalar_max()) by (nonlinear_arith)
            requires
                l > 0,
                n == l * (n / l) + n % l,
                0 <= n % l,
                n == l * scalar_max() + l / 2,
                l / 2 < l,
                scalar_max() == 65535,
        ;
    }
    let scaled = div_round_closest(
        p as InternalCalculationType * SCALAR_MAX as InternalCalculationType,
        len as InternalCalculationType,
    );
    scaled as CoordinateValue
}

/// Rescales fraction `q` of the full scalar range into a pixel offset on a
/// side of length `len`.
pub fn scale_to_pixels(q: CoordinateValue, len: CoordinateValue) -> (r: CoordinateValue)
    ensures
        r == pixels_of(q as int, len as int),
        r <= len,
{
    proof {
        lemma_scalar_product_fits(q as int, len as int, scalar_max() / 2);
        lemma_pixels_of_monotonic(q as int, scalar_max(), len as int);
        assert(pixels_of(scalar_max(), len as int) <= len) by {
            lemma_mul_inequality(len as int, scalar_max(), scalar_max());
            assert(scalar_max() * len == len * scalar_max()) by (nonlinear_arith);
            let n = scalar_max() * len + scalar_max() / 2;
            lemma_fundamental_div_mod(n, scalar_max());
        }
    }
    let scaled = div_round_closest(
        q as InternalCalculationType * len as InternalCalculationType,
        SCALAR_MAX as InternalCalculationType,
    );
    scaled as CoordinateValue
}

/// Rescaling a pixel offset to a percentage and back moves it by at most one
/// pixel, and so by at most the round trip tolerance of its side.
pub proof fn lemma_scalar_round_trip(p: int, len: int)
    requires
        0 < len <= scalar_max(),
        0 <= p <= len,
    ensures
        p - 1 <= pixels_of(percentage_of(p, len), len) <= p + 1,
        p - round_trip_tolerance(len) <= pixels_of(percentage_of(p, len), len) <= p
            + round_trip_tolerance(len),
{
    let m = scalar_max();
    assert(m == 65535);
    let n1 = p * m + len / 2;
    let q = n1 / len;
    lemma_fundamental_div_mod(n1, len);
    let r1 = n1 % len;
    assert(0 <= r1 < len);
    let x = q * len;
    assert(len * q == x) by (nonlinear_arith)
        requires
            x == q * len,
    ;
    let n2 = x + m / 2;
    let b = n2 / m;
    lemma_fundamental_div_mod(n2, m);
    let r2 = n2 % m;
    assert(0 <= r2 < m);
    assert(65535 * b == x + 32767 - r2);
    assert(x == 65535 * p + len / 2 - r1);
    assert(b <= p + 1) by (nonlinear_arith)
        requires
            65535 * b == x + 32767 - r2,
            x == 65535 * p + len / 2 - r1,
            0 <= r1,
            0 <= r2,
            len <= 65535,
    ;
    assert(b >= p - 1) by (nonlinear_arith)
        requires
            65535 * b == x + 32767 - r2,
            x == 65535 * p + len / 2 - r1,
            r1 < len,
            r2 < 65535,
            0 < len <= 65535,
    ;
    assert(pixels_of(percentage_of(p, len), len) == b);
    assert((len + m - 1) / m >= 1);
}

} // verus!
