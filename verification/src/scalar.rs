//! IEEE-754 binary32 scalars, carried as their bit patterns in `u32` values.
//!
//! The four rounded operations (addition, subtraction, multiplication,
//! division) are performed by `rustc_apfloat`, the Rust port of LLVM's
//! APFloat library, which implements IEEE-754 binary arithmetic; every call
//! rounds to nearest, ties to even.  Each operation is exposed through a
//! wrapper whose contract names its result, together with the handful of
//! exact IEEE-754 identities (multiplication by one, addition of a zero,
//! sign symmetry of subtraction) that the algebraic laws of this library
//! rest on.  Negation and square root are computed and verified here.

use vstd::prelude::*;
use vstd::arithmetic::power2::pow2;
use vstd::arithmetic::power2::lemma_pow2_adds;
use vstd::arithmetic::power2::lemma_pow2_strictly_increases;
use vstd::arithmetic::power2::lemma2_to64;
use vstd::arithmetic::div_mod::lemma_mod_multiples_vanish;
use rustc_apfloat::Float;
use rustc_apfloat::Round;
use rustc_apfloat::ieee::Single;

verus! {

/// Bit pattern of `1.0`.
pub const ONE_BITS: u32 = 0x3F80_0000;

/// Bit pattern of `+0.0`.
pub const POS_ZERO_BITS: u32 = 0;

/// Bit pattern of `-0.0`.
pub const NEG_ZERO_BITS: u32 = 0x8000_0000;

/// Bit pattern of `-1.0`.
pub const NEG_ONE_BITS: u32 = 0xBF80_0000;

/// Bit pattern of `2.0`.
pub const TWO_BITS: u32 = 0x4000_0000;

/// Bit pattern of `+infinity`.
pub const POS_INF_BITS: u32 = 0x7F80_0000;

/// The bit pattern with the sign bit cleared.
pub open spec fn abs_bits(a: u32) -> u32 {
    a & 0x7FFF_FFFF
}

/// The value is a NaN.
pub open spec fn is_nan_bits(a: u32) -> bool {
    abs_bits(a) > 0x7F80_0000
}

/// The value is zero, subnormal or normal (neither infinite nor NaN).
pub open spec fn is_finite_bits(a: u32) -> bool {
    abs_bits(a) < 0x7F80_0000
}

/// The value is a zero of either sign.
pub open spec fn is_zero_bits(a: u32) -> bool {
    abs_bits(a) == 0
}

/// IEEE-754 equality of the two values: NaN equals nothing, and the two
/// zeros equal each other.  Every other value has one bit pattern.
pub open spec fn eq_bits(a: u32, b: u32) -> bool {
    &&& !is_nan_bits(a)
    &&& !is_nan_bits(b)
    &&& (a == b || (is_zero_bits(a) && is_zero_bits(b)))
}

/// The bit pattern of the negated value: the sign bit flips, nothing else.
pub open spec fn neg_bits(a: u32) -> u32 {
    a ^ 0x8000_0000
}

/// Both factors are small enough (magnitude below `2^63`) that their
/// rounded product cannot overflow to infinity.
pub open spec fn product_safe_bits(a: u32) -> bool {
    abs_bits(a) < 0x5F00_0000
}

pub uninterp spec fn add_bits(a: u32, b: u32) -> u32;

pub uninterp spec fn sub_bits(a: u32, b: u32) -> u32;

pub uninterp spec fn mul_bits(a: u32, b: u32) -> u32;

pub uninterp spec fn div_bits(a: u32, b: u32) -> u32;

/// Relies on `rustc_apfloat::ieee::Single::add_r`: IEEE-754 binary32
/// addition, round to nearest, ties to even.  The added clauses are exact
/// IEEE-754 identities: a zero addend leaves every non-NaN value unchanged
/// (except that `-0.0 + +0.0` is `+0.0`, hence the guards), and the sum of
/// two zeros is a zero.
#[verifier::external_body]
pub(crate) fn add32(a: u32, b: u32) -> (r: u32)
    ensures
        r == add_bits(a, b),
        !is_nan_bits(a) && b == NEG_ZERO_BITS ==> r == a,
        !is_nan_bits(a) && b == POS_ZERO_BITS && a != NEG_ZERO_BITS ==> r == a,
        !is_nan_bits(b) && a == NEG_ZERO_BITS ==> r == b,
        !is_nan_bits(b) && a == POS_ZERO_BITS && b != NEG_ZERO_BITS ==> r == b,
        is_zero_bits(a) && is_zero_bits(b) ==> is_zero_bits(r),
    {
    let x = Single::from_bits(a as u128);
    let y = Single::from_bits(b as u128);
    x.add_r(y, Round::NearestTiesToEven).value.to_bits() as u32
}

/// Relies on `rustc_apfloat::ieee::Single::sub_r`: IEEE-754 binary32
/// subtraction, round to nearest, ties to even.  The added clauses are
/// exact IEEE-754 identities: rounding to nearest is sign-symmetric, so
/// `a - b` and `-(b - a)` agree bit for bit whenever the operands differ
/// and neither is NaN; a value minus itself is `+0.0` when it is finite;
/// and finite operands never produce a NaN difference.
#[verifier::external_body]
pub(crate) fn sub32(a: u32, b: u32) -> (r: u32)
    ensures
        r == sub_bits(a, b),
        !is_nan_bits(a) && !is_nan_bits(b) && a != b ==> r == neg_bits(sub_bits(b, a)),
        is_finite_bits(a) && a == b ==> r == POS_ZERO_BITS,
        is_finite_bits(a) && is_finite_bits(b) ==> !is_nan_bits(r),
    {
    let x = Single::from_bits(a as u128);
    let y = Single::from_bits(b as u128);
    x.sub_r(y, Round::NearestTiesToEven).value.to_bits() as u32
}

/// Relies on `rustc_apfloat::ieee::Single::mul_r`: IEEE-754 binary32
/// multiplication, round to nearest, ties to even.  The added clauses are
/// exact IEEE-754 identities: a product by `1.0` is exact; a product of a
/// finite value and a zero is a zero; the exact product of two values does
/// not depend on their order, so neither does the rounded one; a product
/// of finite values is never NaN; and a product of two values of magnitude
/// below `2^63` is at most `2^126`, hence finite.
#[verifier::external_body]
pub(crate) fn mul32(a: u32, b: u32) -> (r: u32)
    ensures
        r == mul_bits(a, b),
        a == ONE_BITS && !is_nan_bits(b) ==> r == b,
        b == ONE_BITS && !is_nan_bits(a) ==> r == a,
        is_finite_bits(a) && is_zero_bits(b) ==> is_zero_bits(r),
        is_zero_bits(a) && is_finite_bits(b) ==> is_zero_bits(r),
        is_finite_bits(a) && is_finite_bits(b) ==> r == mul_bits(b, a),
        is_finite_bits(a) && is_finite_bits(b) ==> !is_nan_bits(r),
        product_safe_bits(a) && product_safe_bits(b) ==> is_finite_bits(r),
    {
    let x = Single::from_bits(a as u128);
    let y = Single::from_bits(b as u128);
    x.mul_r(y, Round::NearestTiesToEven).value.to_bits() as u32
}

/// Relies on `rustc_apfloat::ieee::Single::div_r`: IEEE-754 binary32
/// division, round to nearest, ties to even.
#[verifier::external_body]
pub(crate) fn div32(a: u32, b: u32) -> (r: u32)
    ensures
        r == div_bits(a, b),
    {
    let x = Single::from_bits(a as u128);
    let y = Single::from_bits(b as u128);
    x.div_r(y, Round::NearestTiesToEven).value.to_bits() as u32
}

/// IEEE-754 negation: flip the sign bit, leave everything else alone.
pub(crate) fn neg32(a: u32) -> (r: u32)
    ensures
        r == neg_bits(a),
{
    a ^ 0x8000_0000
}

/// Flipping the sign bit leaves the magnitude bits alone, so negation
/// preserves being NaN, finite, infinite or zero.
pub proof fn lemma_neg_bits_abs(a: u32)
    ensures
        abs_bits(neg_bits(a)) == abs_bits(a),
{
    assert((a ^ 0x8000_0000) & 0x7FFF_FFFF == a & 0x7FFF_FFFF) by (bit_vector);
}

/// How the named constants classify: both zeros are zeros, and the small
/// named values are finite.
pub proof fn lemma_const_bits()
    ensures
        abs_bits(POS_ZERO_BITS) == 0,
        abs_bits(NEG_ZERO_BITS) == 0,
        abs_bits(ONE_BITS) == ONE_BITS,
        abs_bits(NEG_ONE_BITS) == ONE_BITS,
        abs_bits(TWO_BITS) == TWO_BITS,
        abs_bits(POS_INF_BITS) == POS_INF_BITS,
{
    assert(0u32 & 0x7FFF_FFFF == 0) by (bit_vector);
    assert(0x8000_0000u32 & 0x7FFF_FFFF == 0) by (bit_vector);
    assert(0x3F80_0000u32 & 0x7FFF_FFFF == 0x3F80_0000) by (bit_vector);
    assert(0xBF80_0000u32 & 0x7FFF_FFFF == 0x3F80_0000) by (bit_vector);
    assert(0x4000_0000u32 & 0x7FFF_FFFF == 0x4000_0000) by (bit_vector);
    assert(0x7F80_0000u32 & 0x7FFF_FFFF == 0x7F80_0000) by (bit_vector);
}

/// The two zero bit patterns are the only ones whose magnitude bits are
/// all clear.
pub proof fn lemma_zero_bits(a: u32)
    ensures
        is_zero_bits(a) <==> (a == POS_ZERO_BITS || a == NEG_ZERO_BITS),
{
    assert(a & 0x7FFF_FFFF == 0 <==> (a == 0 || a == 0x8000_0000u32)) by (bit_vector);
}

/// Relies on `u64::isqrt`: the standard library defines it as the largest
/// integer `r` with `r * r <= self`.
pub assume_specification[ u64::isqrt ](x: u64) -> (r: u64)
    ensures
        r * r <= x,
        x < (r + 1) * (r + 1),
;

/// `s` is the integer square root of `n`.
pub open spec fn is_floor_sqrt(n: nat, s: nat) -> bool {
    s * s <= n < (s + 1) * (s + 1)
}

/// The integer square root of `n`.
pub open spec fn floor_sqrt(n: nat) -> nat {
    choose|s: nat| is_floor_sqrt(n, s)
}

/// At most one integer qualifies as the integer square root.
pub proof fn lemma_floor_sqrt_is(n: nat, s: nat)
    requires
        is_floor_sqrt(n, s),
    ensures
        floor_sqrt(n) == s,
{
    assert(exists|t: nat| is_floor_sqrt(n, t));
    let t = floor_sqrt(n);
    assert(is_floor_sqrt(n, t));
    if t < s {
        assert((t + 1) * (t + 1) <= s * s) by (nonlinear_arith)
            requires
                t + 1 <= s,
        ;
        assert(false);
    }
    if s < t {
        assert((s + 1) * (s + 1) <= t * t) by (nonlinear_arith)
            requires
                s + 1 <= t,
        ;
        assert(false);
    }
}

/// The remainder-based rounding of the integer square root picks the
/// nearest value: the doubled rounded root `2p` brackets the true doubled
/// root strictly within one on either side, `(2p - 1)^2 < 4n < (2p + 1)^2`.
/// Both bounds are strict, so a tie is impossible (an odd square cannot
/// equal `4n`), and the square root spec below is correctly rounded.
pub proof fn lemma_sqrt_rounding_is_nearest(n: nat, s: nat)
    requires
        1 <= n,
        is_floor_sqrt(n, s),
    ensures
        ({
            let p: nat = if n - s * s > s {
                (s + 1) as nat
            } else {
                s
            };
            (2 * p - 1) * (2 * p - 1) < 4 * n < (2 * p + 1) * (2 * p + 1)
        }),
{
    assert(1 <= s) by (nonlinear_arith)
        requires
            1 <= n,
            is_floor_sqrt(n, s),
    ;
    if n - s * s > s {
        assert((2 * (s + 1) - 1) * (2 * (s + 1) - 1) < 4 * n) by (nonlinear_arith)
            requires
                s * s + s + 1 <= n,
        ;
        assert(4 * n < (2 * (s + 1) + 1) * (2 * (s + 1) + 1)) by (nonlinear_arith)
            requires
                n < (s + 1) * (s + 1),
        ;
    } else {
        assert((2 * s - 1) * (2 * s - 1) < 4 * n) by (nonlinear_arith)
            requires
                1 <= s,
                s * s <= n,
        ;
        assert(4 * n < (2 * s + 1) * (2 * s + 1)) by (nonlinear_arith)
            requires
                n <= s * s + s,
        ;
    }
}

/// The significand doubled until it reaches the normal range, the scale
/// lowered in step; the value `m * 2^(e - 150)` is unchanged.
pub open spec fn norm_sig(m: nat, e: int) -> (nat, int)
    decreases (if m < 0x80_0000 { (0x80_0000 - m) as nat } else { 0nat }),
{
    if m == 0 || m >= 0x80_0000 {
        (m, e)
    } else {
        norm_sig(m * 2, e - 1)
    }
}

/// The rounded square root of a positive, finite, nonzero value: the bits
/// are decoded into a significand and a scale (the value is
/// `sig * 2^(scale - 150)`), the significand is normalized and then shifted
/// so that the scale halves evenly, and the integer square root of the
/// shifted significand, rounded to nearest by its remainder (never a tie:
/// an odd square cannot be four times an integer), is encoded with the
/// halved scale.  A rounded-up root of `2^24` carries into the exponent
/// field by the encoding addition.
pub open spec fn sqrt_pos_bits(a: u32) -> u32 {
    let exp_field = (a >> 23) as int;
    let frac = (a & 0x7F_FFFF) as nat;
    let sig0: nat = if exp_field == 0 { frac } else { (frac + 0x80_0000) as nat };
    let e0: int = if exp_field == 0 { 1 } else { exp_field };
    let me = norm_sig(sig0, e0);
    let m = me.0;
    let e = me.1;
    let k: int = if (e + 150) % 2 == 0 { 24 } else { 23 };
    let fexp: int = (e + 150 - k) / 2;
    let n: nat = if k == 24 { m * 0x100_0000 } else { m * 0x80_0000 };
    let s = floor_sqrt(n);
    let p: nat = if n - s * s > s { s + 1 } else { s };
    (fexp * 0x80_0000 + (p - 0x80_0000)) as u32
}

/// The IEEE-754 square root: NaNs and negative nonzero values give the
/// canonical quiet NaN, the two zeros and the positive infinity return
/// unchanged, and a positive finite value is rounded to nearest, ties to
/// even.
pub open spec fn sqrt_bits(a: u32) -> u32 {
    if is_nan_bits(a) {
        0x7FC0_0000
    } else if is_zero_bits(a) {
        a
    } else if a >= 0x8000_0000 {
        0x7FC0_0000
    } else if a == POS_INF_BITS {
        a
    } else {
        sqrt_pos_bits(a)
    }
}

/// A power of two below the normal-significand threshold has exponent at
/// most 22.
proof fn lemma_pow2_below_normal(d: nat)
    requires
        pow2(d) < 0x80_0000,
    ensures
        d <= 22,
{
    lemma2_to64();
    if d >= 23 {
        if d > 23 {
            lemma_pow2_strictly_increases(23, d);
        }
        assert(false);
    }
}

/// A power of two below the significand-overflow threshold has exponent
/// at most 23.
proof fn lemma_pow2_below_carry(d: nat)
    requires
        pow2(d) < 0x100_0000,
    ensures
        d <= 23,
{
    lemma2_to64();
    if d >= 24 {
        if d > 24 {
            lemma_pow2_strictly_increases(24, d);
        }
        assert(false);
    }
}

/// The IEEE-754 square root of the value, rounded to nearest, ties to
/// even, computed on the bit pattern alone.
pub(crate) fn sqrt32(a: u32) -> (r: u32)
    ensures
        r == sqrt_bits(a),
{
    let mag: u32 = a & 0x7FFF_FFFF;
    proof {
        assert(mag == abs_bits(a));
    }
    if mag > 0x7F80_0000 {
        // NaN
        return 0x7FC0_0000;
    }
    if mag == 0 {
        // a zero of either sign
        return a;
    }
    if a >= 0x8000_0000 {
        // negative and nonzero: invalid
        return 0x7FC0_0000;
    }
    proof {
        assert(a & 0x7FFF_FFFF == a) by (bit_vector)
            requires
                a < 0x8000_0000u32,
        ;
    }
    if mag == 0x7F80_0000 {
        // positive infinity
        return a;
    }
    let exp_field: u32 = a >> 23;
    let frac: u32 = a & 0x7F_FFFF;
    proof {
        assert(a >> 23 < 255 && a & 0x7F_FFFF < 0x80_0000) by (bit_vector)
            requires
                a < 0x7F80_0000u32,
        ;
        assert(a >> 23 == 0 ==> a & 0x7F_FFFF == a) by (bit_vector);
    }
    let mut m: u32 = if exp_field == 0 {
        frac
    } else {
        frac + 0x80_0000
    };
    let mut e: i32 = if exp_field == 0 {
        1
    } else {
        exp_field as i32
    };
    let ghost sig0: nat = m as nat;
    let ghost e0: int = e as int;
    proof {
        lemma2_to64();
        assert(m as nat == sig0 * pow2(0));
    }
    while m < 0x80_0000
        invariant
            1 <= m < 0x100_0000,
            1 <= sig0,
            1 <= e0,
            e <= e0 <= 254,
            e0 - 23 <= e,
            m as nat == sig0 * pow2((e0 - e) as nat),
            norm_sig(sig0, e0) == norm_sig(m as nat, e as int),
        decreases 0x100_0000 - m,
    {
        proof {
            let d = (e0 - e) as nat;
            assert(pow2(d) <= sig0 * pow2(d)) by (nonlinear_arith)
                requires
                    1 <= sig0,
                    pow2(d) >= 0,
            ;
            lemma_pow2_below_normal(d);
            lemma_pow2_adds(d, 1);
            lemma2_to64();
            assert(sig0 * pow2(d + 1) == (sig0 * pow2(d)) * 2) by (nonlinear_arith)
                requires
                    pow2(d + 1) == pow2(d) * 2,
            ;
        }
        m = m * 2;
        e = e - 1;
    }
    proof {
        let d = (e0 - e) as nat;
        assert(pow2(d) <= sig0 * pow2(d)) by (nonlinear_arith)
            requires
                1 <= sig0,
                pow2(d) >= 0,
        ;
        lemma_pow2_below_carry(d);
    }
    let q: u32 = (e + 22) as u32;
    proof {
        lemma_mod_multiples_vanish(64, e as int + 22, 2);
    }
    let keven: bool = q % 2 == 0;
    let k: u32 = if keven {
        24
    } else {
        23
    };
    let n: u64 = if keven {
        (m as u64) * 0x100_0000
    } else {
        (m as u64) * 0x80_0000
    };
    proof {
        assert(n >= 0x4000_0000_0000) by (nonlinear_arith)
            requires
                n >= (m as u64) * 0x80_0000,
                m >= 0x80_0000u32,
        ;
    }
    let s64: u64 = n.isqrt();
    proof {
        assert(is_floor_sqrt(n as nat, s64 as nat));
        lemma_floor_sqrt_is(n as nat, s64 as nat);
        assert(s64 < 0x100_0000) by (nonlinear_arith)
            requires
                s64 * s64 <= n,
                n < 0x1_0000_0000_0000,
        ;
        assert(s64 >= 0x80_0000) by (nonlinear_arith)
            requires
                n < (s64 + 1) * (s64 + 1),
                n >= 0x4000_0000_0000,
        ;
    }
    let s: u32 = s64 as u32;
    let rem: u64 = n - s64 * s64;
    let p: u32 = if rem > s64 {
        s + 1
    } else {
        s
    };
    let fexp: u32 = ((e + 150 - (k as i32)) as u32) / 2;
    let r: u32 = fexp * 0x80_0000 + (p - 0x80_0000);
    proof {
        assert(r == sqrt_pos_bits(a));
    }
    r
}

} // verus!
