//! `Q24`: a signed fixed-point scalar with a 64-bit mantissa and 24
//! fractional bits, the library's own verified implementation of the
//! numeric capability contracts.
//!
//! A `Q24` represents the number `m / 2^24` for a mantissa `m: i64`.
//! Arithmetic truncates toward zero and saturates at the mantissa range,
//! exactly as the scaled-integer model of the capability contracts states.

use vstd::prelude::*;
use vstd::arithmetic::div_mod::lemma_div_nonincreasing;
use vstd::arithmetic::div_mod::lemma_div_pos_is_pos;
use vstd::arithmetic::div_mod::lemma_fundamental_div_mod;
use vstd::arithmetic::div_mod::lemma_fundamental_div_mod_converse;
use vstd::arithmetic::div_mod::lemma_mod_bound;

use crate::traits::MixedCeil;
use crate::traits::MixedConsts;
use crate::traits::MixedFloor;
use crate::traits::MixedNum;
use crate::traits::MixedNumConversion;
use crate::traits::MixedNumSigned;
use crate::traits::MixedOne;
use crate::traits::MixedPi;
use crate::traits::MixedVal;
use crate::traits::MixedZero;
use crate::traits::abs_i;
use crate::traits::sat_i;
use crate::traits::sat_val;
use crate::traits::tdiv;
use crate::traits::math_traits::MixedAbs;
use crate::traits::math_traits::MixedAtan;
use crate::traits::math_traits::MixedCos;
use crate::traits::math_traits::MixedOps;
use crate::traits::math_traits::MixedPowi;
use crate::traits::math_traits::MixedSin;
use crate::traits::math_traits::MixedSqrt;
use crate::traits::math_traits::MixedTan;
use crate::traits::math_traits::MixedTrigonometry;
use crate::traits::math_traits::MixedWrapPhase;
use crate::traits::math_traits::wrap_val;
use crate::traits::div_val;
use crate::traits::mul_val;
use crate::traits::sub_val;
use crate::trigonometry;
use crate::trigonometry::cos_val;
use crate::trigonometry::lemma_wrap_val_canonical;
use crate::trigonometry::sin_val;
use crate::trigonometry::atan::abs_val_of;
use crate::trigonometry::atan::atan2_val;
use crate::trigonometry::sqrt::niirf_val;
use crate::complex::Cartesian;
use crate::complex::Polar;
use vstd::string::StringExecFns;

verus! {

/// Mantissa scale: `2^24`.
pub const Q24_DEN: i64 = 0x100_0000;

/// Mantissa of the closest `Q24` value to pi: `round(pi * 2^24)`.
pub const Q24_PI: i64 = 52707179;

/// Signed fixed-point number with 24 fractional bits over an `i64`
/// mantissa: the value `m / 2^24`.
#[derive(Clone, Copy, Debug, PartialEq, Eq, Structural)]
pub struct Q24 {
    m: i64,
}

/// Product of two integers within the given magnitudes stays within the
/// product of the magnitudes.
proof fn lemma_mul_range(a: int, b: int, ab: int, bb: int)
    by (nonlinear_arith)
    requires
        0 <= ab,
        0 <= bb,
        -ab <= a <= ab,
        -bb <= b <= bb,
    ensures
        -(ab * bb) <= a * b <= ab * bb,
{
}

/// Clamp a wide intermediate mantissa into the `i64` range.
fn sat_q(x: i128) -> (r: Q24)
    ensures
        r.val() == sat_val::<Q24>(x as int),
{
    if x < (i64::MIN as i128) {
        Q24 { m: i64::MIN }
    } else if (i64::MAX as i128) < x {
        Q24 { m: i64::MAX }
    } else {
        Q24 { m: x as i64 }
    }
}

/// Truncating division of a wide mantissa by a nonzero wide divisor,
/// matching [`tdiv`] exactly.
fn tdiv_q(n: i128, b: i128) -> (r: Q24)
    requires
        b != 0,
        -(0x40000000000000000000000000000000int) <= n
            <= 0x40000000000000000000000000000000int,
    ensures
        r.val() == sat_val::<Q24>(tdiv(n as int, b as int)),
{
    let neg: bool = (n < 0) != (b < 0);
    let magn: u128 = if n < 0 {
        (-n) as u128
    } else {
        n as u128
    };
    let magb: u128 = if b < 0 {
        if b == i128::MIN {
            0x80000000000000000000000000000000u128
        } else {
            (-b) as u128
        }
    } else {
        b as u128
    };
    let q: u128 = magn / magb;
    proof {
        assert(magn as int == abs_i(n as int));
        assert(magb as int == abs_i(b as int));
        lemma_div_pos_is_pos(magn as int, magb as int);
        lemma_div_nonincreasing(magn as int, magb as int);
        assert(q as int == abs_i(n as int) / abs_i(b as int));
    }
    if neg {
        sat_q(-(q as i128))
    } else {
        sat_q(q as i128)
    }
}

impl Q24 {
    /// Reinterpret a raw mantissa as a `Q24`: the value `bits / 2^24`.
    pub fn from_bits(bits: i64) -> (r: Q24)
        ensures
            r.val() == bits as int,
    {
        Q24 { m: bits }
    }

    /// The raw mantissa of `self`.
    pub fn to_bits(&self) -> (r: i64)
        ensures
            r as int == self.val(),
    {
        self.m
    }
}

impl MixedVal for Q24 {
    closed spec fn val(self) -> int {
        self.m as int
    }

    closed spec fn den_spec() -> int {
        Q24_DEN as int
    }

    closed spec fn min_val_spec() -> int {
        i64::MIN as int
    }

    closed spec fn max_val_spec() -> int {
        i64::MAX as int
    }

    closed spec fn from_val(v: int) -> Q24 {
        Q24 { m: v as i64 }
    }

    proof fn law_model() {
    }

    proof fn law_val_in_range(self) {
    }

    proof fn law_from_val(v: int) {
    }

    proof fn law_from_val_of(self) {
    }
}

impl MixedZero for Q24 {
    closed spec fn zero_spec() -> Q24 {
        Q24 { m: 0 }
    }

    fn mixed_zero() -> (r: Q24) {
        Q24 { m: 0 }
    }
}

impl MixedOne for Q24 {
    closed spec fn one_spec() -> Q24 {
        Q24 { m: Q24_DEN }
    }

    fn mixed_one() -> (r: Q24) {
        Q24 { m: Q24_DEN }
    }
}

impl MixedPi for Q24 {
    closed spec fn pi_val() -> int {
        Q24_PI as int
    }

    proof fn law_pi() {
    }

    fn mixed_pi() -> (r: Q24) {
        Q24 { m: Q24_PI }
    }

    fn mixed_tau() -> (r: Q24) {
        Q24 { m: 2 * Q24_PI }
    }
}

impl MixedConsts for Q24 {
}

impl MixedNumSigned for Q24 {
    fn mixed_neg(&self) -> (r: Q24) {
        sat_q(-(self.m as i128))
    }
}

impl MixedOps for Q24 {
    fn mixed_add(self, rhs: Q24) -> (r: Q24) {
        sat_q((self.m as i128) + (rhs.m as i128))
    }

    fn mixed_sub(self, rhs: Q24) -> (r: Q24) {
        sat_q((self.m as i128) - (rhs.m as i128))
    }

    fn mixed_mul(self, rhs: Q24) -> (r: Q24) {
        proof {
            lemma_mul_range(
                self.m as int,
                rhs.m as int,
                0x8000000000000000int,
                0x8000000000000000int,
            );
        }
        let p: i128 = (self.m as i128) * (rhs.m as i128);
        tdiv_q(p, Q24_DEN as i128)
    }

    fn mixed_div(self, rhs: Q24) -> (r: Q24) {
        proof {
            lemma_mul_range(
                self.m as int,
                Q24_DEN as int,
                0x8000000000000000int,
                0x1000000int,
            );
        }
        let n: i128 = (self.m as i128) * (Q24_DEN as i128);
        tdiv_q(n, rhs.m as i128)
    }
}

impl MixedNum for Q24 {
    proof fn law_zero() {
    }

    proof fn law_one() {
    }

    proof fn law_from_i64(n: i64) {
        Q24::law_from_val(sat_val::<Q24>(n as int * Q24_DEN as int));
    }

    fn mixed_max_value() -> (r: Q24) {
        Q24 { m: i64::MAX }
    }

    fn mixed_min_value() -> (r: Q24) {
        Q24 { m: i64::MIN }
    }

    fn mixed_sign(&self) -> (r: Q24) {
        if self.m < 0 {
            Q24 { m: -Q24_DEN }
        } else {
            Q24 { m: Q24_DEN }
        }
    }

    fn mixed_is_positive(&self) -> (r: bool) {
        0 < self.m
    }

    fn mixed_is_negative(&self) -> (r: bool) {
        self.m < 0
    }

    fn mixed_lt(&self, other: &Q24) -> (r: bool) {
        self.m < other.m
    }

    fn mixed_eq(&self, other: &Q24) -> (r: bool) {
        self.m == other.m
    }
}

impl MixedNumConversion<i32> for Q24 {
    closed spec fn from_num_spec(number: i32) -> Q24 {
        Q24::from_val(sat_val::<Q24>(number as int * Q24_DEN as int))
    }

    closed spec fn to_num_spec(&self) -> i32 {
        sat_i(tdiv(self.val(), Q24_DEN as int), i32::MIN as int, i32::MAX as int) as i32
    }

    fn mixed_from_num(number: i32) -> (r: Q24) {
        proof {
            lemma_mul_range(number as int, Q24_DEN as int, 0x80000000int, 0x1000000int);
        }
        let r = sat_q((number as i128) * (Q24_DEN as i128));
        proof {
            Q24::law_from_val_of(r);
        }
        r
    }

    fn mixed_to_num(&self) -> (r: i32) {
        let t: Q24 = tdiv_q(self.m as i128, Q24_DEN as i128);
        if t.m < (i32::MIN as i64) {
            i32::MIN
        } else if (i32::MAX as i64) < t.m {
            i32::MAX
        } else {
            t.m as i32
        }
    }
}

impl MixedNumConversion<i64> for Q24 {
    closed spec fn from_num_spec(number: i64) -> Q24 {
        Q24::from_val(sat_val::<Q24>(number as int * Q24_DEN as int))
    }

    closed spec fn to_num_spec(&self) -> i64 {
        tdiv(self.val(), Q24_DEN as int) as i64
    }

    fn mixed_from_num(number: i64) -> (r: Q24) {
        proof {
            lemma_mul_range(number as int, Q24_DEN as int, 0x8000000000000000int, 0x1000000int);
        }
        let r = sat_q((number as i128) * (Q24_DEN as i128));
        proof {
            Q24::law_from_val_of(r);
        }
        r
    }

    fn mixed_to_num(&self) -> (r: i64) {
        let t: Q24 = tdiv_q(self.m as i128, Q24_DEN as i128);
        t.m
    }
}

impl MixedNumConversion<u32> for Q24 {
    closed spec fn from_num_spec(number: u32) -> Q24 {
        Q24::from_val(sat_val::<Q24>(number as int * Q24_DEN as int))
    }

    closed spec fn to_num_spec(&self) -> u32 {
        sat_i(tdiv(self.val(), Q24_DEN as int), 0, u32::MAX as int) as u32
    }

    fn mixed_from_num(number: u32) -> (r: Q24) {
        proof {
            lemma_mul_range(number as int, Q24_DEN as int, 0x100000000int, 0x1000000int);
        }
        let r = sat_q((number as i128) * (Q24_DEN as i128));
        proof {
            Q24::law_from_val_of(r);
        }
        r
    }

    fn mixed_to_num(&self) -> (r: u32) {
        let t: Q24 = tdiv_q(self.m as i128, Q24_DEN as i128);
        if t.m < 0 {
            0
        } else if (u32::MAX as i64) < t.m {
            u32::MAX
        } else {
            t.m as u32
        }
    }
}

impl MixedNumConversion<u64> for Q24 {
    closed spec fn from_num_spec(number: u64) -> Q24 {
        Q24::from_val(sat_val::<Q24>(number as int * Q24_DEN as int))
    }

    closed spec fn to_num_spec(&self) -> u64 {
        sat_i(tdiv(self.val(), Q24_DEN as int), 0, u64::MAX as int) as u64
    }

    fn mixed_from_num(number: u64) -> (r: Q24) {
        proof {
            lemma_mul_range(number as int, Q24_DEN as int, 0x10000000000000000int, 0x1000000int);
        }
        let r = sat_q((number as i128) * (Q24_DEN as i128));
        proof {
            Q24::law_from_val_of(r);
        }
        r
    }

    fn mixed_to_num(&self) -> (r: u64) {
        let t: Q24 = tdiv_q(self.m as i128, Q24_DEN as i128);
        if t.m < 0 {
            0u64
        } else {
            t.m as u64
        }
    }
}

/// Flooring (Euclidean) division of a mantissa by the scale.
fn floor_div_den(x: i128) -> (r: i128)
    requires
        -(0x8000000000000000int) <= x <= 0x8000000000000000int,
    ensures
        r as int == (x as int) / (Q24_DEN as int),
        -(0x8000000000000001int) <= r as int <= 0x8000000000000000int,
{
    let neg: bool = x < 0;
    let mag: u128 = if neg {
        (-x) as u128
    } else {
        x as u128
    };
    let q: u128 = mag / (Q24_DEN as u128);
    let rem: u128 = mag % (Q24_DEN as u128);
    proof {
        lemma_div_pos_is_pos(mag as int, Q24_DEN as int);
        lemma_div_nonincreasing(mag as int, Q24_DEN as int);
        lemma_mod_bound(mag as int, Q24_DEN as int);
        lemma_fundamental_div_mod(mag as int, Q24_DEN as int);
    }
    if neg {
        if rem == 0 {
            proof {
                lemma_fundamental_div_mod_converse(
                    x as int,
                    Q24_DEN as int,
                    -(q as int),
                    0,
                );
            }
            -(q as i128)
        } else {
            proof {
                lemma_fundamental_div_mod_converse(
                    x as int,
                    Q24_DEN as int,
                    -(q as int) - 1,
                    Q24_DEN as int - rem as int,
                );
            }
            -(q as i128) - 1
        }
    } else {
        q as i128
    }
}

/// Mantissa of the arcsine of `xv` as `Q24` computes it:
/// `atan2(x, sqrt(1 - x^2))` over the library's own kernels.
closed spec fn asin_val_q(xv: int) -> int {
    atan2_val::<Q24>(
        xv,
        niirf_val::<Q24>(sub_val::<Q24>(Q24_DEN as int, mul_val::<Q24>(xv, xv)), 2),
    )
}

/// Mantissa of the arccosine of `xv` as `Q24` computes it:
/// `atan2(sqrt(1 - x^2), x)` over the library's own kernels.
closed spec fn acos_val_q(xv: int) -> int {
    atan2_val::<Q24>(
        niirf_val::<Q24>(sub_val::<Q24>(Q24_DEN as int, mul_val::<Q24>(xv, xv)), 2),
        xv,
    )
}

impl MixedAbs for Q24 {
    closed spec fn abs_spec(&self) -> Q24 {
        Q24::from_val(abs_val_of::<Q24>(self.val()))
    }

    fn mixed_abs(&self) -> (r: Q24) {
        if self.m < 0 {
            sat_q(-(self.m as i128))
        } else {
            *self
        }
    }
}

impl MixedPowi for Q24 {
    fn mixed_powi(&self, exp: i32) -> (r: Q24) {
        trigonometry::powi(*self, exp as usize)
    }
}

impl MixedWrapPhase for Q24 {
    fn mixed_wrap_phase(&self) -> (r: Q24) {
        trigonometry::wrap_phase(*self)
    }
}

impl MixedSin for Q24 {
    closed spec fn sin_spec(&self) -> Q24 {
        Q24::from_val(sin_val::<Q24>(wrap_val::<Q24>(self.val())))
    }

    closed spec fn sincos_spec(&self) -> (Q24, Q24) {
        (
            Q24::from_val(sin_val::<Q24>(wrap_val::<Q24>(self.val()))),
            Q24::from_val(cos_val::<Q24>(self.val())),
        )
    }

    closed spec fn asin_spec(&self) -> Q24 {
        Q24::from_val(asin_val_q(self.val()))
    }

    fn mixed_sin(&self) -> (r: Q24) {
        proof {
            lemma_wrap_val_canonical::<Q24>(self.val());
        }
        trigonometry::sin(trigonometry::wrap_phase(*self))
    }

    fn mixed_sincos(&self) -> (r: (Q24, Q24)) {
        (self.mixed_sin(), self.mixed_cos())
    }

    fn mixed_asin(&self) -> (r: Q24) {
        let one: Q24 = Q24 { m: Q24_DEN };
        let t: Q24 = one.mixed_sub(self.mixed_mul(*self));
        let s: Q24 = trigonometry::sqrt::niirf(t, 2);
        trigonometry::atan::atan2(*self, s)
    }
}

impl MixedCos for Q24 {
    closed spec fn cos_spec(&self) -> Q24 {
        Q24::from_val(cos_val::<Q24>(self.val()))
    }

    closed spec fn acos_spec(&self) -> Q24 {
        Q24::from_val(acos_val_q(self.val()))
    }

    fn mixed_cos(&self) -> (r: Q24) {
        trigonometry::cos(*self)
    }

    fn mixed_acos(&self) -> (r: Q24) {
        let one: Q24 = Q24 { m: Q24_DEN };
        let t: Q24 = one.mixed_sub(self.mixed_mul(*self));
        let s: Q24 = trigonometry::sqrt::niirf(t, 2);
        trigonometry::atan::atan2(s, *self)
    }
}

impl MixedAtan for Q24 {
    closed spec fn atan_spec(&self) -> Q24 {
        Q24::from_val(atan2_val::<Q24>(self.val(), Q24_DEN as int))
    }

    closed spec fn atan2_spec(&self, other: Q24) -> Q24 {
        Q24::from_val(atan2_val::<Q24>(self.val(), other.val()))
    }

    closed spec fn atan2_poly_spec(&self, other: Q24) -> Q24 {
        Q24::from_val(atan2_val::<Q24>(self.val(), other.val()))
    }

    fn mixed_atan(&self) -> (r: Q24) {
        trigonometry::atan::atan2(*self, Q24 { m: Q24_DEN })
    }

    fn mixed_atan2(&self, other: Q24) -> (r: Q24) {
        trigonometry::atan::atan2(*self, other)
    }

    fn mixed_atan2_poly(&self, other: Q24) -> (r: Q24) {
        trigonometry::atan::atan2(*self, other)
    }
}

impl MixedTrigonometry for Q24 {
}

impl MixedSqrt for Q24 {
    closed spec fn sqrt_spec(&self) -> Q24 {
        Q24::from_val(niirf_val::<Q24>(self.val(), 2))
    }

    closed spec fn niirf_spec(&self) -> Q24 {
        Q24::from_val(niirf_val::<Q24>(self.val(), 2))
    }

    fn mixed_sqrt(&self) -> (r: Q24) {
        trigonometry::sqrt::niirf(*self, 2)
    }

    fn mixed_niirf(&self) -> (r: Q24) {
        trigonometry::sqrt::niirf(*self, 2)
    }
}

impl MixedTan for Q24 {
    closed spec fn tan_spec(&self) -> Q24 {
        let s = sin_val::<Q24>(wrap_val::<Q24>(self.val()));
        let c = cos_val::<Q24>(self.val());
        if c == 0 {
            Q24 { m: i64::MAX }
        } else {
            Q24::from_val(div_val::<Q24>(s, c))
        }
    }

    fn mixed_tan(&self) -> (r: Q24) {
        proof {
            lemma_wrap_val_canonical::<Q24>(self.val());
        }
        let s: Q24 = trigonometry::sin(trigonometry::wrap_phase(*self));
        let c: Q24 = trigonometry::cos(*self);
        if c.m == 0 {
            Q24 { m: i64::MAX }
        } else {
            s.mixed_div(c)
        }
    }
}

/// The decimal digit character for `d`.
pub open spec fn digit_str(d: int) -> Seq<char> {
    if d == 0 {
        "0"@
    } else if d == 1 {
        "1"@
    } else if d == 2 {
        "2"@
    } else if d == 3 {
        "3"@
    } else if d == 4 {
        "4"@
    } else if d == 5 {
        "5"@
    } else if d == 6 {
        "6"@
    } else if d == 7 {
        "7"@
    } else if d == 8 {
        "8"@
    } else {
        "9"@
    }
}

/// Decimal digits of a non-negative integer, most significant first;
/// empty for zero.  `fuel` bounds the recursion and is ample at 20 for any
/// 64-bit value.
pub open spec fn dec_chars(n: int, fuel: nat) -> Seq<char>
    decreases fuel,
{
    if fuel == 0 || n <= 0 {
        Seq::empty()
    } else {
        dec_chars(n / 10, (fuel - 1) as nat) + digit_str(n % 10)
    }
}

/// Decimal digits of the integer part of a magnitude; zero renders as "0".
pub open spec fn int_part_chars(n: int) -> Seq<char> {
    if n == 0 {
        "0"@
    } else {
        dec_chars(n, 20)
    }
}

/// Decimal digits of a fractional mantissa `0 <= f < 2^24`, produced by
/// repeated multiplication by ten; `fuel` of 24 exhausts every fraction.
pub open spec fn frac_chars(f: int, fuel: nat) -> Seq<char>
    decreases fuel,
{
    if fuel == 0 || f <= 0 {
        Seq::empty()
    } else {
        digit_str((f * 10) / (Q24_DEN as int)) + frac_chars((f * 10) % (Q24_DEN as int), (fuel - 1) as nat)
    }
}

/// Decimal rendering of a non-negative mantissa: the integer part, then a
/// point and the fraction digits when the fraction is non-zero.
pub open spec fn q24_mag_chars(mag: int) -> Seq<char> {
    int_part_chars(mag / (Q24_DEN as int)) + (if mag % (Q24_DEN as int) == 0 {
        Seq::<char>::empty()
    } else {
        "."@ + frac_chars(mag % (Q24_DEN as int), 24)
    })
}

/// Decimal rendering of a `Q24` value: a minus sign for negative values,
/// then the magnitude.
pub open spec fn q24_chars(v: int) -> Seq<char> {
    (if v < 0 {
        "-"@
    } else {
        Seq::<char>::empty()
    }) + q24_mag_chars(abs_i(v))
}

/// A quotient by a divisor that exceeds a tenth of the dividend is a
/// single digit.
proof fn lemma_quot_is_digit(t: int, den: int)
    requires
        0 < den,
        0 <= t < 10 * den,
    ensures
        0 <= t / den < 10,
{
    lemma_div_pos_is_pos(t, den);
    lemma_fundamental_div_mod(t, den);
    lemma_mod_bound(t, den);
    assert(t / den < 10) by (nonlinear_arith)
        requires
            den * (t / den) + t % den == t,
            0 <= t % den,
            t < 10 * den,
            0 < den,
            0 <= t / den,
    ;
}

/// The decimal digit character for `d`, as a string slice.
fn digit_to_str(d: u64) -> (r: &'static str)
    requires
        d < 10,
    ensures
        r@ == digit_str(d as int),
{
    if d == 0 {
        "0"
    } else if d == 1 {
        "1"
    } else if d == 2 {
        "2"
    } else if d == 3 {
        "3"
    } else if d == 4 {
        "4"
    } else if d == 5 {
        "5"
    } else if d == 6 {
        "6"
    } else if d == 7 {
        "7"
    } else if d == 8 {
        "8"
    } else {
        "9"
    }
}

/// Append the decimal digits of `n`, most significant first.
fn push_dec(s: &mut String, n: u64, fuel: u64)
    ensures
        final(s)@ == old(s)@ + dec_chars(n as int, fuel as nat),
    decreases fuel,
{
    if fuel == 0 || n == 0 {
        assert(final(s)@ =~= old(s)@ + dec_chars(n as int, fuel as nat));
        return ;
    }
    proof {
        lemma_mod_bound(n as int, 10);
    }
    push_dec(s, n / 10, fuel - 1);
    s.append(digit_to_str(n % 10));
    assert(s@ =~= old(s)@ + dec_chars(n as int, fuel as nat));
}

/// Append the decimal digits of the fractional mantissa `f`.
fn push_frac(s: &mut String, f: u64, fuel: u64)
    requires
        f < 0x1000000,
    ensures
        final(s)@ == old(s)@ + frac_chars(f as int, fuel as nat),
    decreases fuel,
{
    if fuel == 0 || f == 0 {
        assert(final(s)@ =~= old(s)@ + frac_chars(f as int, fuel as nat));
        return ;
    }
    let t: u64 = f * 10;
    proof {
        lemma_quot_is_digit(t as int, Q24_DEN as int);
        lemma_mod_bound(t as int, Q24_DEN as int);
    }
    s.append(digit_to_str(t / (Q24_DEN as u64)));
    push_frac(s, t % (Q24_DEN as u64), fuel - 1);
    assert(s@ =~= old(s)@ + frac_chars(f as int, fuel as nat));
}

/// Render a non-negative mantissa in decimal.
fn q24_mag_string(mag: u64) -> (r: String)
    ensures
        r@ == q24_mag_chars(mag as int),
{
    let ip: u64 = mag / (Q24_DEN as u64);
    let fp: u64 = mag % (Q24_DEN as u64);
    proof {
        lemma_mod_bound(mag as int, Q24_DEN as int);
    }
    let mut s: String = String::from_str("");
    proof {
        reveal_strlit("");
        reveal_strlit("0");
        assert(s@ =~= Seq::<char>::empty());
    }
    if ip == 0 {
        s.append("0");
    } else {
        push_dec(&mut s, ip, 20);
    }
    if fp != 0 {
        s.append(".");
        push_frac(&mut s, fp, 24);
    }
    proof {
        assert(s@ =~= q24_mag_chars(mag as int));
    }
    s
}

/// The magnitude of the mantissa of `x`, as an unsigned value.
fn q24_mag_of(x: &Q24) -> (r: u64)
    ensures
        r as int == abs_i(x.val()),
{
    if x.m < 0 {
        ((-(x.m as i128)) as u128) as u64
    } else {
        x.m as u64
    }
}

impl Q24 {
    /// Render the represented value in decimal, with a leading minus sign
    /// for negative values and the fraction digits after a point when the
    /// fraction is non-zero.
    pub fn to_string(&self) -> (r: String)
        ensures
            r@ == q24_chars(self.val()),
    {
        let mag: u64 = q24_mag_of(self);
        let mut s: String = if self.m < 0 {
            String::from_str("-")
        } else {
            String::from_str("")
        };
        proof {
            reveal_strlit("");
            assert(s@ =~= (if self.val() < 0 {
                "-"@
            } else {
                Seq::<char>::empty()
            }));
        }
        s.append(q24_mag_string(mag).as_str());
        proof {
            assert(s@ =~= q24_chars(self.val()));
        }
        s
    }
}

/// Rendering of a Cartesian value over `Q24`: the real part, the sign of
/// the imaginary part, the imaginary magnitude, and a trailing `i`.
pub open spec fn cartesian_q24_chars(c: Cartesian<Q24>) -> Seq<char> {
    q24_chars(c.re.val()) + (if c.im.val() < 0 {
        "-"@
    } else {
        "+"@
    }) + q24_mag_chars(abs_i(c.im.val())) + "i"@
}

/// Rendering of a polar value over `Q24`: the magnitude, an angle mark,
/// and the angle.
pub open spec fn polar_q24_chars(p: Polar<Q24>) -> Seq<char> {
    q24_chars(p.mag.val()) + "\u{2220}"@ + q24_chars(p.ang.val())
}

impl Cartesian<Q24> {
    /// Render as `<re><sign><im>i`, e.g. `1+2i` or `-2+4i`.
    pub fn to_string(&self) -> (r: String)
        ensures
            r@ == cartesian_q24_chars(*self),
    {
        let mut s: String = self.re.to_string();
        if self.im.m < 0 {
            s.append("-");
        } else {
            s.append("+");
        }
        s.append(q24_mag_string(q24_mag_of(&self.im)).as_str());
        s.append("i");
        proof {
            assert(s@ =~= cartesian_q24_chars(*self));
        }
        s
    }
}

impl Polar<Q24> {
    /// Render as `<mag>\u{2220}<ang>`.
    pub fn to_string(&self) -> (r: String)
        ensures
            r@ == polar_q24_chars(*self),
    {
        let mut s: String = self.mag.to_string();
        s.append("\u{2220}");
        s.append(self.ang.to_string().as_str());
        proof {
            assert(s@ =~= polar_q24_chars(*self));
        }
        s
    }
}

impl MixedCeil for Q24 {
    fn mixed_ceil(&self) -> (r: Q24) {
        let f: i128 = floor_div_den(-(self.m as i128));
        proof {
            lemma_mul_range(f as int, Q24_DEN as int, 0x8000000000000001int, 0x1000000int);
        }
        sat_q(-(f * (Q24_DEN as i128)))
    }
}

impl MixedFloor for Q24 {
    fn mixed_floor(&self) -> (r: Q24) {
        let f: i128 = floor_div_den(self.m as i128);
        proof {
            lemma_mul_range(f as int, Q24_DEN as int, 0x8000000000000001int, 0x1000000int);
        }
        sat_q(f * (Q24_DEN as i128))
    }
}

} // verus!
