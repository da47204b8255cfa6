//! Integer scalars as capability providers: `i64` with a scale of one.
//!
//! An integer type has no representation of pi, so it implements the
//! ordering, conversion, arithmetic and power capabilities but not the
//! constant or trigonometric ones; generic code asking only for the former
//! runs over it unchanged.  The other integer widths follow the same
//! pattern with their own ranges.

use vstd::prelude::*;
use vstd::arithmetic::div_mod::lemma_div_nonincreasing;
use vstd::arithmetic::div_mod::lemma_div_pos_is_pos;

use crate::traits::MixedNum;
use crate::traits::MixedNumConversion;
use crate::traits::MixedNumSigned;
use crate::traits::MixedOne;
use crate::traits::MixedVal;
use crate::traits::MixedZero;
use crate::traits::abs_i;
use crate::traits::sat_i;
use crate::traits::sat_val;
use crate::traits::tdiv;
use crate::traits::math_traits::MixedAbs;
use crate::traits::math_traits::MixedOps;
use crate::traits::math_traits::MixedPowi;
use crate::trigonometry;

verus! {

/// Clamp a wide intermediate into the `i64` range.
fn sat_i64(x: i128) -> (r: i64)
    ensures
        r as int == sat_val::<i64>(x as int),
{
    if x < (i64::MIN as i128) {
        i64::MIN
    } else if (i64::MAX as i128) < x {
        i64::MAX
    } else {
        x as i64
    }
}

/// Product of two integers within the given magnitudes stays within the
/// product of the magnitudes.
proof fn lemma_mul_range_i64(a: int, b: int, ab: int, bb: int)
    by (nonlinear_arith)
    requires
        0 <= ab,
        0 <= bb,
        -ab <= a <= ab,
        -bb <= b <= bb,
    ensures
        -(ab * bb) <= a * b <= ab * bb,
{
}

/// Truncating division of wide intermediates, matching [`tdiv`] exactly.
fn tdiv_i64(n: i128, b: i128) -> (r: i64)
    requires
        b != 0,
        -(0x40000000000000000000000000000000int) <= n
            <= 0x40000000000000000000000000000000int,
    ensures
        r as int == sat_val::<i64>(tdiv(n as int, b as int)),
{
    let neg: bool = (n < 0) != (b < 0);
    let magn: u128 = if n < 0 {
        (-n) as u128
    } else {
        n as u128
    };
    let magb: u128 = if b < 0 {
        if b == i128::MIN {
            0x80000000000000000000000000000000u128
        } else {
            (-b) as u128
        }
    } else {
        b as u128
    };
    let q: u128 = magn / magb;
    proof {
        assert(magn as int == abs_i(n as int));
        assert(magb as int == abs_i(b as int));
        lemma_div_pos_is_pos(magn as int, magb as int);
        lemma_div_nonincreasing(magn as int, magb as int);
        assert(q as int == abs_i(n as int) / abs_i(b as int));
    }
    if neg {
        sat_i64(-(q as i128))
    } else {
        sat_i64(q as i128)
    }
}

impl MixedVal for i64 {
    closed spec fn val(self) -> int {
        self as int
    }

    closed spec fn den_spec() -> int {
        1
    }

    closed spec fn min_val_spec() -> int {
        i64::MIN as int
    }

    closed spec fn max_val_spec() -> int {
        i64::MAX as int
    }

    closed spec fn from_val(v: int) -> i64 {
        v as i64
    }

    proof fn law_model() {
    }

    proof fn law_val_in_range(self) {
    }

    proof fn law_from_val(v: int) {
    }

    proof fn law_from_val_of(self) {
    }
}

impl MixedZero for i64 {
    closed spec fn zero_spec() -> i64 {
        0
    }

    fn mixed_zero() -> (r: i64) {
        0
    }
}

impl MixedOne for i64 {
    closed spec fn one_spec() -> i64 {
        1
    }

    fn mixed_one() -> (r: i64) {
        1
    }
}

impl MixedNumSigned for i64 {
    fn mixed_neg(&self) -> (r: i64) {
        sat_i64(-(*self as i128))
    }
}

impl MixedOps for i64 {
    fn mixed_add(self, rhs: i64) -> (r: i64) {
        sat_i64((self as i128) + (rhs as i128))
    }

    fn mixed_sub(self, rhs: i64) -> (r: i64) {
        sat_i64((self as i128) - (rhs as i128))
    }

    fn mixed_mul(self, rhs: i64) -> (r: i64) {
        proof {
            lemma_mul_range_i64(
                self as int,
                rhs as int,
                0x8000000000000000int,
                0x8000000000000000int,
            );
        }
        let p: i128 = (self as i128) * (rhs as i128);
        tdiv_i64(p, 1)
    }

    fn mixed_div(self, rhs: i64) -> (r: i64) {
        tdiv_i64(self as i128, rhs as i128)
    }
}

impl MixedNum for i64 {
    proof fn law_zero() {
    }

    proof fn law_one() {
    }

    proof fn law_from_i64(n: i64) {
    }

    fn mixed_max_value() -> (r: i64) {
        i64::MAX
    }

    fn mixed_min_value() -> (r: i64) {
        i64::MIN
    }

    fn mixed_sign(&self) -> (r: i64) {
        if *self < 0 {
            -1
        } else {
            1
        }
    }

    fn mixed_is_positive(&self) -> (r: bool) {
        0 < *self
    }

    fn mixed_is_negative(&self) -> (r: bool) {
        *self < 0
    }

    fn mixed_lt(&self, other: &i64) -> (r: bool) {
        *self < *other
    }

    fn mixed_eq(&self, other: &i64) -> (r: bool) {
        *self == *other
    }
}

impl MixedNumConversion<i32> for i64 {
    closed spec fn from_num_spec(number: i32) -> i64 {
        number as i64
    }

    closed spec fn to_num_spec(&self) -> i32 {
        sat_i(*self as int, i32::MIN as int, i32::MAX as int) as i32
    }

    fn mixed_from_num(number: i32) -> (r: i64) {
        number as i64
    }

    fn mixed_to_num(&self) -> (r: i32) {
        if *self < (i32::MIN as i64) {
            i32::MIN
        } else if (i32::MAX as i64) < *self {
            i32::MAX
        } else {
            *self as i32
        }
    }
}

impl MixedNumConversion<i64> for i64 {
    closed spec fn from_num_spec(number: i64) -> i64 {
        number
    }

    closed spec fn to_num_spec(&self) -> i64 {
        *self
    }

    fn mixed_from_num(number: i64) -> (r: i64) {
        number
    }

    fn mixed_to_num(&self) -> (r: i64) {
        *self
    }
}

impl MixedNumConversion<u32> for i64 {
    closed spec fn from_num_spec(number: u32) -> i64 {
        number as i64
    }

    closed spec fn to_num_spec(&self) -> u32 {
        sat_i(*self as int, 0, u32::MAX as int) as u32
    }

    fn mixed_from_num(number: u32) -> (r: i64) {
        number as i64
    }

    fn mixed_to_num(&self) -> (r: u32) {
        if *self < 0 {
            0
        } else if (u32::MAX as i64) < *self {
            u32::MAX
        } else {
            *self as u32
        }
    }
}

impl MixedNumConversion<u64> for i64 {
    closed spec fn from_num_spec(number: u64) -> i64 {
        sat_i(number as int, i64::MIN as int, i64::MAX as int) as i64
    }

    closed spec fn to_num_spec(&self) -> u64 {
        sat_i(*self as int, 0, u64::MAX as int) as u64
    }

    fn mixed_from_num(number: u64) -> (r: i64) {
        if (i64::MAX as u64) < number {
            i64::MAX
        } else {
            number as i64
        }
    }

    fn mixed_to_num(&self) -> (r: u64) {
        if *self < 0 {
            0u64
        } else {
            *self as u64
        }
    }
}

impl MixedAbs for i64 {
    closed spec fn abs_spec(&self) -> i64 {
        sat_val::<i64>(abs_i(*self as int)) as i64
    }

    fn mixed_abs(&self) -> (r: i64) {
        if *self < 0 {
            sat_i64(-(*self as i128))
        } else {
            *self
        }
    }
}

impl MixedPowi for i64 {
    fn mixed_powi(&self, exp: i32) -> (r: i64) {
        trigonometry::powi(*self, exp as usize)
    }
}

/// Clamp a wide signed intermediate into the `u64` range.
fn sat_u64(x: i128) -> (r: u64)
    ensures
        r as int == sat_val::<u64>(x as int),
{
    if x < 0 {
        0u64
    } else if (u64::MAX as i128) < x {
        u64::MAX
    } else {
        x as u64
    }
}

impl MixedVal for u64 {
    closed spec fn val(self) -> int {
        self as int
    }

    closed spec fn den_spec() -> int {
        1
    }

    closed spec fn min_val_spec() -> int {
        0
    }

    closed spec fn max_val_spec() -> int {
        u64::MAX as int
    }

    closed spec fn from_val(v: int) -> u64 {
        v as u64
    }

    proof fn law_model() {
    }

    proof fn law_val_in_range(self) {
    }

    proof fn law_from_val(v: int) {
    }

    proof fn law_from_val_of(self) {
    }
}

impl MixedZero for u64 {
    closed spec fn zero_spec() -> u64 {
        0
    }

    fn mixed_zero() -> (r: u64) {
        0
    }
}

impl MixedOne for u64 {
    closed spec fn one_spec() -> u64 {
        1
    }

    fn mixed_one() -> (r: u64) {
        1
    }
}

impl MixedOps for u64 {
    fn mixed_add(self, rhs: u64) -> (r: u64) {
        sat_u64((self as i128) + (rhs as i128))
    }

    fn mixed_sub(self, rhs: u64) -> (r: u64) {
        sat_u64((self as i128) - (rhs as i128))
    }

    fn mixed_mul(self, rhs: u64) -> (r: u64) {
        proof {
            lemma_mul_range_i64(
                self as int,
                rhs as int,
                0xffffffffffffffffint,
                0xffffffffffffffffint,
            );
        }
        let p: u128 = (self as u128) * (rhs as u128);
        proof {
            vstd::arithmetic::div_mod::lemma_div_basics(p as int);
        }
        if (u64::MAX as u128) < p {
            u64::MAX
        } else {
            p as u64
        }
    }

    fn mixed_div(self, rhs: u64) -> (r: u64) {
        let q: u128 = (self as u128) / (rhs as u128);
        proof {
            lemma_div_pos_is_pos(self as int, rhs as int);
            lemma_div_nonincreasing(self as int, rhs as int);
        }
        q as u64
    }
}

impl MixedNum for u64 {
    proof fn law_zero() {
    }

    proof fn law_one() {
    }

    proof fn law_from_i64(n: i64) {
    }

    fn mixed_max_value() -> (r: u64) {
        u64::MAX
    }

    fn mixed_min_value() -> (r: u64) {
        0u64
    }

    fn mixed_sign(&self) -> (r: u64) {
        1u64
    }

    fn mixed_is_positive(&self) -> (r: bool) {
        0 < *self
    }

    fn mixed_is_negative(&self) -> (r: bool) {
        false
    }

    fn mixed_lt(&self, other: &u64) -> (r: bool) {
        *self < *other
    }

    fn mixed_eq(&self, other: &u64) -> (r: bool) {
        *self == *other
    }
}

impl MixedNumConversion<i32> for u64 {
    closed spec fn from_num_spec(number: i32) -> u64 {
        sat_i(number as int, 0, u64::MAX as int) as u64
    }

    closed spec fn to_num_spec(&self) -> i32 {
        sat_i(*self as int, i32::MIN as int, i32::MAX as int) as i32
    }

    fn mixed_from_num(number: i32) -> (r: u64) {
        if number < 0 {
            0u64
        } else {
            number as u64
        }
    }

    fn mixed_to_num(&self) -> (r: i32) {
        if (i32::MAX as u64) < *self {
            i32::MAX
        } else {
            *self as i32
        }
    }
}

impl MixedNumConversion<i64> for u64 {
    closed spec fn from_num_spec(number: i64) -> u64 {
        sat_i(number as int, 0, u64::MAX as int) as u64
    }

    closed spec fn to_num_spec(&self) -> i64 {
        sat_i(*self as int, i64::MIN as int, i64::MAX as int) as i64
    }

    fn mixed_from_num(number: i64) -> (r: u64) {
        if number < 0 {
            0u64
        } else {
            number as u64
        }
    }

    fn mixed_to_num(&self) -> (r: i64) {
        if (i64::MAX as u64) < *self {
            i64::MAX
        } else {
            *self as i64
        }
    }
}

impl MixedNumConversion<u32> for u64 {
    closed spec fn from_num_spec(number: u32) -> u64 {
        number as u64
    }

    closed spec fn to_num_spec(&self) -> u32 {
        sat_i(*self as int, 0, u32::MAX as int) as u32
    }

    fn mixed_from_num(number: u32) -> (r: u64) {
        number as u64
    }

    fn mixed_to_num(&self) -> (r: u32) {
        if (u32::MAX as u64) < *self {
            u32::MAX
        } else {
            *self as u32
        }
    }
}

impl MixedNumConversion<u64> for u64 {
    closed spec fn from_num_spec(number: u64) -> u64 {
        number
    }

    closed spec fn to_num_spec(&self) -> u64 {
        *self
    }

    fn mixed_from_num(number: u64) -> (r: u64) {
        number
    }

    fn mixed_to_num(&self) -> (r: u64) {
        *self
    }
}

impl MixedAbs for u64 {
    closed spec fn abs_spec(&self) -> u64 {
        *self
    }

    fn mixed_abs(&self) -> (r: u64) {
        *self
    }
}

impl MixedPowi for u64 {
    fn mixed_powi(&self, exp: i32) -> (r: u64) {
        trigonometry::powi(*self, exp as usize)
    }
}

} // verus!
