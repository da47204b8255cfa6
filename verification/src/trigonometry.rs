//! Representation-agnostic trigonometric and algebraic kernels, written
//! once over the numeric capability contracts.

use vstd::prelude::*;

pub mod atan;
pub mod sqrt;

use vstd::arithmetic::div_mod::lemma_fundamental_div_mod;
use vstd::arithmetic::div_mod::lemma_mod_add_multiples_vanish;
use vstd::arithmetic::div_mod::lemma_mod_bound;
use vstd::arithmetic::div_mod::lemma_mod_equivalence;
use vstd::arithmetic::div_mod::lemma_mod_multiples_basic;
use vstd::arithmetic::div_mod::lemma_mod_sub_multiples_vanish;
use vstd::arithmetic::div_mod::lemma_small_mod;

use crate::traits::MixedNum;
use crate::traits::MixedNumConversion;
use crate::traits::MixedNumSigned;
use crate::traits::MixedPi;
use crate::traits::MixedVal;
use crate::traits::add_val;
use crate::traits::div_val;
use crate::traits::neg_val;
use crate::traits::sat_val;
use crate::traits::sub_val;
use crate::traits::math_traits::MixedOps;
use crate::traits::math_traits::MixedPowi;
use crate::traits::math_traits::powi_val;
use crate::traits::math_traits::wrap_val;

verus! {

/// Mantissa of the half-pi constant as the kernels compute it:
/// pi divided by the representation's own two.
pub open spec fn pi_half_val<T: MixedPi>() -> int {
    div_val::<T>(T::pi_val(), sat_val::<T>(2 * T::den_spec()))
}

/// Mantissa of the reflection of `xv` into `[-pi/2, pi/2]` around the
/// nearest boundary, as the sine kernel performs it.
pub open spec fn sin_reflect_val<T: MixedPi>(xv: int) -> int {
    let ph = pi_half_val::<T>();
    if xv < neg_val::<T>(ph) {
        sub_val::<T>(neg_val::<T>(ph), add_val::<T>(xv, ph))
    } else if ph < xv {
        sub_val::<T>(ph, sub_val::<T>(xv, ph))
    } else {
        xv
    }
}

/// Mantissa of the truncated Taylor polynomial
/// `x - x^3/6 + x^5/120 - x^7/5040 + x^9/362880`
/// evaluated in the representation's truncating, saturating arithmetic.
pub open spec fn sin_poly_val<T: MixedPi>(xv: int) -> int {
    let den = T::den_spec();
    let t3 = div_val::<T>(powi_val::<T>(xv, 3), sat_val::<T>(6 * den));
    let t5 = div_val::<T>(powi_val::<T>(xv, 5), sat_val::<T>(120 * den));
    let t7 = div_val::<T>(powi_val::<T>(xv, 7), sat_val::<T>(5040 * den));
    let t9 = div_val::<T>(powi_val::<T>(xv, 9), sat_val::<T>(362880 * den));
    add_val::<T>(sub_val::<T>(add_val::<T>(sub_val::<T>(xv, t3), t5), t7), t9)
}

/// Mantissa of the sine kernel's result for a pre-wrapped argument.
pub open spec fn sin_val<T: MixedPi>(xv: int) -> int {
    sin_poly_val::<T>(sin_reflect_val::<T>(xv))
}

/// Mantissa of the cosine kernel's result: sine of the argument shifted by
/// half pi and re-wrapped.
pub open spec fn cos_val<T: MixedPi>(xv: int) -> int {
    sin_val::<T>(wrap_val::<T>(add_val::<T>(xv, pi_half_val::<T>())))
}

/// Phase wrapping is canonical: `wrap_val(v)` lies in `[-pi, pi)` and is
/// congruent to `v` modulo tau.
pub proof fn lemma_wrap_val_canonical<T: MixedPi>(v: int)
    ensures
        -T::pi_val() <= wrap_val::<T>(v) < T::pi_val(),
        (wrap_val::<T>(v) - v) % (2 * T::pi_val()) == 0,
{
    T::law_pi();
    T::law_model();
    let p = T::pi_val();
    let m = 2 * p;
    lemma_mod_bound(v + p, m);
    lemma_fundamental_div_mod(v + p, m);
    let k = (v + p) / m;
    assert(m * (-k) == -(m * k)) by (nonlinear_arith);
    assert(wrap_val::<T>(v) - v == (-k) * m) by (nonlinear_arith)
        requires
            wrap_val::<T>(v) == (v + p) % m - p,
            v + p == m * k + (v + p) % m,
    ;
    lemma_mod_multiples_basic(-k, m);
}

/// Wrapping is the identity on angles already in `[-pi, pi)`.
pub proof fn lemma_wrap_val_fixpoint<T: MixedPi>(v: int)
    requires
        -T::pi_val() <= v < T::pi_val(),
    ensures
        wrap_val::<T>(v) == v,
{
    lemma_wrap_congruent_unique::<T>(v, v);
}

/// Any angle in `[-pi, pi)` congruent to `v` modulo tau is exactly
/// `wrap_val(v)`.
pub proof fn lemma_wrap_congruent_unique<T: MixedPi>(v: int, w: int)
    requires
        -T::pi_val() <= w < T::pi_val(),
        w % (2 * T::pi_val()) == v % (2 * T::pi_val()),
    ensures
        w == wrap_val::<T>(v),
{
    T::law_pi();
    let p = T::pi_val();
    let m = 2 * p;
    lemma_mod_equivalence(v, w, m);
    lemma_mod_equivalence(v + p, w + p, m);
    lemma_small_mod((w + p) as nat, m as nat);
}

/// Raising to the first power is the identity, for every value.
pub proof fn lemma_powi_one_identity<T: MixedVal>(v: int)
    ensures
        powi_val::<T>(v, 1) == v,
{
}

/// A zero power answers the multiplicative identity: an explicit base
/// case of the power function, not a product of the repeated-multiply
/// loop.
pub proof fn lemma_powi_zero_identity<T: MixedVal>(v: int)
    ensures
        powi_val::<T>(v, 0) == T::den_spec(),
{
}

/// Get the sign of the argument with a unit value.
/// Zero is of positive sign.
///
/// ## Arguments
///
/// * `x` - The function argument.
pub fn sign<T: MixedNum>(x: T) -> (r: T)
    ensures
        x.val() < 0 ==> r.val() == neg_val::<T>(T::den_spec()),
        0 <= x.val() ==> r.val() == T::den_spec(),
{
    proof {
        T::law_from_i64(0i64);
        T::law_from_i64(-1i64);
        T::law_from_i64(1i64);
        T::law_model();
    }
    let zero: T = T::mixed_from_num(0i64);
    if x.mixed_lt(&zero) {
        T::mixed_from_num(-1i64)
    } else {
        T::mixed_from_num(1i64)
    }
}

/// Calculate sin(x) using a Taylor approximation of `sin(x)`.
///
/// Sin is calculated using the following polynomial:
///
/// `sin(x) = x - (x^3/6) + (x^5/120) - (x^7/5040) + (x^9/362880)`
///
/// ## Argument
///
/// * `x` - The value to apply the operation to.
///
/// `x` must be wrapped to the -pi <= x < pi range; arguments outside the
/// accurate `[-pi/2, pi/2]` half-range are reflected around the nearest
/// boundary before the polynomial is evaluated.
pub fn sin<T: MixedNum + MixedNumSigned + MixedOps + MixedPi + MixedPowi>(x: T) -> (r: T)
    requires
        -T::pi_val() <= x.val() < T::pi_val(),
    ensures
        r.val() == sin_val::<T>(x.val()),
{
    proof {
        T::law_model();
        T::law_pi();
        T::law_from_i64(2i64);
        T::law_from_i64(6i64);
        T::law_from_i64(120i64);
        T::law_from_i64(5040i64);
        T::law_from_i64(362880i64);
    }
    let two: T = T::mixed_from_num(2i64);
    let pi_half: T = T::mixed_pi().mixed_div(two);

    let mut x_: T = x;

    // Ensure that the angle is within the accurate range of the Taylor
    // series: reflect around the nearest half-pi boundary.
    if x.mixed_lt(&pi_half.mixed_neg()) {
        let delta: T = x.mixed_add(pi_half);
        x_ = pi_half.mixed_neg().mixed_sub(delta);
    } else if pi_half.mixed_lt(&x) {
        let delta: T = x.mixed_sub(pi_half);
        x_ = pi_half.mixed_sub(delta);
    }

    let mut sinx: T = x_.mixed_sub(x_.mixed_powi(3).mixed_div(T::mixed_from_num(6i64)));
    sinx = sinx.mixed_add(x_.mixed_powi(5).mixed_div(T::mixed_from_num(120i64)));
    sinx = sinx.mixed_sub(x_.mixed_powi(7).mixed_div(T::mixed_from_num(5040i64)));
    sinx = sinx.mixed_add(x_.mixed_powi(9).mixed_div(T::mixed_from_num(362880i64)));
    sinx
}

/// Calculate cosine using a Taylor approximation of `cos(x)`.
///
/// Cos is calculated by adding a half-pi phase shift to `x`, wrapping, and
/// running the result through the polynomial sine method.
///
/// ## Argument
///
/// * `x` - The value to apply the operation to.
///
/// `x` is wrapped to the -pi <= x < pi range in the function.
pub fn cos<T: MixedNum + MixedNumSigned + MixedOps + MixedPi + MixedPowi>(x: T) -> (r: T)
    ensures
        r.val() == cos_val::<T>(x.val()),
{
    proof {
        T::law_model();
        T::law_pi();
        T::law_from_i64(2i64);
    }
    let two: T = T::mixed_from_num(2i64);
    let pi_half: T = T::mixed_pi().mixed_div(two);
    let x_shifted: T = wrap_phase(x.mixed_add(pi_half));
    proof {
        lemma_wrap_val_canonical::<T>(add_val::<T>(x.val(), pi_half_val::<T>()));
    }
    sin(x_shifted)
}

/// Wraps an angle to the -pi <= x < pi range, preserving it modulo tau.
///
/// ## Arguments
///
/// * `phi` - The unwrapped phase in radians.
pub fn wrap_phase<T: MixedNum + MixedNumSigned + MixedOps + MixedPi>(phi: T) -> (r: T)
    ensures
        r.val() == wrap_val::<T>(phi.val()),
{
    proof {
        T::law_model();
        T::law_pi();
        phi.law_val_in_range();
    }
    let pi: T = T::mixed_pi();
    let tau: T = T::mixed_tau();
    let neg_pi: T = pi.mixed_neg();

    let mut temp_scalar: T = phi;

    while temp_scalar.mixed_lt(&neg_pi)
        invariant
            1 <= T::den_spec(),
            T::min_val_spec() <= 0,
            3 * T::den_spec() < T::pi_val(),
            2 * T::pi_val() <= T::max_val_spec(),
            T::min_val_spec() <= -2 * T::pi_val(),
            pi.val() == T::pi_val(),
            tau.val() == 2 * T::pi_val(),
            neg_pi.val() == -T::pi_val(),
            T::min_val_spec() <= temp_scalar.val() <= T::max_val_spec(),
            temp_scalar.val() % (2 * T::pi_val()) == phi.val() % (2 * T::pi_val()),
        decreases (if temp_scalar.val() < -T::pi_val() { -temp_scalar.val() - T::pi_val() } else { 0int }),
    {
        proof {
            lemma_mod_add_multiples_vanish(temp_scalar.val(), 2 * T::pi_val());
        }
        temp_scalar = temp_scalar.mixed_add(tau);
        proof {
            temp_scalar.law_val_in_range();
        }
    }
    while !temp_scalar.mixed_lt(&pi)
        invariant
            1 <= T::den_spec(),
            T::min_val_spec() <= 0,
            3 * T::den_spec() < T::pi_val(),
            2 * T::pi_val() <= T::max_val_spec(),
            T::min_val_spec() <= -2 * T::pi_val(),
            pi.val() == T::pi_val(),
            tau.val() == 2 * T::pi_val(),
            -T::pi_val() <= temp_scalar.val(),
            temp_scalar.val() <= T::max_val_spec(),
            temp_scalar.val() % (2 * T::pi_val()) == phi.val() % (2 * T::pi_val()),
        decreases (if T::pi_val() <= temp_scalar.val() { temp_scalar.val() + T::pi_val() } else { 0int }),
    {
        proof {
            lemma_mod_sub_multiples_vanish(temp_scalar.val(), 2 * T::pi_val());
        }
        temp_scalar = temp_scalar.mixed_sub(tau);
    }
    proof {
        lemma_wrap_congruent_unique::<T>(phi.val(), temp_scalar.val());
    }
    temp_scalar
}

/// Raise a number to an integer-valued power by repeated multiplication.
/// `base^power`.
///
/// A power of zero is answered with the multiplicative identity as an
/// explicit base case rather than by the repeated-multiply loop.
///
/// ## Arguments
///
/// * `base`  - The base number.
/// * `power` - The power to raise `base` to.
pub fn powi<T: MixedNum + MixedOps>(base: T, power: usize) -> (r: T)
    ensures
        r.val() == powi_val::<T>(base.val(), power as nat),
{
    if power == 0 {
        proof {
            T::law_from_i64(1i64);
            T::law_model();
        }
        return T::mixed_from_num(1i64);
    }
    let mut temp: T = base;
    let mut i: usize = 0;
    while i < power - 1
        invariant
            0 <= i <= power - 1,
            1 <= power,
            temp.val() == powi_val::<T>(base.val(), (i + 1) as nat),
        decreases power - 1 - i,
    {
        temp = temp.mixed_mul(base);
        i = i + 1;
    }
    temp
}

} // verus!
