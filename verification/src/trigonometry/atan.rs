//! Octant-based polynomial two-argument arctangent.

use vstd::prelude::*;

use crate::traits::MixedNum;
use crate::traits::MixedNumConversion;
use crate::traits::MixedNumSigned;
use crate::traits::MixedPi;
use crate::traits::MixedVal;
use crate::traits::add_val;
use crate::traits::div_val;
use crate::traits::mul_val;
use crate::traits::neg_val;
use crate::traits::sat_val;
use crate::traits::sub_val;
use crate::traits::math_traits::MixedOps;
use crate::traits::math_traits::wrap_val;
use crate::trigonometry::wrap_phase;
use crate::trigonometry::lemma_wrap_val_canonical;

verus! {

/// Mantissa of the quarter-pi constant as the kernel computes it:
/// pi divided by the representation's own four.
pub open spec fn pi_quarter_val<T: MixedPi>() -> int {
    div_val::<T>(T::pi_val(), sat_val::<T>(4 * T::den_spec()))
}

/// Mantissa of the first-octant polynomial
/// `atan(z) ~= z*(pi/4) + z*(1 - z)*(0.2447 + 0.0663*z)` for `z` in `[0, 1]`,
/// evaluated in the representation's truncating, saturating arithmetic.
pub open spec fn atan_core_val<T: MixedPi>(zv: int) -> int {
    let den = T::den_spec();
    let one = sat_val::<T>(den);
    let c1 = div_val::<T>(sat_val::<T>(2447 * den), sat_val::<T>(10000 * den));
    let c2 = div_val::<T>(sat_val::<T>(663 * den), sat_val::<T>(10000 * den));
    let term1 = mul_val::<T>(zv, pi_quarter_val::<T>());
    let term2 = mul_val::<T>(
        mul_val::<T>(zv, sub_val::<T>(one, zv)),
        add_val::<T>(c1, mul_val::<T>(c2, zv)),
    );
    add_val::<T>(term1, term2)
}

/// Mantissa of the absolute value as the kernel computes it.
pub open spec fn abs_val_of<T: MixedVal>(v: int) -> int {
    if v < 0 {
        neg_val::<T>(v)
    } else {
        v
    }
}

/// Mantissa of the two-argument arctangent kernel's result: the octant core
/// polynomial, mapped to the right quadrant by sign and offset corrections,
/// then wrapped into `[-pi, pi)`.
pub open spec fn atan2_val<T: MixedPi>(yv: int, xv: int) -> int {
    if yv == 0 && xv == 0 {
        0
    } else {
        let ay = abs_val_of::<T>(yv);
        let ax = abs_val_of::<T>(xv);
        let core = if !(ax < ay) {
            atan_core_val::<T>(div_val::<T>(ay, ax))
        } else {
            sub_val::<T>(
                div_val::<T>(T::pi_val(), sat_val::<T>(2 * T::den_spec())),
                atan_core_val::<T>(div_val::<T>(ax, ay)),
            )
        };
        let quad = if xv < 0 {
            sub_val::<T>(T::pi_val(), core)
        } else {
            core
        };
        let signed = if yv < 0 {
            neg_val::<T>(quad)
        } else {
            quad
        };
        wrap_val::<T>(signed)
    }
}

/// First-octant polynomial arctangent for a ratio `z` in `[0, 1]`.
fn atan_core<T: MixedNum + MixedOps + MixedPi>(z: T) -> (r: T)
    ensures
        r.val() == atan_core_val::<T>(z.val()),
{
    proof {
        T::law_model();
        T::law_pi();
        T::law_from_i64(1i64);
        T::law_from_i64(4i64);
        T::law_from_i64(2447i64);
        T::law_from_i64(663i64);
        T::law_from_i64(10000i64);
    }
    let one: T = T::mixed_from_num(1i64);
    let pi_quarter: T = T::mixed_pi().mixed_div(T::mixed_from_num(4i64));
    let c1: T = T::mixed_from_num(2447i64).mixed_div(T::mixed_from_num(10000i64));
    let c2: T = T::mixed_from_num(663i64).mixed_div(T::mixed_from_num(10000i64));
    let term1: T = z.mixed_mul(pi_quarter);
    let term2: T = z.mixed_mul(one.mixed_sub(z)).mixed_mul(c1.mixed_add(c2.mixed_mul(z)));
    term1.mixed_add(term2)
}

/// Calculate atan2(y, x) using a selection of polynomial approximations,
/// one for each octant in the unit circle.
///
/// The octant is selected by comparing `|y|` with `|x|` and testing the
/// signs of both arguments; each octant evaluates a low-order polynomial in
/// the ratio of the smaller to the larger magnitude, and a sign/offset
/// correction maps the result back to the full `[-pi, pi)` range.  The
/// angular error of the polynomial is a small fixed tolerance (below a
/// tenth of a degree over the whole plane, before representation rounding).
///
/// `atan2(0, 0)` is answered with zero rather than diverging.
///
/// ## Arguments
///
/// * `y` - The proportional side of the ratio.
/// * `x` - The inversely proportional side of the ratio.
pub fn atan2<T: MixedNum + MixedNumSigned + MixedOps + MixedPi>(y: T, x: T) -> (r: T)
    ensures
        r.val() == atan2_val::<T>(y.val(), x.val()),
        -T::pi_val() <= r.val() < T::pi_val(),
{
    proof {
        T::law_model();
        T::law_pi();
        T::law_from_i64(0i64);
        T::law_from_i64(2i64);
        y.law_val_in_range();
        x.law_val_in_range();
    }
    let zero: T = T::mixed_from_num(0i64);
    if y.mixed_eq(&zero) && x.mixed_eq(&zero) {
        return zero;
    }
    let abs_y: T = if y.mixed_lt(&zero) {
        y.mixed_neg()
    } else {
        y
    };
    let abs_x: T = if x.mixed_lt(&zero) {
        x.mixed_neg()
    } else {
        x
    };
    let core: T = if !abs_x.mixed_lt(&abs_y) {
        atan_core(abs_y.mixed_div(abs_x))
    } else {
        let pi_half: T = T::mixed_pi().mixed_div(T::mixed_from_num(2i64));
        pi_half.mixed_sub(atan_core(abs_x.mixed_div(abs_y)))
    };
    let quad: T = if x.mixed_lt(&zero) {
        T::mixed_pi().mixed_sub(core)
    } else {
        core
    };
    let signed: T = if y.mixed_lt(&zero) {
        quad.mixed_neg()
    } else {
        quad
    };
    proof {
        lemma_wrap_val_canonical::<T>(signed.val());
    }
    wrap_phase(signed)
}

} // verus!
