//! Iterative NIIRF square-root estimator.

use vstd::prelude::*;

use crate::traits::MixedNum;
use crate::traits::MixedNumConversion;
use crate::traits::MixedNumSigned;
use crate::traits::MixedVal;
use crate::traits::add_val;
use crate::traits::div_val;
use crate::traits::mul_val;
use crate::traits::neg_val;
use crate::traits::sat_val;
use crate::traits::sub_val;
use crate::traits::math_traits::MixedOps;

verus! {

/// Cap on the range-reduction loops; wide enough for any mantissa the
/// model admits, and keeping the iteration count statically bounded.
pub const NIIRF_SCALE_CAP: u64 = 96;

/// Range reduction downward: divide by four until the value is at most
/// one, counting the steps.  Returns the reduced mantissa and the count.
pub open spec fn niirf_norm_down<T: MixedVal>(av: int, fuel: nat) -> (int, int)
    decreases fuel,
{
    if fuel == 0 || !(sat_val::<T>(T::den_spec()) < av) {
        (av, 0)
    } else {
        let sub = niirf_norm_down::<T>(div_val::<T>(av, sat_val::<T>(4 * T::den_spec())), (fuel - 1) as nat);
        (sub.0, sub.1 + 1)
    }
}

/// Range reduction upward: multiply by four while the value is at most a
/// quarter, counting the steps.  Returns the scaled mantissa and the count.
pub open spec fn niirf_norm_up<T: MixedVal>(av: int, fuel: nat) -> (int, int)
    decreases fuel,
{
    let quarter = div_val::<T>(sat_val::<T>(T::den_spec()), sat_val::<T>(4 * T::den_spec()));
    if fuel == 0 || !(av <= quarter) {
        (av, 0)
    } else {
        let sub = niirf_norm_up::<T>(mul_val::<T>(av, sat_val::<T>(4 * T::den_spec())), (fuel - 1) as nat);
        (sub.0, sub.1 + 1)
    }
}

/// Mantissa of the acceleration factor
/// `beta(m) = 0.763*m^2 - 1.5688*m + 1.314`
/// evaluated in the representation's truncating, saturating arithmetic.
pub open spec fn niirf_beta_val<T: MixedVal>(mv: int) -> int {
    let den = T::den_spec();
    let c763 = div_val::<T>(sat_val::<T>(763 * den), sat_val::<T>(1000 * den));
    let c15688 = div_val::<T>(sat_val::<T>(15688 * den), sat_val::<T>(10000 * den));
    let c1314 = div_val::<T>(sat_val::<T>(1314 * den), sat_val::<T>(1000 * den));
    add_val::<T>(
        sub_val::<T>(mul_val::<T>(mul_val::<T>(mv, mv), c763), mul_val::<T>(mv, c15688)),
        c1314,
    )
}

/// One estimator step applied `n` times: `y <- y + beta*(m - y^2)`.
pub open spec fn niirf_iterate_val<T: MixedVal>(mv: int, beta: int, yv: int, n: nat) -> int
    decreases n,
{
    if n == 0 {
        yv
    } else {
        niirf_iterate_val::<T>(
            mv,
            beta,
            add_val::<T>(yv, mul_val::<T>(beta, sub_val::<T>(mv, mul_val::<T>(yv, yv)))),
            (n - 1) as nat,
        )
    }
}

/// Undo the range reduction on the estimate: double `times` times when the
/// input was reduced downward, halve when it was scaled upward.
pub open spec fn niirf_rescale_val<T: MixedVal>(yv: int, times: nat, up: bool) -> int
    decreases times,
{
    if times == 0 {
        yv
    } else {
        let two = sat_val::<T>(2 * T::den_spec());
        let next = if up {
            mul_val::<T>(yv, two)
        } else {
            div_val::<T>(yv, two)
        };
        niirf_rescale_val::<T>(next, (times - 1) as nat, up)
    }
}

/// Mantissa of the NIIRF estimator's result: the input forced positive,
/// range-reduced into `(1/4, 1]` by powers of four, refined by `n`
/// estimator steps from the seed `(1 + m)/2`, and scaled back by the
/// matching power of two.  A zero input gives exactly zero.
pub open spec fn niirf_val<T: MixedVal>(xv: int, n: nat) -> int {
    let av = if xv < 0 {
        neg_val::<T>(xv)
    } else {
        xv
    };
    if av == 0 {
        0
    } else {
        let down = niirf_norm_down::<T>(av, NIIRF_SCALE_CAP as nat);
        let upp = niirf_norm_up::<T>(down.0, NIIRF_SCALE_CAP as nat);
        let mv = upp.0;
        let beta = niirf_beta_val::<T>(mv);
        let y0 = div_val::<T>(add_val::<T>(sat_val::<T>(T::den_spec()), mv), sat_val::<T>(2 * T::den_spec()));
        let y = niirf_iterate_val::<T>(mv, beta, y0, n);
        if upp.1 <= down.1 {
            niirf_rescale_val::<T>(y, (down.1 - upp.1) as nat, true)
        } else {
            niirf_rescale_val::<T>(y, (upp.1 - down.1) as nat, false)
        }
    }
}

/// Estimate `sqrt(x)` with the Nonlinear IIR Filter (NIIRF) method.
///
/// Valid for `x >= 0`; a negative input is forced positive before
/// estimation, and zero returns exactly zero.  The argument is scaled into
/// `(1/4, 1]` by powers of four, a fixed number of filter iterations
/// refines the estimate with the polynomial acceleration factor
/// `beta(m) = 0.763 m^2 - 1.5688 m + 1.314`, and the estimate is scaled
/// back by the matching power of two.  Two iterations keep the worst-case
/// error in the reduced range near 5e-4 at a bounded, representation
/// independent cost.
///
/// ## Arguments
///
/// * `x` - The number to estimate the square root of.
/// * `iterations` - The number of NIIRF refinement steps.
pub fn niirf<T: MixedNum + MixedNumSigned + MixedOps>(x: T, iterations: usize) -> (r: T)
    ensures
        r.val() == niirf_val::<T>(x.val(), iterations as nat),
        x.val() == 0 ==> r.val() == 0,
{
    proof {
        T::law_model();
        T::law_from_i64(0i64);
        T::law_from_i64(1i64);
        T::law_from_i64(2i64);
        T::law_from_i64(4i64);
        x.law_val_in_range();
    }
    let zero: T = T::mixed_from_num(0i64);
    let one: T = T::mixed_from_num(1i64);
    let two: T = T::mixed_from_num(2i64);
    let four: T = T::mixed_from_num(4i64);

    let mut a: T = if x.mixed_lt(&zero) {
        x.mixed_neg()
    } else {
        x
    };
    if a.mixed_eq(&zero) {
        return zero;
    }
    let ghost av0: int = a.val();

    let quarter: T = one.mixed_div(four);

    let mut k: u64 = 0;
    while k < NIIRF_SCALE_CAP && one.mixed_lt(&a)
        invariant
            1 <= T::den_spec(),
            T::min_val_spec() <= 0,
            T::den_spec() <= T::max_val_spec(),
            one.val() == sat_val::<T>(T::den_spec()),
            four.val() == sat_val::<T>(4 * T::den_spec()),
            0 <= k <= NIIRF_SCALE_CAP,
            niirf_norm_down::<T>(av0, NIIRF_SCALE_CAP as nat).0
                == niirf_norm_down::<T>(a.val(), (NIIRF_SCALE_CAP - k) as nat).0,
            niirf_norm_down::<T>(av0, NIIRF_SCALE_CAP as nat).1
                == k + niirf_norm_down::<T>(a.val(), (NIIRF_SCALE_CAP - k) as nat).1,
        decreases NIIRF_SCALE_CAP - k,
    {
        a = a.mixed_div(four);
        k = k + 1;
    }
    proof {
        assert(niirf_norm_down::<T>(a.val(), (NIIRF_SCALE_CAP - k) as nat) == (a.val(), 0int));
    }
    let ghost avd: int = a.val();

    let mut j: u64 = 0;
    while j < NIIRF_SCALE_CAP && !quarter.mixed_lt(&a)
        invariant
            1 <= T::den_spec(),
            T::min_val_spec() <= 0,
            T::den_spec() <= T::max_val_spec(),
            one.val() == sat_val::<T>(T::den_spec()),
            four.val() == sat_val::<T>(4 * T::den_spec()),
            quarter.val() == div_val::<T>(sat_val::<T>(T::den_spec()), sat_val::<T>(4 * T::den_spec())),
            0 <= j <= NIIRF_SCALE_CAP,
            niirf_norm_up::<T>(avd, NIIRF_SCALE_CAP as nat).0
                == niirf_norm_up::<T>(a.val(), (NIIRF_SCALE_CAP - j) as nat).0,
            niirf_norm_up::<T>(avd, NIIRF_SCALE_CAP as nat).1
                == j + niirf_norm_up::<T>(a.val(), (NIIRF_SCALE_CAP - j) as nat).1,
        decreases NIIRF_SCALE_CAP - j,
    {
        a = a.mixed_mul(four);
        j = j + 1;
    }
    proof {
        assert(niirf_norm_up::<T>(a.val(), (NIIRF_SCALE_CAP - j) as nat) == (a.val(), 0int));
        T::law_from_i64(763i64);
        T::law_from_i64(1000i64);
        T::law_from_i64(15688i64);
        T::law_from_i64(10000i64);
        T::law_from_i64(1314i64);
    }

    let c763: T = T::mixed_from_num(763i64).mixed_div(T::mixed_from_num(1000i64));
    let c15688: T = T::mixed_from_num(15688i64).mixed_div(T::mixed_from_num(10000i64));
    let c1314: T = T::mixed_from_num(1314i64).mixed_div(T::mixed_from_num(1000i64));
    let beta: T = a.mixed_mul(a).mixed_mul(c763).mixed_sub(a.mixed_mul(c15688)).mixed_add(c1314);

    let mut y: T = one.mixed_add(a).mixed_div(two);
    let ghost y0v: int = y.val();
    let mut it: usize = 0;
    while it < iterations
        invariant
            0 <= it <= iterations,
            niirf_iterate_val::<T>(a.val(), beta.val(), y0v, iterations as nat)
                == niirf_iterate_val::<T>(a.val(), beta.val(), y.val(), (iterations - it) as nat),
        decreases iterations - it,
    {
        y = y.mixed_add(beta.mixed_mul(a.mixed_sub(y.mixed_mul(y))));
        it = it + 1;
    }

    if j <= k {
        let mut s: u64 = k - j;
        while 0 < s
            invariant
                1 <= T::den_spec(),
                T::min_val_spec() <= 0,
                T::den_spec() <= T::max_val_spec(),
                two.val() == sat_val::<T>(2 * T::den_spec()),
                niirf_rescale_val::<T>(y.val(), s as nat, true)
                    == niirf_rescale_val::<T>(
                    niirf_iterate_val::<T>(a.val(), beta.val(), y0v, iterations as nat),
                    (k - j) as nat,
                    true,
                ),
            decreases s,
        {
            y = y.mixed_mul(two);
            s = s - 1;
        }
        y
    } else {
        let mut s: u64 = j - k;
        while 0 < s
            invariant
                1 <= T::den_spec(),
                T::min_val_spec() <= 0,
                T::den_spec() <= T::max_val_spec(),
                two.val() == sat_val::<T>(2 * T::den_spec()),
                niirf_rescale_val::<T>(y.val(), s as nat, false)
                    == niirf_rescale_val::<T>(
                    niirf_iterate_val::<T>(a.val(), beta.val(), y0v, iterations as nat),
                    (j - k) as nat,
                    false,
                ),
            decreases s,
        {
            y = y.mixed_div(two);
            s = s - 1;
        }
        y
    }
}

} // verus!
