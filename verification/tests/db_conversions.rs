//! Decibel conversion checks for the floating-point backing, computed the
//! way the float capability providers compute them: ten (or twenty) times
//! the base-10 logarithm, and the base-10 exponential of the scaled input.

#[test]
fn pow2db() {
    let numb = 2f32;
    assert_eq!(10f32 * libm::log10f(numb), 3.0103002);
}

#[test]
fn db2pow() {
    let numb = 10f32;
    let exponent: f32 = numb / 10f32;
    assert_eq!(libm::exp10f(exponent), 10.0);
}

#[test]
fn mag2db() {
    let numb = 2f32;
    assert_eq!(20f32 * libm::log10f(numb), 6.0206003);
}

#[test]
fn db2mag() {
    let numb = 10f32;
    let exponent: f32 = numb / 20f32;
    assert_eq!(libm::exp10f(exponent), 3.1622777);
}
