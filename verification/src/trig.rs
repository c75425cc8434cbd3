//! Rough integer stand-ins for sine and cosine, good enough to make things
//! wobble on a text screen.

use vstd::prelude::*;

verus! {

/// `angle` brought into the range from 0 to 359 degrees.
pub open spec fn normalized_angle(angle: int) -> int {
    angle % 360
}

/// What [`sin_approx`] computes: the normalized angle scaled by 17 / 1000.
pub open spec fn sin_approx_spec(angle: int) -> int {
    (normalized_angle(angle) * 17) / 1000
}

/// What [`cos_approx`] computes: the approximate sine of the angle a quarter
/// turn further on.
pub open spec fn cos_approx_spec(angle: int) -> int {
    sin_approx_spec(angle + 90)
}

/// A rough approximation of the sine of `angle` degrees.
///
/// The angle is normalized and scaled down to a small `x`, to which the first
/// terms of the sine series are applied. With the divisors used here the
/// higher terms vanish for every `x` that can come up, so that the result is
/// `x` itself: a ramp from 0 to 6 over one turn.
pub fn sin_approx(angle: i32) -> (value: i32)
    ensures
        value == sin_approx_spec(angle as int),
        0 <= value <= 6,
{
    let mut a: i32 = angle % 360;
    if a < 0 {
        a += 360;
    }
    let x: i32 = (a * 17) / 1000;
    assert(0 <= x <= 6);
    assert(0 <= x * x <= 36) by (nonlinear_arith)
        requires
            0 <= x <= 6,
    ;
    assert(0 <= x * x * x <= 216) by (nonlinear_arith)
        requires
            0 <= x <= 6,
    ;
    let x3: i32 = (x * x * x) / 6000;
    let magnitude: i32 = if x < 0 { -x } else { x };
    let x5: i32 = if magnitude < 100 {
        assert(0 <= x * x * x * x <= 1296) by (nonlinear_arith)
            requires
                0 <= x <= 6,
        ;
        assert(0 <= x * x * x * x * x <= 7776) by (nonlinear_arith)
            requires
                0 <= x <= 6,
        ;
        (x * x * x * x * x) / 120000
    } else {
        0
    };
    x - x3 + x5
}

/// A rough approximation of the cosine of `angle` degrees: the sine of the
/// angle a quarter turn further on.
pub fn cos_approx(angle: i32) -> (value: i32)
    requires
        angle + 90 <= i32::MAX,
    ensures
        value == cos_approx_spec(angle as int),
        0 <= value <= 6,
{
    sin_approx(angle + 90)
}

} // verus!
