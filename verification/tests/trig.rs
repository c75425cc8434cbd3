use swagos::trig::{cos_approx, sin_approx};

#[test]
fn sine_is_a_ramp_over_one_turn() {
    assert_eq!(sin_approx(0), 0);
    assert_eq!(sin_approx(58), 0);
    assert_eq!(sin_approx(59), 1);
    assert_eq!(sin_approx(90), 1);
    assert_eq!(sin_approx(180), 3);
    assert_eq!(sin_approx(270), 4);
    assert_eq!(sin_approx(352), 5);
    assert_eq!(sin_approx(353), 6);
    assert_eq!(sin_approx(359), 6);
}

#[test]
fn sine_repeats_every_360_degrees() {
    for angle in -720..720 {
        assert_eq!(sin_approx(angle), sin_approx(angle + 360));
        let normalized = angle.rem_euclid(360);
        assert_eq!(sin_approx(angle), normalized * 17 / 1000);
    }
}

#[test]
fn sine_of_negative_angles_counts_back_from_a_full_turn() {
    assert_eq!(sin_approx(-1), 6);
    assert_eq!(sin_approx(-360), 0);
    assert_eq!(sin_approx(-90), 4);
}

#[test]
fn sine_at_the_ends_of_the_range() {
    assert_eq!(sin_approx(i32::MAX), (i32::MAX % 360) * 17 / 1000);
    assert_eq!(sin_approx(i32::MIN), i32::MIN.rem_euclid(360) * 17 / 1000);
}

#[test]
fn cosine_is_the_sine_a_quarter_turn_on() {
    assert_eq!(cos_approx(0), 1);
    assert_eq!(cos_approx(90), 3);
    assert_eq!(cos_approx(270), 0);
    assert_eq!(cos_approx(-90), 0);
    for angle in -400..400 {
        assert_eq!(cos_approx(angle), sin_approx(angle + 90));
    }
    assert_eq!(cos_approx(i32::MAX - 90), sin_approx(i32::MAX));
}
