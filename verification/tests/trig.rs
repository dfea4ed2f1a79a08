use raycaster::trig::{
    cos_fixed, normalize_angle, sin_fixed, FP_ONE, HALF_PI_FP, PI_FP, TWO_PI_FP,
};

#[test]
fn cosine_axis_values() {
    assert_eq!(cos_fixed(0), FP_ONE);
    assert_eq!(cos_fixed(HALF_PI_FP), 0);
    assert_eq!(cos_fixed(PI_FP), -FP_ONE);
    assert_eq!(cos_fixed(PI_FP + HALF_PI_FP), 0);
}

#[test]
fn sine_axis_values() {
    assert_eq!(sin_fixed(0), 0);
    assert_eq!(sin_fixed(HALF_PI_FP), FP_ONE);
    assert_eq!(sin_fixed(PI_FP), 0);
    assert_eq!(sin_fixed(PI_FP + HALF_PI_FP), -FP_ONE);
}

#[test]
fn cosine_is_periodic_and_bounded() {
    let mut a: i64 = -3 * TWO_PI_FP;
    while a <= 3 * TWO_PI_FP {
        let c: i64 = cos_fixed(a);
        assert!(-FP_ONE <= c && c <= FP_ONE);
        assert_eq!(c, cos_fixed(a + TWO_PI_FP));
        assert_eq!(c, cos_fixed(a - TWO_PI_FP));
        a += 131;
    }
}

#[test]
fn cosine_near_sixty_degrees() {
    // One milliradian shy of sixty degrees, where the field of view's edge
    // columns look: close to one half.
    let c = cos_fixed(1047);
    assert!(480 <= c && c <= 520);
}

#[test]
fn normalize_angle_reduces_to_one_turn() {
    assert_eq!(normalize_angle(0), 0);
    assert_eq!(normalize_angle(-1), TWO_PI_FP - 1);
    assert_eq!(normalize_angle(TWO_PI_FP), 0);
    assert_eq!(normalize_angle(5 * TWO_PI_FP + 17), 17);
    assert_eq!(normalize_angle(-5 * TWO_PI_FP - 17), TWO_PI_FP - 17);
    assert!(normalize_angle(i64::MIN) >= 0);
    assert!(normalize_angle(i64::MAX) < TWO_PI_FP);
}
