use mbot::fixmath::clamp64;
use mbot::fixmath::cos_fp;
use mbot::fixmath::emod;
use mbot::fixmath::isqrt;
use mbot::fixmath::sat_add64;
use mbot::fixmath::sin_fp;
use mbot::fixmath::HALF_PI_FIXED;
use mbot::fixmath::PI_FIXED;
use mbot::fixmath::TWO_PI_FIXED;
use mbot::fixmath::UNIT;

#[test]
fn test_isqrt_values() {
    assert_eq!(isqrt(0), 0);
    assert_eq!(isqrt(1), 1);
    assert_eq!(isqrt(15), 3);
    assert_eq!(isqrt(16), 4);
    assert_eq!(isqrt(10_000), 100);
    assert_eq!(isqrt(i64::MAX), 3_037_000_499);
}

#[test]
fn test_sin_anchors() {
    assert_eq!(sin_fp(0), 0);
    assert_eq!(sin_fp(HALF_PI_FIXED), UNIT);
    assert_eq!(sin_fp(PI_FIXED), 0);
    assert_eq!(sin_fp(PI_FIXED + HALF_PI_FIXED), -UNIT);
    assert_eq!(sin_fp(TWO_PI_FIXED), 0);
    // Periodic and odd-symmetric through the reduction.
    assert_eq!(sin_fp(TWO_PI_FIXED + HALF_PI_FIXED), UNIT);
    assert_eq!(sin_fp(-HALF_PI_FIXED), -UNIT);
}

#[test]
fn test_cos_anchors() {
    assert_eq!(cos_fp(0), UNIT);
    assert_eq!(cos_fp(HALF_PI_FIXED), 0);
    assert_eq!(cos_fp(PI_FIXED), -UNIT);
    assert_eq!(cos_fp(-PI_FIXED), -UNIT);
}

#[test]
fn test_sin_stays_in_unit_band() {
    let mut a: i64 = -200_000;
    while a <= 200_000 {
        let s = sin_fp(a);
        let c = cos_fp(a);
        assert!(-UNIT <= s && s <= UNIT);
        assert!(-UNIT <= c && c <= UNIT);
        a += 997;
    }
}

#[test]
fn test_clamp_and_sat_add() {
    assert_eq!(clamp64(5, 0, 10), 5);
    assert_eq!(clamp64(-5, 0, 10), 0);
    assert_eq!(clamp64(15, 0, 10), 10);
    assert_eq!(sat_add64(1, 2), 3);
    assert_eq!(sat_add64(i64::MAX, 1), i64::MAX);
    assert_eq!(sat_add64(i64::MIN, -1), i64::MIN);
}

#[test]
fn test_emod_is_euclidean() {
    assert_eq!(emod(7, 5), 2);
    assert_eq!(emod(-7, 5), 3);
    assert_eq!(emod(-1, TWO_PI_FIXED), TWO_PI_FIXED - 1);
    assert_eq!(emod(i64::MIN, 2), 0);
}
