use toio_fleet::angle::wrap;
use toio_fleet::steer::{
    face_target, isqrt, steer_back, steer_to_heading, steer_to_point, steer_to_point_scaled,
    steer_to_point_stable,
};

#[test]
fn wrap_is_identity_in_range() {
    assert_eq!(wrap(0), 0);
    assert_eq!(wrap(179_999), 179_999);
    assert_eq!(wrap(180_000), 180_000);
    assert_eq!(wrap(-179_999), -179_999);
}

#[test]
fn wrap_lands_in_half_open_interval() {
    // -180 000 itself is excluded: it wraps to the closed end +180 000.
    assert_eq!(wrap(-180_000), 180_000);
    assert_eq!(wrap(180_001), -179_999);
    let mut a: i64 = -2_000_000;
    while a <= 2_000_000 {
        let r = wrap(a);
        assert!(-180_000 < r && r <= 180_000);
        a += 7_919;
    }
}

#[test]
fn wrap_is_periodic_in_full_turns() {
    for k in -5i64..=5 {
        assert_eq!(wrap(5 + 360_000 * k), 5);
        assert_eq!(wrap(-90_000 + 360_000 * k), -90_000);
        assert_eq!(wrap(180_000 + 360_000 * k), 180_000);
    }
}

#[test]
fn dead_zone_is_exactly_zero_command() {
    // Inside the dead zone the output is [0, 0] regardless of heading.
    for heading in [-170_000i64, -90_000, 0, 36_000, 144_000, 180_000] {
        assert_eq!(steer_to_point(heading, 0, 100, 100), (0, 0));
        assert_eq!(steer_to_point(heading, 90_000, 0, 100), (0, 0));
        assert_eq!(steer_to_point_stable(heading, 0, 225), (0, 0));
        assert_eq!(steer_to_point_scaled(heading, 0, 225), (0, 0));
        assert_eq!(steer_back(heading, 0, 169), (0, 0));
    }
}

#[test]
fn forward_steering_is_bounded_by_20() {
    let mut heading: i64 = -180_000;
    while heading <= 180_000 {
        let (l, r) = steer_to_point(heading, 0, 10_000, 100);
        assert!(l.abs() <= 20 && r.abs() <= 20);
        let (l, r) = steer_to_point_stable(heading, 0, 10_000);
        assert!(l.abs() <= 20 && r.abs() <= 20);
        let (l, r) = steer_back(heading, 0, 10_000);
        assert!(l.abs() <= 20 && r.abs() <= 20);
        let (l, r) = face_target(heading, 0);
        assert!(l.abs() <= 20 && r.abs() <= 20);
        heading += 1_537;
    }
}

#[test]
fn heading_steering_is_bounded_by_92() {
    let mut heading: i64 = -180_000;
    while heading <= 180_000 {
        let (l, r) = steer_to_heading(heading, 45_000);
        assert!(l.abs() <= 92 && r.abs() <= 92);
        assert_eq!(l, -r);
        heading += 1_537;
    }
    // The bound 92 is attained at a half-turn error.
    assert_eq!(steer_to_heading(0, 180_000), (-92, 92));
}

#[test]
fn heading_steering_never_stops() {
    // No dead zone: even at zero error the magnitude stays at least 2.
    assert_eq!(steer_to_heading(0, 0), (2, -2));
    assert_eq!(steer_to_heading(44_000, 44_000), (2, -2));
}

#[test]
fn forward_small_error_scales_one_side() {
    // Error 0.1 pi = 18 000: ds = 20 - floor(20 * 18 000 / 36 000) = 10.
    assert_eq!(steer_to_point(0, 18_000, 10_000, 100), (10, 20));
    assert_eq!(steer_to_point(0, -18_000, 10_000, 100), (20, 10));
    // Zero error drives straight.
    assert_eq!(steer_to_point(0, 0, 10_000, 100), (20, 20));
}

#[test]
fn forward_medium_error_spins_in_place() {
    // 0.3 pi = 54 000: between 0.2 pi and 0.5 pi.
    assert_eq!(steer_to_point(0, 54_000, 10_000, 100), (-20, 20));
    assert_eq!(steer_to_point(0, -54_000, 10_000, 100), (20, -20));
}

#[test]
fn forward_large_error_has_inverted_spin_then_reverse() {
    // 0.6 pi = 108 000: between 0.5 pi and 0.8 pi, inverted sign pair.
    assert_eq!(steer_to_point(0, 108_000, 10_000, 100), (20, -20));
    assert_eq!(steer_to_point(0, -108_000, 10_000, 100), (-20, 20));
    // 0.9 pi = 162 000: reverse-biased, ds = 20 - floor(20*18 000/36 000) = 10.
    assert_eq!(steer_to_point(0, 162_000, 10_000, 100), (-10, -20));
    assert_eq!(steer_to_point(0, -162_000, 10_000, 100), (-20, -10));
    // Exactly a half turn: ds = 20.
    assert_eq!(steer_to_point(0, 180_000, 10_000, 100), (-20, -20));
}

#[test]
fn heading_power_grows_linearly() {
    // d = floor(|error| / 2000) + 2.
    assert_eq!(steer_to_heading(0, 10_000), (-7, 7));
    assert_eq!(steer_to_heading(0, -10_000), (7, -7));
    assert_eq!(steer_to_heading(0, 90_000), (-47, 47));
}

#[test]
fn isqrt_matches_perfect_and_imperfect_squares() {
    assert_eq!(isqrt(0), 0);
    assert_eq!(isqrt(1), 1);
    assert_eq!(isqrt(2), 1);
    assert_eq!(isqrt(3), 1);
    assert_eq!(isqrt(4), 2);
    assert_eq!(isqrt(99), 9);
    assert_eq!(isqrt(100), 10);
    assert_eq!(isqrt(10_000), 100);
    assert_eq!(isqrt(2_704), 52);
}

#[test]
fn scaled_steering_grows_with_distance() {
    // Distance 100: scale = 10 + min(100 / 2, 50) = 60; zero error drives
    // straight at the full scale.
    assert_eq!(steer_to_point_scaled(0, 0, 10_000), (60, 60));
    // Distance 20: scale = 10 + 10 = 20.
    assert_eq!(steer_to_point_scaled(0, 0, 400), (20, 20));
    // The in-place branch stays at magnitude 20 regardless of distance.
    assert_eq!(steer_to_point_scaled(0, 90_000, 10_000), (-20, 20));
}

#[test]
fn stable_steering_spins_on_any_wide_error() {
    assert_eq!(steer_to_point_stable(0, 108_000, 10_000), (-20, 20));
    assert_eq!(steer_to_point_stable(0, 18_000, 10_000), (10, 20));
}

#[test]
fn back_steering_reverses_toward_target() {
    assert_eq!(steer_back(0, 0, 10_000), (-20, -20));
    assert_eq!(steer_back(0, 18_000, 10_000), (-20, -10));
    assert_eq!(steer_back(0, -18_000, 10_000), (-10, -20));
    assert_eq!(steer_back(0, 54_000, 10_000), (-20, 20));
}

#[test]
fn face_target_has_angular_dead_zone() {
    // 0.15 pi = 27 000.
    assert_eq!(face_target(0, 27_000), (0, 0));
    assert_eq!(face_target(0, 27_001), (-20, 20));
    assert_eq!(face_target(0, -27_001), (20, -20));
    assert_eq!(face_target(0, 0), (0, 0));
}
