use evoting_core::threshold::calculate_threshold;

#[test]
fn threshold_follows_the_table() {
    let expected = [(1, 1), (2, 2), (3, 2), (4, 4), (5, 3), (6, 6), (7, 4), (8, 5), (10, 6)];
    for (n, t) in expected {
        assert_eq!(calculate_threshold(n), t, "threshold for {} authorities", n);
    }
}

#[test]
fn four_and_six_authorities_must_all_sign() {
    assert_eq!(calculate_threshold(4), 4);
    assert_eq!(calculate_threshold(6), 6);
}

#[test]
fn threshold_from_seven_on_is_half_plus_one() {
    assert_eq!(calculate_threshold(7), 4);
    assert_eq!(calculate_threshold(9), 5);
    assert_eq!(calculate_threshold(11), 6);
    assert_eq!(calculate_threshold(100), 51);
    assert_eq!(calculate_threshold(101), 51);
    assert_eq!(calculate_threshold(i32::MAX), i32::MAX / 2 + 1);
}

#[test]
fn threshold_of_nothing_is_nothing() {
    assert_eq!(calculate_threshold(0), 0);
    assert_eq!(calculate_threshold(-1), -1);
    assert_eq!(calculate_threshold(i32::MIN), i32::MIN);
}

#[test]
fn threshold_never_exceeds_the_roster() {
    for n in 1..200 {
        let t = calculate_threshold(n);
        assert!(1 <= t && t <= n);
        if n >= 7 {
            assert!(2 * t > n);
            assert!(2 * (t - 1) <= n);
        }
    }
}
