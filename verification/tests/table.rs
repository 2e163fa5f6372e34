use six_step::table::build;
use six_step::table::ConfigError;
use six_step::table::Pattern;
use six_step::table::STEPS;

#[test]
fn two_phase_table_for_8499() {
    let t = build(8499, Pattern::TwoPhaseHighLow).unwrap();
    let h = 4249;
    let l = 1;
    assert_eq!(
        t,
        [(0, h, l), (l, h, 0), (l, 0, h), (0, l, h), (h, l, 0), (h, 0, l)]
    );
}

#[test]
fn two_phase_step_zero_is_zero_half_one() {
    let t = build(8499, Pattern::TwoPhaseHighLow).unwrap();
    assert_eq!(t[0], (0, 4249, 1));
}

#[test]
fn trapezoidal_table_for_8499() {
    let t = build(8499, Pattern::ThreeLevelTrapezoidal).unwrap();
    let h = 4249;
    let m = 2124;
    let l = 1;
    assert_eq!(
        t,
        [(m, h, l), (l, h, m), (l, m, h), (m, l, h), (h, l, m), (h, m, l)]
    );
}

#[test]
fn trapezoidal_table_for_1000() {
    let t = build(1000, Pattern::ThreeLevelTrapezoidal).unwrap();
    assert_eq!(t[0], (250, 500, 1));
    assert_eq!(t[3], (250, 1, 500));
}

#[test]
fn zero_max_duty_is_rejected() {
    assert_eq!(build(0, Pattern::TwoPhaseHighLow), Err(ConfigError::ZeroMaxDuty));
    assert_eq!(
        build(0, Pattern::ThreeLevelTrapezoidal),
        Err(ConfigError::ZeroMaxDuty)
    );
}

#[test]
fn smallest_max_duty_builds() {
    let t = build(1, Pattern::TwoPhaseHighLow).unwrap();
    assert_eq!(t, [(0, 0, 1), (1, 0, 0), (1, 0, 0), (0, 1, 0), (0, 1, 0), (0, 0, 1)]);
    let t = build(1, Pattern::ThreeLevelTrapezoidal).unwrap();
    assert_eq!(t, [(0, 0, 1), (1, 0, 0), (1, 0, 0), (0, 1, 0), (0, 1, 0), (0, 0, 1)]);
}

#[test]
fn largest_max_duty_builds() {
    let t = build(u16::MAX, Pattern::TwoPhaseHighLow).unwrap();
    assert_eq!(t[4], (32767, 1, 0));
    let t = build(u16::MAX, Pattern::ThreeLevelTrapezoidal).unwrap();
    assert_eq!(t[4], (32767, 1, 16383));
}

#[test]
fn table_has_six_steps() {
    assert_eq!(STEPS, 6);
    for max_duty in [1u16, 2, 3, 4, 5, 100, 8499, 8500, u16::MAX] {
        for pattern in [Pattern::TwoPhaseHighLow, Pattern::ThreeLevelTrapezoidal] {
            assert_eq!(build(max_duty, pattern).unwrap().len(), 6);
        }
    }
}

#[test]
fn every_duty_is_within_max_duty() {
    for max_duty in 1..=u16::MAX {
        for pattern in [Pattern::TwoPhaseHighLow, Pattern::ThreeLevelTrapezoidal] {
            let t = build(max_duty, pattern).unwrap();
            for (u, v, w) in t {
                assert!(u <= max_duty);
                assert!(v <= max_duty);
                assert!(w <= max_duty);
            }
        }
    }
}

#[test]
fn building_twice_gives_the_same_table() {
    for max_duty in [0u16, 1, 7, 8499, u16::MAX] {
        for pattern in [Pattern::TwoPhaseHighLow, Pattern::ThreeLevelTrapezoidal] {
            assert_eq!(build(max_duty, pattern), build(max_duty, pattern));
        }
    }
}

#[test]
fn two_phase_floats_one_phase_per_step() {
    let t = build(8499, Pattern::TwoPhaseHighLow).unwrap();
    for (u, v, w) in t {
        let zeros = [u, v, w].iter().filter(|d| **d == 0).count();
        assert_eq!(zeros, 1);
    }
}

#[test]
fn patterns_differ() {
    assert_ne!(
        build(8499, Pattern::TwoPhaseHighLow),
        build(8499, Pattern::ThreeLevelTrapezoidal)
    );
}
