use ribbon_core::ribbon_controller::{
    RibbonController, FINGER_PRESS_HIGH_BOUNDARY, MIN_VALID_SAMPLES_FOR_AVG,
};

#[test]
fn debounce_constant_value_reads_back_exactly() {
    let mut rib = RibbonController::new();
    for _ in 0..MIN_VALID_SAMPLES_FOR_AVG {
        rib.poll(5000);
    }
    assert!(rib.gate());
    assert_eq!(rib.value(), 5000);
}

#[test]
fn gate_stays_low_until_minimum_sample_count() {
    let mut rib = RibbonController::new();
    for _ in 0..MIN_VALID_SAMPLES_FOR_AVG - 1 {
        rib.poll(5000);
        assert!(!rib.gate());
    }
    rib.poll(5000);
    assert!(rib.gate());
}

#[test]
fn rising_gate_pulses_once_at_press() {
    let mut rib = RibbonController::new();
    for _ in 0..MIN_VALID_SAMPLES_FOR_AVG - 1 {
        rib.poll(5000);
        assert!(!rib.rising_gate());
    }
    rib.poll(5000);
    assert!(rib.rising_gate());
    rib.poll(5000);
    assert!(!rib.rising_gate());
    assert!(rib.gate());
}

#[test]
fn falling_gate_pulses_once_at_release() {
    let mut rib = RibbonController::new();
    for _ in 0..MIN_VALID_SAMPLES_FOR_AVG {
        rib.poll(5000);
    }
    assert!(!rib.falling_gate());
    rib.poll(FINGER_PRESS_HIGH_BOUNDARY + 1);
    assert!(rib.falling_gate());
    assert!(!rib.gate());
    rib.poll(FINGER_PRESS_HIGH_BOUNDARY + 1);
    assert!(!rib.falling_gate());
}

#[test]
fn release_holds_last_position() {
    let mut rib = RibbonController::new();
    for _ in 0..MIN_VALID_SAMPLES_FOR_AVG {
        rib.poll(7777);
    }
    assert_eq!(rib.value(), 7777);
    rib.poll(FINGER_PRESS_HIGH_BOUNDARY + 1);
    assert!(!rib.gate());
    assert_eq!(rib.value(), 7777);
    // a short touch after the release does not reach the minimum count, so
    // the held value still stands
    for _ in 0..MIN_VALID_SAMPLES_FOR_AVG - 1 {
        rib.poll(1234);
    }
    assert!(!rib.gate());
    assert_eq!(rib.value(), 7777);
}

#[test]
fn boundary_sample_counts_as_press() {
    let mut rib = RibbonController::new();
    for _ in 0..MIN_VALID_SAMPLES_FOR_AVG {
        rib.poll(FINGER_PRESS_HIGH_BOUNDARY);
    }
    assert!(rib.gate());
    assert_eq!(rib.value(), FINGER_PRESS_HIGH_BOUNDARY);
}

#[test]
fn fresh_outlier_is_ignored_by_the_average() {
    let mut rib = RibbonController::new();
    for _ in 0..MIN_VALID_SAMPLES_FOR_AVG {
        rib.poll(5000);
    }
    // the spurious sample lands among the most recent samples, which the
    // average leaves out
    rib.poll(5240);
    assert_eq!(rib.value(), 5000);
}

#[test]
fn aged_outlier_shifts_the_mean_by_its_share() {
    let mut rib = RibbonController::new();
    for _ in 0..MIN_VALID_SAMPLES_FOR_AVG {
        rib.poll(5000);
    }
    rib.poll(5240);
    // eight more samples age the outlier into the averaged window: the
    // buffer holds 41 samples, 33 are averaged, one of them is the outlier
    for _ in 0..8 {
        rib.poll(5000);
    }
    // 5000 + (5240 - 5000) / 33 = 5007
    assert_eq!(rib.value(), 5007);
}
