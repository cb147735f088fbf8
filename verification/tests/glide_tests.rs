use ribbon_core::glide_processor::GlideProcessor;

#[test]
fn zero_time_tracks_instantly() {
    let mut g = GlideProcessor::new();
    assert_eq!(g.process(1000), 1000);
    assert_eq!(g.process(0), 0);
    assert_eq!(g.process(65535), 65535);
}

#[test]
fn first_steps_follow_the_divisor() {
    let mut g = GlideProcessor::new();
    g.set_time(3);
    // each tick closes a quarter of the remaining distance (time 3 gives a
    // divisor of 4): 0 -> 25 -> 43 -> 57 -> ...
    assert_eq!(g.process(100), 25);
    assert_eq!(g.process(100), 43);
    assert_eq!(g.process(100), 57);
}

#[test]
fn glide_converges_monotonically_without_overshoot() {
    let mut g = GlideProcessor::new();
    g.set_time(7);
    let target = 40000u16;
    let mut prev = 0u16;
    let mut reached = false;
    for _ in 0..200 {
        let out = g.process(target);
        assert!(out >= prev, "output moved away from the target");
        assert!(out <= target, "output overshot the target");
        if out == target {
            reached = true;
            break;
        }
        prev = out;
    }
    assert!(reached, "output never reached the target");
}

#[test]
fn glide_descends_monotonically_too() {
    let mut g = GlideProcessor::new();
    assert_eq!(g.process(30000), 30000);
    g.set_time(5);
    let mut prev = 30000u16;
    let mut reached = false;
    for _ in 0..200 {
        let out = g.process(29500);
        assert!(out <= prev);
        assert!(out >= 29500);
        if out == 29500 {
            reached = true;
            break;
        }
        prev = out;
    }
    assert!(reached);
}

#[test]
fn tiny_remaining_distance_still_makes_progress() {
    let mut g = GlideProcessor::new();
    g.set_time(65535);
    // the quotient rounds to zero, but the filter still moves one count
    assert_eq!(g.process(10), 1);
    assert_eq!(g.process(10), 2);
}

#[test]
fn set_time_leaves_output_untouched() {
    let mut g = GlideProcessor::new();
    assert_eq!(g.process(500), 500);
    g.set_time(9);
    assert_eq!(g.process(500), 500);
}
