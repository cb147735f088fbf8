use ribbon_core::quantizer::{Quantizer, BUCKET_WIDTH, HALF_BUCKET_WIDTH, HYSTERESIS};

#[test]
fn convert_commits_far_value_to_bucket_bottom() {
    let mut q = Quantizer::new();
    // 32762 lies in bucket 12 (12 * 2621 = 31452)
    assert_eq!(q.convert(32762), 31452);
}

#[test]
fn convert_keeps_value_inside_hysteresis_band() {
    let mut q = Quantizer::new();
    assert_eq!(q.convert(32762), 31452);
    // center of the committed bucket is 31452 + 1310 = 32762; anything
    // within half a bucket plus the hysteresis margin (1572) keeps it
    assert_eq!(q.convert(32762 + 1572), 31452);
    assert_eq!(q.convert(32762 - 1572), 31452);
    // one count past the margin recommits
    assert_eq!(q.convert(32762 + 1573), 34073);
}

#[test]
fn new_quantizer_starts_in_lowest_bucket() {
    let mut q = Quantizer::new();
    // close to the lowest bucket's center: no change
    assert_eq!(q.convert(100), 0);
}

#[test]
fn dithering_across_boundary_changes_bucket_at_most_once() {
    // inputs dithering within the hysteresis margin of the boundary at
    // 13 * 2621 = 34073, starting committed to the bucket below
    let mut q = Quantizer::new();
    assert_eq!(q.convert(32762), 31452);
    let boundary: u16 = 13 * BUCKET_WIDTH;
    let low = boundary - HYSTERESIS;
    let high = boundary + HYSTERESIS;
    let mut last = 31452u16;
    let mut changes = 0;
    for i in 0..20 {
        let v = if i % 2 == 0 { low } else { high };
        let r = q.convert(v);
        if r != last {
            changes += 1;
            last = r;
        }
    }
    assert!(changes <= 1);
}

#[test]
fn bucket_constants_are_consistent() {
    assert_eq!(BUCKET_WIDTH, 65535 / 25);
    assert_eq!(HALF_BUCKET_WIDTH, BUCKET_WIDTH / 2);
    assert_eq!(HYSTERESIS, BUCKET_WIDTH / 10);
}
