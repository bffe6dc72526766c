use ai_copilot::scale::{ScaleFactor, MAX_IMAGE_DIM};

#[test]
fn the_limit_is_1280_pixels() {
    assert_eq!(MAX_IMAGE_DIM, 1280);
}

#[test]
fn identity_is_one_over_one() {
    let one = ScaleFactor::identity();
    assert_eq!(one.numerator(), 1);
    assert_eq!(one.denominator(), 1);
    assert!(one.is_unscaled());
    assert_eq!(one.apply(800), 800);
}

#[test]
fn no_ratio_for_an_edge_within_the_limit() {
    assert!(ScaleFactor::shrinking(1280, 1280).is_none());
    assert!(ScaleFactor::shrinking(1280, 1).is_none());
    assert!(ScaleFactor::shrinking(0, 0).is_none());
}

#[test]
fn ratio_is_limit_over_edge() {
    let factor = ScaleFactor::shrinking(1280, 2560).unwrap();
    assert_eq!(factor.numerator(), 1280);
    assert_eq!(factor.denominator(), 2560);
    assert!(!factor.is_unscaled());
}

#[test]
fn half_scale_halves_both_edges() {
    let factor = ScaleFactor::shrinking(1280, 2560).unwrap();
    assert_eq!(factor.apply(2560), 1280);
    assert_eq!(factor.apply(1600), 800);
}

#[test]
fn halves_round_up() {
    // 1601 * 1280 / 2560 = 800.5
    let factor = ScaleFactor::shrinking(1280, 2560).unwrap();
    assert_eq!(factor.apply(1601), 801);
    // 1599 * 1280 / 2560 = 799.5
    assert_eq!(factor.apply(1599), 800);
}

#[test]
fn scaled_edges_round_to_nearest() {
    // 1004 * 1280 / 3000 = 428.37...
    let factor = ScaleFactor::shrinking(1280, 3000).unwrap();
    assert_eq!(factor.apply(3000), 1280);
    assert_eq!(factor.apply(1004), 428);
    // 1003 * 1280 / 3000 = 427.94...
    assert_eq!(factor.apply(1003), 428);
}

#[test]
fn a_scaled_edge_is_never_less_than_one_pixel() {
    let factor = ScaleFactor::shrinking(1280, 100_000).unwrap();
    // 3 * 1280 / 100000 = 0.038...
    assert_eq!(factor.apply(3), 1);
    assert_eq!(factor.apply(0), 1);
    let nothing = ScaleFactor::shrinking(0, 5).unwrap();
    assert_eq!(nothing.apply(5), 1);
}

#[test]
fn the_largest_edges_do_not_overflow() {
    let factor = ScaleFactor::shrinking(u32::MAX - 1, u32::MAX).unwrap();
    assert_eq!(factor.apply(u32::MAX), u32::MAX - 1);
    assert_eq!(factor.apply(1), 1);
}
