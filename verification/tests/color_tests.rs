use line_follower::color::{
    adjust_color, calculate_brightness, check_blue, check_red, classify, CalibrationReference,
    MarkerReference, NormalizedColor, SCALE,
};

fn marker(label: &str, reference: (i32, i32, i32), tolerance: i32) -> MarkerReference {
    MarkerReference { label: String::from(label), reference, tolerance }
}

#[test]
fn check_red_matches_reference() {
    assert!(check_red((124, 27, 17)));
}

#[test]
fn check_red_rejects_far_color() {
    assert!(!check_red((200, 200, 200)));
}

#[test]
fn check_red_tolerance_is_strict() {
    assert!(check_red((143, 27, 17)));
    assert!(!check_red((144, 27, 17)));
    assert!(check_red((124, 8, 17)));
    assert!(!check_red((124, 7, 17)));
}

#[test]
fn check_blue_matches_reference() {
    assert!(check_blue((30, 86, 93)));
}

#[test]
fn check_blue_tolerance_is_strict() {
    assert!(check_blue((59, 86, 93)));
    assert!(!check_blue((60, 86, 93)));
    assert!(check_blue((1, 86, 93)));
    assert!(!check_blue((0, 86, 93)));
}

#[test]
fn classify_red_example() {
    let markers = vec![marker("red", (124, 27, 17), 20)];
    assert_eq!(classify((124, 27, 17), &markers), Some(0));
    assert_eq!(classify((200, 200, 200), &markers), None);
}

#[test]
fn classify_first_match_wins() {
    let markers = vec![marker("first", (100, 100, 100), 50), marker("second", (110, 110, 110), 50)];
    // (105, 105, 105) satisfies both tolerances; the earlier marker wins.
    assert_eq!(classify((105, 105, 105), &markers), Some(0));
}

#[test]
fn classify_respects_priority_order() {
    let markers = vec![marker("first", (0, 0, 0), 10), marker("second", (110, 110, 110), 50)];
    assert_eq!(classify((110, 110, 110), &markers), Some(1));
}

#[test]
fn classify_empty_marker_list() {
    let markers: Vec<MarkerReference> = Vec::new();
    assert_eq!(classify((0, 0, 0), &markers), None);
}

#[test]
fn normalize_white_point_is_all_ones() {
    let cal = CalibrationReference { white: (265, 285, 197), black: (23, 32, 19) };
    let n = adjust_color((265, 285, 197), &cal);
    assert_eq!((n.r, n.g, n.b), (SCALE, SCALE, SCALE));
}

#[test]
fn normalize_black_point_is_all_zeros() {
    let cal = CalibrationReference { white: (265, 285, 197), black: (23, 32, 19) };
    let n = adjust_color((23, 32, 19), &cal);
    assert_eq!((n.r, n.g, n.b), (0, 0, 0));
}

#[test]
fn normalize_clamps_out_of_range_input() {
    let cal = CalibrationReference { white: (265, 285, 197), black: (23, 32, 19) };
    let low = adjust_color((-500, 0, 5), &cal);
    assert_eq!((low.r, low.g, low.b), (0, 0, 0));
    let high = adjust_color((1020, 1020, 1020), &cal);
    assert_eq!((high.r, high.g, high.b), (SCALE, SCALE, SCALE));
}

#[test]
fn normalize_midpoint_channel() {
    let cal = CalibrationReference { white: (265, 285, 197), black: (23, 32, 19) };
    // 144 lies exactly halfway between 23 and 265.
    let n = adjust_color((144, 32, 19), &cal);
    assert_eq!(n.r, SCALE / 2);
}

#[test]
fn normalize_inverted_reference() {
    // A reference with white below black is valid and rescales downward.
    let cal = CalibrationReference { white: (0, 0, 0), black: (100, 100, 100) };
    let n = adjust_color((25, 50, 75), &cal);
    assert_eq!((n.r, n.g, n.b), (7500, 5000, 2500));
    let w = adjust_color((0, 0, 0), &cal);
    assert_eq!((w.r, w.g, w.b), (SCALE, SCALE, SCALE));
}

#[test]
fn brightness_of_extremes() {
    let white = NormalizedColor { r: SCALE, g: SCALE, b: SCALE };
    assert_eq!(calculate_brightness(&white), SCALE);
    let black = NormalizedColor { r: 0, g: 0, b: 0 };
    assert_eq!(calculate_brightness(&black), 0);
}

#[test]
fn brightness_uses_luma_weights() {
    let red = NormalizedColor { r: SCALE, g: 0, b: 0 };
    assert_eq!(calculate_brightness(&red), 2990);
    let green = NormalizedColor { r: 0, g: SCALE, b: 0 };
    assert_eq!(calculate_brightness(&green), 5870);
    let blue = NormalizedColor { r: 0, g: 0, b: SCALE };
    assert_eq!(calculate_brightness(&blue), 1140);
}

#[test]
fn brightness_of_gray_is_gray() {
    let gray = NormalizedColor { r: 5000, g: 5000, b: 5000 };
    assert_eq!(calculate_brightness(&gray), 5000);
}
