use vtuber_core::color::convert_yuyv_to_rgb;

#[test]
fn gray_pair_maps_to_equal_channels() {
    let rgb = convert_yuyv_to_rgb(&[100, 128, 100, 128]);
    assert_eq!(rgb, vec![100, 100, 100, 100, 100, 100]);
}

#[test]
fn known_pair_converts_exactly() {
    // Y = 50, U = 200, V = 60: R clamps to 0, G rounds to 74,
    // B rounds to 178 (milli-unit formulas, half rounds up).
    let rgb = convert_yuyv_to_rgb(&[50, 200, 50, 60]);
    assert_eq!(rgb, vec![0, 74, 178, 0, 74, 178]);
}

#[test]
fn saturated_pair_clamps_high() {
    let rgb = convert_yuyv_to_rgb(&[255, 255, 255, 255]);
    assert_eq!(rgb, vec![255, 121, 255, 255, 121, 255]);
}

#[test]
fn distinct_lumas_share_chroma() {
    // Y0 = 0, Y1 = 255 with neutral chroma: first pixel black,
    // second white.
    let rgb = convert_yuyv_to_rgb(&[0, 128, 255, 128]);
    assert_eq!(rgb, vec![0, 0, 0, 255, 255, 255]);
}

#[test]
fn empty_frame_converts_to_empty_image() {
    let rgb = convert_yuyv_to_rgb(&[]);
    assert!(rgb.is_empty());
}
