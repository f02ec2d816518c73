use movie_player::pixel::rgb_to_bgra;

#[test]
fn rgb_to_bgra_swaps_channels_and_adds_opaque_alpha() {
    let rgb = vec![10, 20, 30, 40, 50, 60];
    let bgra = rgb_to_bgra(&rgb);
    assert_eq!(bgra, vec![30, 20, 10, 255, 60, 50, 40, 255]);
}

#[test]
fn rgb_to_bgra_of_empty_input_is_empty() {
    let rgb: Vec<u8> = Vec::new();
    assert_eq!(rgb_to_bgra(&rgb), Vec::<u8>::new());
}

#[test]
fn rgb_to_bgra_single_pixel() {
    let rgb = vec![255, 0, 128];
    assert_eq!(rgb_to_bgra(&rgb), vec![128, 0, 255, 255]);
}
