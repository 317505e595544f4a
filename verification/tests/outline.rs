use bevy_vrm1::vrm::mtoon::material::outline::OutlineWidthMode;

#[test]
fn outline_width_mode_names() {
    assert_eq!(
        OutlineWidthMode::from_mode_name("worldCoordinates"),
        OutlineWidthMode::WorldCoordinates
    );
    assert_eq!(
        OutlineWidthMode::from_mode_name("screenCoordinates"),
        OutlineWidthMode::ScreenCoordinates
    );
}

#[test]
fn unknown_outline_width_mode_means_no_outline() {
    assert_eq!(OutlineWidthMode::from_mode_name("none"), OutlineWidthMode::NoOutline);
    assert_eq!(OutlineWidthMode::from_mode_name("world"), OutlineWidthMode::NoOutline);
    assert_eq!(OutlineWidthMode::from_mode_name(""), OutlineWidthMode::NoOutline);
    assert_eq!(OutlineWidthMode::default(), OutlineWidthMode::NoOutline);
}
