use cosmic_launcher::screenshots::get_crop_region_for_window;
use cosmic_launcher::window_info::WindowGeometry;

#[test]
fn known_geometry_is_clamped_into_the_screen() {
    let geometry = WindowGeometry {
        x: 100,
        y: 50,
        width: 640,
        height: 480,
        title: "Editor".to_string(),
    };
    let region = get_crop_region_for_window(Some(&geometry), "Editor", 1920, 1080);
    assert_eq!(region, (100, 50, 640, 480));
}

#[test]
fn negative_coordinates_clamp_to_zero() {
    let geometry = WindowGeometry {
        x: -30,
        y: -1,
        width: 800,
        height: 600,
        title: "Editor".to_string(),
    };
    let region = get_crop_region_for_window(Some(&geometry), "Editor", 1920, 1080);
    assert_eq!(region, (0, 0, 800, 600));
}

#[test]
fn oversized_geometry_is_cut_to_the_screen() {
    let geometry = WindowGeometry {
        x: 1900,
        y: 1000,
        width: 500,
        height: 500,
        title: "Wide".to_string(),
    };
    // The corner stays at least 100 pixels from the screen edge; the size is
    // cut to what remains.
    let region = get_crop_region_for_window(Some(&geometry), "Wide", 1920, 1080);
    assert_eq!(region, (1820, 980, 100, 100));
}

#[test]
fn browser_fallback_takes_the_top_left_quadrant() {
    let region = get_crop_region_for_window(None, "My Page - Firefox", 1920, 1080);
    assert_eq!(region, (0, 0, 960, 540));
}

#[test]
fn chat_fallback_takes_the_top_right_quadrant() {
    let region = get_crop_region_for_window(None, "Discord | #general", 1920, 1080);
    assert_eq!(region, (960, 0, 960, 540));
}

#[test]
fn unknown_title_gets_a_title_dependent_offset() {
    // 5 bytes: x offset = 5 * 50 % 480 = 250, y offset = 5 * 30 % 270 = 150.
    let region = get_crop_region_for_window(None, "abcde", 1920, 1080);
    assert_eq!(region, (250, 150, 960, 540));
}
