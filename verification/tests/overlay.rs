use headset_battery_indicator::overlay::{
    battery_icon_color, battery_svg_path_data, display_percent, extract_svg_path_data, overlay_name,
    pack_pixel, percent_label, AnimationState, AnimationTimer,
};

#[test]
fn timer_cycle() {
    let mut timer = AnimationTimer::new(0);
    assert_eq!(timer.state, AnimationState::Hidden);
    assert!(!timer.update(10, false));
    timer.start_slide_in(100);
    assert_eq!(timer.state, AnimationState::SlidingIn);
    assert!(timer.update(200, false));
    assert_eq!(timer.state, AnimationState::SlidingIn);
    assert!(timer.update(350, false));
    assert_eq!(timer.state, AnimationState::Visible);
    assert_eq!(timer.visible_start, Some(350));
    assert!(timer.update(4349, false));
    assert_eq!(timer.state, AnimationState::Visible);
    assert!(timer.update(4350, true));
    assert_eq!(timer.state, AnimationState::SlidingOut);
    assert_eq!(timer.start_time, 4350);
    assert!(timer.update(4500, false));
    assert!(!timer.update(4600, false));
    assert_eq!(timer.state, AnimationState::Hidden);
    assert!(!timer.update(9000, false));
    assert_eq!(timer.state, AnimationState::Hidden);
}

#[test]
fn restart_while_visible() {
    let mut timer = AnimationTimer::new(0);
    timer.start_slide_in(0);
    timer.update(300, false);
    assert_eq!(timer.state, AnimationState::Visible);
    timer.start_slide_in(1000);
    assert_eq!(timer.state, AnimationState::SlidingIn);
    assert_eq!(timer.visible_start, None);
}

#[test]
fn clock_going_back_counts_as_no_time() {
    let mut timer = AnimationTimer::new(0);
    timer.start_slide_in(1000);
    assert!(timer.update(10, false));
    assert_eq!(timer.state, AnimationState::SlidingIn);
}

#[test]
fn svg_path_data() {
    let svg = "<svg><path fill=\"currentColor\" d=\"M7 20q-.425 0-.712-.288Z\"/></svg>";
    assert_eq!(extract_svg_path_data(svg), Some("M7 20q-.425 0-.712-.288Z"));
    assert_eq!(battery_svg_path_data(svg), "M7 20q-.425 0-.712-.288Z");
    assert_eq!(extract_svg_path_data("<path d=\"\"/>"), Some(""));
    assert_eq!(extract_svg_path_data("<path d=\"M0 0"), None);
    assert_eq!(extract_svg_path_data("<path/>"), None);
    // Any attribute ending in `d` counts, as with a plain text search.
    assert_eq!(extract_svg_path_data("<path id=\"x\"/>"), Some("x"));
    assert_eq!(extract_svg_path_data("d=\"a\" d=\"b\""), Some("a"));
}

#[test]
fn colors_and_percent() {
    assert_eq!(battery_icon_color(2, true), (110, 255, 90));
    assert_eq!(battery_icon_color(4, false), (255, 50, 50));
    assert_eq!(battery_icon_color(5, false), (255, 165, 0));
    assert_eq!(battery_icon_color(14, false), (255, 165, 0));
    assert_eq!(battery_icon_color(15, false), (110, 255, 90));
    assert_eq!(display_percent(-3), 0);
    assert_eq!(display_percent(57), 57);
    assert_eq!(display_percent(250), 100);
    assert_eq!(percent_label(57), "57%");
    assert_eq!(percent_label(-1), "0%");
    assert_eq!(percent_label(101), "100%");
}

#[test]
fn names() {
    assert_eq!(overlay_name("Arctis Nova 7"), "Arctis Nova 7");
    let long = "SteelSeries Arctis Nova Pro Wireless";
    assert_eq!(overlay_name(long), "SteelSeries Arctis Nova Pro \u{2026}");
    let exactly = "abcdefghijklmnopqrstuvwxyzab";
    assert_eq!(overlay_name(exactly), exactly);
    // 15 characters but 30 bytes: cut by bytes, kept whole by characters.
    let wide = "ääääääääääääääa";
    assert_eq!(overlay_name(wide), format!("{wide}\u{2026}"));
}

#[test]
fn packed_pixels() {
    assert_eq!(pack_pixel(0x11, 0x22, 0x33, 0x44), 0x4411_2233);
    assert_eq!(pack_pixel(255, 0, 0, 204), 0xcc_ff_00_00);
}
