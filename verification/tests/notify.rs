use headset_battery_indicator::battery::BatteryStatus;
use headset_battery_indicator::notify::{
    alert_message, embedded_notif_png, path_to_file_uri, toast_content, toast_logo_png, BatteryAlert,
    NotificationTracker,
};

#[test]
fn notif_picture_names() {
    assert_eq!(embedded_notif_png(0, false), Some("batt-5.png"));
    assert_eq!(embedded_notif_png(7, true), Some("batt-5-charg.png"));
    assert_eq!(embedded_notif_png(8, false), Some("batt-10.png"));
    assert_eq!(embedded_notif_png(17, true), Some("batt-10-charg.png"));
    assert_eq!(embedded_notif_png(18, false), Some("batt-25.png"));
    assert_eq!(embedded_notif_png(50, false), Some("batt-50.png"));
    assert_eq!(embedded_notif_png(87, true), Some("batt-75-charg.png"));
    assert_eq!(embedded_notif_png(88, false), Some("batt-full.png"));
    assert_eq!(embedded_notif_png(100, true), Some("batt-full-charg.png"));
    assert_eq!(embedded_notif_png(-1, false), Some("batt-full.png"));
}

#[test]
fn uri_of_drive_path() {
    assert_eq!(
        path_to_file_uri("C:\\Users\\me\\AppData\\Local\\logo-batt-5.png").as_deref(),
        Some("file:///C:/Users/me/AppData/Local/logo-batt-5.png")
    );
}

#[test]
fn uri_drops_long_path_prefix() {
    assert_eq!(
        path_to_file_uri("\\\\?\\C:\\toast-icons\\a.png").as_deref(),
        Some("file:///C:/toast-icons/a.png")
    );
}

#[test]
fn uri_of_rooted_path() {
    assert_eq!(path_to_file_uri("/tmp/a.png").as_deref(), Some("file:///tmp/a.png"));
    assert_eq!(path_to_file_uri("\\share\\a.png").as_deref(), Some("file:///share/a.png"));
}

#[test]
fn no_uri_for_relative_path() {
    assert_eq!(path_to_file_uri("icons/a.png"), None);
    assert_eq!(path_to_file_uri(""), None);
    // A non-ASCII first character keeps a colon out of the second byte.
    assert_eq!(path_to_file_uri("é:x"), None);
}

#[test]
fn first_reading_is_quiet() {
    let mut tracker = NotificationTracker::new();
    assert_eq!(tracker.check_notifications(true, 5, BatteryStatus::Available), None);
    assert_eq!(tracker.last_notification_state, Some((5, BatteryStatus::Available)));
}

#[test]
fn low_then_critical() {
    let mut tracker = NotificationTracker::new();
    tracker.check_notifications(true, 50, BatteryStatus::Available);
    assert_eq!(tracker.check_notifications(true, 10, BatteryStatus::Available), Some(BatteryAlert::Low));
    assert_eq!(tracker.check_notifications(true, 9, BatteryStatus::Available), None);
    assert_eq!(
        tracker.check_notifications(true, 3, BatteryStatus::Available),
        Some(BatteryAlert::Critical)
    );
    assert_eq!(tracker.check_notifications(true, 3, BatteryStatus::Available), None);
}

#[test]
fn falling_straight_below_three_is_low() {
    let mut tracker = NotificationTracker::new();
    tracker.check_notifications(true, 40, BatteryStatus::Available);
    assert_eq!(tracker.check_notifications(true, 2, BatteryStatus::Available), Some(BatteryAlert::Low));
}

#[test]
fn charging_and_full() {
    let mut tracker = NotificationTracker::new();
    tracker.check_notifications(true, 90, BatteryStatus::Available);
    assert_eq!(
        tracker.check_notifications(true, 95, BatteryStatus::Charging),
        Some(BatteryAlert::ChargingStarted)
    );
    assert_eq!(tracker.check_notifications(true, 100, BatteryStatus::Charging), Some(BatteryAlert::Full));
    assert_eq!(tracker.check_notifications(true, 100, BatteryStatus::Charging), None);
}

#[test]
fn no_low_alert_while_charging_or_unavailable() {
    let mut tracker = NotificationTracker::new();
    tracker.check_notifications(true, 50, BatteryStatus::Charging);
    assert_eq!(tracker.check_notifications(true, 5, BatteryStatus::Charging), None);
    tracker.check_notifications(true, 50, BatteryStatus::Available);
    assert_eq!(tracker.check_notifications(true, 0, BatteryStatus::Unavailable), None);
}

#[test]
fn disabled_notifications_still_track() {
    let mut tracker = NotificationTracker::new();
    tracker.check_notifications(true, 50, BatteryStatus::Available);
    assert_eq!(tracker.check_notifications(false, 5, BatteryStatus::Available), None);
    assert_eq!(tracker.last_notification_state, Some((5, BatteryStatus::Available)));
    assert_eq!(tracker.check_notifications(true, 4, BatteryStatus::Available), None);
}

#[test]
fn messages() {
    assert_eq!(alert_message(BatteryAlert::Low, 9), "Battery low (9%)");
    assert_eq!(alert_message(BatteryAlert::Critical, 3), "Battery critical (3%)");
    assert_eq!(alert_message(BatteryAlert::ChargingStarted, 42), "Charging started [42%]");
    assert_eq!(alert_message(BatteryAlert::Full, 100), "Battery full");
    assert_eq!(alert_message(BatteryAlert::Low, -1), "Battery low (-1%)");
}

#[test]
fn toast_fields() {
    let toast = toast_content(BatteryAlert::Low, 7, "Arctis Nova 7");
    assert_eq!(toast.title, "Arctis Nova 7");
    assert_eq!(toast.body, "Battery low (7%)");
    assert_eq!(toast.tag, "battery_7");
    assert_eq!(toast.group, "battery");
    assert_eq!(toast.id, 7);
}

fn png_of(width: u32, height: u32, pixels: Vec<u8>) -> Vec<u8> {
    let img = image::RgbaImage::from_raw(width, height, pixels).unwrap();
    let mut out = std::io::Cursor::new(Vec::new());
    img.write_to(&mut out, image::ImageFormat::Png).unwrap();
    out.into_inner()
}

#[test]
fn logo_is_made_square() {
    // A 4x2 picture whose pixels are numbered 1..=8.
    let mut pixels = Vec::new();
    for i in 1..=8u8 {
        pixels.extend_from_slice(&[i, i, i, 255]);
    }
    let png = png_of(4, 2, pixels);
    let logo = toast_logo_png(&png).expect("logo");
    let decoded = image::load_from_memory_with_format(&logo, image::ImageFormat::Png)
        .unwrap()
        .to_rgba8();
    assert_eq!(decoded.dimensions(), (4, 4));
    // Rows 0 and 3 are transparent, rows 1 and 2 hold the picture.
    for x in 0..4 {
        assert_eq!(decoded.get_pixel(x, 0).0, [0, 0, 0, 0]);
        assert_eq!(decoded.get_pixel(x, 3).0, [0, 0, 0, 0]);
        let top = (x + 1) as u8;
        let bottom = (x + 5) as u8;
        assert_eq!(decoded.get_pixel(x, 1).0, [top, top, top, 255]);
        assert_eq!(decoded.get_pixel(x, 2).0, [bottom, bottom, bottom, 255]);
    }
}

#[test]
fn logo_of_tall_picture() {
    let mut pixels = Vec::new();
    for i in 1..=3u8 {
        pixels.extend_from_slice(&[i, 0, 0, 255]);
    }
    let png = png_of(1, 3, pixels);
    let logo = toast_logo_png(&png).expect("logo");
    let decoded = image::load_from_memory_with_format(&logo, image::ImageFormat::Png)
        .unwrap()
        .to_rgba8();
    assert_eq!(decoded.dimensions(), (3, 3));
    for y in 0..3 {
        assert_eq!(decoded.get_pixel(0, y).0, [0, 0, 0, 0]);
        assert_eq!(decoded.get_pixel(1, y).0, [(y + 1) as u8, 0, 0, 255]);
        assert_eq!(decoded.get_pixel(2, y).0, [0, 0, 0, 0]);
    }
}

#[test]
fn logo_of_garbage_is_none() {
    assert_eq!(toast_logo_png(&[1, 2, 3, 4]), None);
}
