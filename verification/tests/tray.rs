use headset_battery_indicator::battery::{BatteryStatus, Theme};
use headset_battery_indicator::icon::generate_number_icon;
use headset_battery_indicator::settings::Settings;
use headset_battery_indicator::tray::{
    poll_due, selected_device_index, shown_reading, system_theme, tray_icon_image, TrayImage,
};

#[test]
fn tray_picture_follows_setting() {
    let pictures = Settings { notifications_enabled: false, use_number_icon: false };
    match tray_icon_image(pictures, Theme::Dark, 40, BatteryStatus::Charging) {
        TrayImage::Resource(id) => assert_eq!(id, 31),
        TrayImage::Rgba(_) => panic!("expected an embedded icon"),
    }
    let numbers = Settings { notifications_enabled: false, use_number_icon: true };
    match tray_icon_image(numbers, Theme::Dark, 40, BatteryStatus::Charging) {
        TrayImage::Rgba(img) => {
            assert_eq!(img, generate_number_icon(Theme::Dark, 40, BatteryStatus::Charging, None))
        }
        TrayImage::Resource(_) => panic!("expected a number icon"),
    }
}

#[test]
fn loop_decisions() {
    assert_eq!(shown_reading(None), (0, BatteryStatus::Unavailable));
    assert_eq!(shown_reading(Some((77, BatteryStatus::Available))), (77, BatteryStatus::Available));
    assert_eq!(system_theme(true), Theme::Dark);
    assert_eq!(system_theme(false), Theme::Light);
    assert!(!poll_due(1_000_000_000));
    assert!(poll_due(1_000_000_001));
    assert_eq!(selected_device_index(0, 3), 0);
    assert_eq!(selected_device_index(2, 3), 2);
    assert_eq!(selected_device_index(7, 3), 2);
}
