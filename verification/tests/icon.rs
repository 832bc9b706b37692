use headset_battery_indicator::battery::{BatteryStatus, Theme};
use headset_battery_indicator::icon::{battery_res_id_for, draw_digit, generate_number_icon, put_pixel};

/// The ids under which the build embeds icons.
fn embedded_ids() -> Vec<u16> {
    let mut ids = Vec::new();
    for step in 1..=5u16 {
        ids.push(step * 10);
        ids.push(step * 10 + 1);
        ids.push(step * 10 + 5);
        ids.push(step * 10 + 6);
    }
    ids
}

#[test]
fn lib_load_all_icons() {
    let ids = embedded_ids();
    for i in 0..=100 {
        let id = battery_res_id_for(Theme::Dark, i, BatteryStatus::Available);
        assert!(ids.contains(&id));
    }
    for i in 0..=100 {
        let id = battery_res_id_for(Theme::Light, i, BatteryStatus::Available);
        assert!(ids.contains(&id));
    }
}

#[test]
fn icon_load_all_icons() {
    let ids = embedded_ids();
    for state in [BatteryStatus::Available, BatteryStatus::Charging, BatteryStatus::Unavailable] {
        for theme in [Theme::Dark, Theme::Light] {
            for i in -5..=105 {
                assert!(ids.contains(&battery_res_id_for(theme, i, state)));
            }
        }
    }
}

#[test]
fn res_id_steps() {
    assert_eq!(battery_res_id_for(Theme::Dark, -1, BatteryStatus::Available), 10);
    assert_eq!(battery_res_id_for(Theme::Dark, 0, BatteryStatus::Available), 10);
    assert_eq!(battery_res_id_for(Theme::Dark, 12, BatteryStatus::Available), 10);
    assert_eq!(battery_res_id_for(Theme::Dark, 13, BatteryStatus::Available), 20);
    assert_eq!(battery_res_id_for(Theme::Dark, 37, BatteryStatus::Available), 20);
    assert_eq!(battery_res_id_for(Theme::Dark, 38, BatteryStatus::Available), 30);
    assert_eq!(battery_res_id_for(Theme::Dark, 62, BatteryStatus::Available), 30);
    assert_eq!(battery_res_id_for(Theme::Dark, 63, BatteryStatus::Available), 40);
    assert_eq!(battery_res_id_for(Theme::Dark, 87, BatteryStatus::Available), 40);
    assert_eq!(battery_res_id_for(Theme::Dark, 88, BatteryStatus::Available), 50);
    assert_eq!(battery_res_id_for(Theme::Dark, 100, BatteryStatus::Available), 50);
    // Below -1 the percentage falls through to the full icon.
    assert_eq!(battery_res_id_for(Theme::Dark, -2, BatteryStatus::Available), 50);
}

#[test]
fn res_id_theme_and_charging() {
    assert_eq!(battery_res_id_for(Theme::Light, 50, BatteryStatus::Available), 35);
    assert_eq!(battery_res_id_for(Theme::Dark, 50, BatteryStatus::Charging), 31);
    assert_eq!(battery_res_id_for(Theme::Light, 50, BatteryStatus::Charging), 36);
    assert_eq!(battery_res_id_for(Theme::Dark, 80, BatteryStatus::Unavailable), 10);
    assert_eq!(battery_res_id_for(Theme::Light, 80, BatteryStatus::Unavailable), 15);
}

#[test]
fn put_pixel_writes_one_pixel() {
    let mut img = vec![0u8; 16];
    put_pixel(&mut img, 2, 1, 1, [1, 2, 3, 4]);
    assert_eq!(img, vec![0, 0, 0, 0, 0, 0, 0, 0, 0, 0, 0, 0, 1, 2, 3, 4]);
}

#[test]
fn put_pixel_skips_pixel_outside() {
    let mut img = vec![0u8; 14];
    put_pixel(&mut img, 2, 1, 1, [1, 2, 3, 4]);
    assert_eq!(img, vec![0u8; 14]);
}

fn pixel(img: &[u8], x: usize, y: usize) -> [u8; 4] {
    let i = (y * 16 + x) * 4;
    [img[i], img[i + 1], img[i + 2], img[i + 3]]
}

#[test]
fn draw_digit_one() {
    let mut img = vec![0u8; 16 * 16 * 4];
    draw_digit(&mut img, 16, 1, 0, 0, [9, 9, 9, 9]);
    for y in 0..16 {
        for x in 0..16 {
            let lit = y < 11 && (x == 2 || x == 3);
            let expected = if lit { [9, 9, 9, 9] } else { [0, 0, 0, 0] };
            assert_eq!(pixel(&img, x, y), expected, "pixel ({x}, {y})");
        }
    }
}

#[test]
fn number_icon_single_digit_red_when_low() {
    let img = generate_number_icon(Theme::Dark, 5, BatteryStatus::Available, None);
    assert_eq!(img.len(), 1024);
    assert_eq!(pixel(&img, 5, 2), [255, 0, 0, 255]);
    assert_eq!(pixel(&img, 0, 0), [0, 0, 0, 0]);
    assert_eq!(pixel(&img, 5, 13), [0, 0, 0, 0]);
    // Row 1 of the 5 is 0b110000: columns 0 and 1 only.
    assert_eq!(pixel(&img, 6, 3), [255, 0, 0, 255]);
    assert_eq!(pixel(&img, 7, 3), [0, 0, 0, 0]);
}

#[test]
fn number_icon_two_digits() {
    let img = generate_number_icon(Theme::Light, 57, BatteryStatus::Available, None);
    assert_eq!(pixel(&img, 0, 2), [0, 0, 0, 255]);
    assert_eq!(pixel(&img, 8, 2), [0, 0, 0, 255]);
    assert_eq!(pixel(&img, 6, 2), [0, 0, 0, 0]);
    // The 7 ends in a column at offsets 1 and 2 in its last drawn row.
    assert_eq!(pixel(&img, 9, 12), [0, 0, 0, 255]);
    assert_eq!(pixel(&img, 8, 12), [0, 0, 0, 0]);
}

#[test]
fn number_icon_clamps_to_99() {
    let full = generate_number_icon(Theme::Dark, 150, BatteryStatus::Charging, None);
    let nine = generate_number_icon(Theme::Dark, 99, BatteryStatus::Charging, None);
    assert_eq!(full, nine);
    assert_eq!(pixel(&full, 0, 2), [0, 255, 0, 255]);
    let negative = generate_number_icon(Theme::Dark, -4, BatteryStatus::Charging, None);
    let zero = generate_number_icon(Theme::Dark, 0, BatteryStatus::Charging, None);
    assert_eq!(negative, zero);
}

#[test]
fn number_icon_dashes_when_unavailable() {
    let img = generate_number_icon(Theme::Dark, 42, BatteryStatus::Unavailable, None);
    let mut lit = 0;
    for y in 0..16 {
        for x in 0..16 {
            let p = pixel(&img, x, y);
            let dash = (6..8).contains(&y) && ((2..6).contains(&x) || (10..14).contains(&x));
            assert_eq!(p, if dash { [255, 255, 255, 255] } else { [0, 0, 0, 0] });
            if dash {
                lit += 1;
            }
        }
    }
    assert_eq!(lit, 16);
}

#[test]
fn number_icon_custom_color() {
    let img = generate_number_icon(Theme::Light, 3, BatteryStatus::Charging, Some([1, 2, 3]));
    assert_eq!(pixel(&img, 5, 2), [1, 2, 3, 255]);
}
