//! What the tray shows for a battery reading, and the small decisions of the
//! polling loop.
use vstd::prelude::*;

use crate::battery::{BatteryStatus, Theme};
use crate::icon::{battery_res_id, battery_res_id_for, generate_number_icon, is_number_icon};
use crate::settings::Settings;

verus! {

/// The picture to put in the tray.
pub enum TrayImage {
    /// A generated 16x16 RGBA image.
    Rgba(Vec<u8>),
    /// An icon embedded in the executable, by resource id.
    Resource(u16),
}

/// The tray picture for a reading: the number icon (in its default colours)
/// when the user chose it, else the embedded battery icon.
pub fn tray_icon_image(
    settings: Settings,
    theme: Theme,
    battery_percent: isize,
    state: BatteryStatus,
) -> (image: TrayImage)
    ensures
        match image {
            TrayImage::Rgba(img) => settings.use_number_icon && is_number_icon(
                theme,
                battery_percent as int,
                state,
                None,
                img@,
            ),
            TrayImage::Resource(id) => !settings.use_number_icon && id == battery_res_id(
                theme,
                battery_percent as int,
                state,
            ),
        },
{
    if settings.use_number_icon {
        TrayImage::Rgba(generate_number_icon(theme, battery_percent, state, None))
    } else {
        TrayImage::Resource(battery_res_id_for(theme, battery_percent, state))
    }
}

/// The reading shown for a headset, or for none: no headset reads as level 0
/// with no battery level available.
pub fn shown_reading(reading: Option<(isize, BatteryStatus)>) -> (shown: (isize, BatteryStatus))
    ensures
        shown == match reading {
            Some(r) => r,
            None => (0isize, BatteryStatus::Unavailable),
        },
{
    match reading {
        Some(r) => r,
        None => (0, BatteryStatus::Unavailable),
    }
}

/// The theme the tray follows: the system's dark mode setting.
pub fn system_theme(system_uses_dark_mode: bool) -> (theme: Theme)
    ensures
        theme == if system_uses_dark_mode {
            Theme::Dark
        } else {
            Theme::Light
        },
{
    if system_uses_dark_mode {
        Theme::Dark
    } else {
        Theme::Light
    }
}

/// Whether the headset is due to be polled again: more than a second has
/// passed since the last poll.
pub fn poll_due(elapsed_nanos: u128) -> (due: bool)
    ensures
        due == (elapsed_nanos > 1_000_000_000),
{
    elapsed_nanos > 1_000_000_000
}

/// The device whose battery is shown: the selected one, or the last device
/// when the selection lies beyond the list.
pub fn selected_device_index(selected: usize, device_count: usize) -> (index: usize)
    requires
        device_count > 0,
    ensures
        index == if selected < device_count {
            selected as int
        } else {
            device_count - 1
        },
        index < device_count,
{
    if selected < device_count - 1 {
        selected
    } else {
        device_count - 1
    }
}

} // verus!
