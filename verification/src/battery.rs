//! The plain values that the rest of the library reads: the desktop theme and
//! the state a headset reports for its battery.
use vstd::prelude::*;

verus! {

/// Colour scheme of the desktop that the tray icon is drawn on.
#[derive(Clone, Copy, Debug, PartialEq, Eq, Structural)]
pub enum Theme {
    Light,
    Dark,
}

/// What a headset reports about its battery.
#[derive(Clone, Copy, Debug, PartialEq, Eq, Structural)]
pub enum BatteryStatus {
    /// The battery level is known and the headset runs on battery.
    Available,
    /// The headset is plugged in and charging.
    Charging,
    /// No battery level can be read (headset off or out of range).
    Unavailable,
}

} // verus!
