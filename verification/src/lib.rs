//! Headset battery indicator: the decisions and pixel work behind a tray icon
//! that shows the battery level of a wireless headset.
use vstd::prelude::*;

pub mod battery;
pub mod icon;
pub mod lang;
pub mod notify;
pub mod overlay;
pub mod settings;
pub mod text;
pub mod tray;

verus! {

} // verus!
