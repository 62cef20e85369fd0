//! The user's settings: capture device, theme and caps-lock indicator.
use vstd::prelude::*;

use crate::themes::ThemeChoice;

verus! {

/// The capture device to open.
#[derive(Debug, Clone)]
pub enum ActiveDevice {
    /// The system's default device.
    Default,
    /// The device with this name.
    Named(String),
}

impl Default for ActiveDevice {
    fn default() -> (r: Self)
        ensures
            r is Default,
    {
        ActiveDevice::Default
    }
}

impl ActiveDevice {
    /// The device that a stored name stands for: the word `Default` names the
    /// system's default device, any other text a device of that name.
    pub fn from_string(s: String) -> (r: Self)
        ensures
            s@ == "Default"@ ==> r is Default,
            s@ != "Default"@ ==> (r matches ActiveDevice::Named(n) && n@ == s@),
    {
        let default_name: String = "Default".to_owned();
        if s == default_name {
            ActiveDevice::Default
        } else {
            ActiveDevice::Named(s)
        }
    }
}

/// The user's settings.
#[derive(Debug, Clone)]
pub struct Options {
    pub device: ActiveDevice,
    pub theme: ThemeChoice,
    pub caps_active: bool,
}

impl Default for Options {
    fn default() -> (r: Self)
        ensures
            r.device is Default,
            r.theme == ThemeChoice::Classic,
            r.caps_active,
    {
        Options { device: ActiveDevice::Default, theme: ThemeChoice::Classic, caps_active: true }
    }
}

} // verus!
