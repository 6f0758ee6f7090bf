use vstd::prelude::*;

use crate::backlight_controller::{Backlight, Device};

verus! {

/// The path of the keyboard backlight's value file.
pub open spec fn keyboard_value_file_path() -> Seq<char> {
    "/sys/class/leds/smc::kbd_backlight/brightness"@
}

/// The path of the keyboard backlight's maximum-value file.
pub open spec fn keyboard_maximum_value_file_path() -> Seq<char> {
    "/sys/class/leds/smc::kbd_backlight/max_brightness"@
}

/// The keyboard backlight of a MacBook.
pub struct KeyboardBacklight {
    device: Device,
}

impl KeyboardBacklight {
    /// The keyboard backlight in the state that its files describe.
    /// Reading those files is the caller's part.
    pub fn new(device: Device) -> (backlight: KeyboardBacklight)
        ensures
            backlight.spec_device() == device,
    {
        KeyboardBacklight { device }
    }

    /// The path of the value file, where the keyboard backlight is read and set.
    pub fn value_file_path() -> (path: &'static str)
        ensures
            path@ == keyboard_value_file_path(),
    {
        "/sys/class/leds/smc::kbd_backlight/brightness"
    }

    /// The path of the maximum-value file.
    pub fn max_value_file_path() -> (path: &'static str)
        ensures
            path@ == keyboard_maximum_value_file_path(),
    {
        "/sys/class/leds/smc::kbd_backlight/max_brightness"
    }
}

impl Backlight for KeyboardBacklight {
    closed spec fn spec_device(&self) -> Device {
        self.device
    }

    open spec fn spec_value_file_path(&self) -> Seq<char> {
        keyboard_value_file_path()
    }

    open spec fn spec_maximum_value_file_path(&self) -> Seq<char> {
        keyboard_maximum_value_file_path()
    }

    fn max_value(&self) -> (value: u64) {
        self.device.max_value()
    }

    fn current_value(&self) -> (value: u64) {
        self.device.current_value()
    }

    fn current_value_file_path(&self) -> (path: &str) {
        KeyboardBacklight::value_file_path()
    }

    fn maximum_value_file_path(&self) -> (path: &str) {
        KeyboardBacklight::max_value_file_path()
    }
}

} // verus!
