use vstd::prelude::*;

pub mod breathing;
pub mod error;
pub mod keyboard;
pub mod screen;
pub mod value_file;

pub use self::error::Error;
pub use self::keyboard::KeyboardBacklight;
pub use self::screen::ScreenBacklight;
use self::value_file::{decimal, parse_value, parse_value_text, render_value, IntErrorKind};

verus! {

/// The brightness state of one backlight device: its current value and the
/// largest value it accepts.
#[derive(Debug, Clone, Copy, PartialEq, Eq, Structural)]
pub struct Device {
    current_value: u64,
    max_value: u64,
}

impl Device {
    /// The current brightness value.
    pub closed spec fn spec_current_value(&self) -> u64 {
        self.current_value
    }

    /// The largest brightness value.
    pub closed spec fn spec_max_value(&self) -> u64 {
        self.max_value
    }

    /// A device with the given current and maximal values.
    pub fn new(current_value: u64, max_value: u64) -> (device: Device)
        ensures
            device.spec_current_value() == current_value,
            device.spec_max_value() == max_value,
    {
        Device { current_value, max_value }
    }

    pub fn max_value(&self) -> (value: u64)
        ensures
            value == self.spec_max_value(),
    {
        self.max_value
    }

    pub fn current_value(&self) -> (value: u64)
        ensures
            value == self.spec_current_value(),
    {
        self.current_value
    }
}

/// The maximal value that a device has after a load: what its
/// maximum-value file holds, or 255 where that file could not be read.
pub open spec fn loaded_max_value(max_value_text: Result<String, std::io::Error>) -> Result<
    u64,
    IntErrorKind,
> {
    match max_value_text {
        Ok(text) => parse_value(text@),
        Err(_) => Ok(255),
    }
}

impl Device {
    /// A device as its two files describe it, given what reading them gave.
    /// A failed read of the value file is an error; a failed read of the
    /// maximum-value file stands for the maximum 255.
    pub fn load(
        value_file_path: String,
        value_text: Result<String, std::io::Error>,
        max_value_text: Result<String, std::io::Error>,
    ) -> (result: Result<Device, Error>)
        ensures
            match value_text {
                Err(e) => result == Err::<Device, Error>(
                    Error::ReadValueFile { file_path: value_file_path, source: e },
                ),
                Ok(text) => match parse_value(text@) {
                    Err(kind) => result == Err::<Device, Error>(Error::ParseValue { source: kind }),
                    Ok(current) => match loaded_max_value(max_value_text) {
                        Err(kind) => result == Err::<Device, Error>(
                            Error::ParseValue { source: kind },
                        ),
                        Ok(max) => result matches Ok(device) && device.spec_current_value()
                            == current && device.spec_max_value() == max,
                    },
                },
            },
    {
        let current_value = match Device::load_current_value(value_file_path, value_text) {
            Err(e) => {
                return Err(e);
            },
            Ok(v) => v,
        };
        Device::load_with_current_value(current_value, max_value_text)
    }

    /// The first half of a load: the current value, given what reading the
    /// value file gave. The maximum-value file is read only after this
    /// succeeded.
    pub fn load_current_value(value_file_path: String, value_text: Result<String, std::io::Error>) -> (result: Result<u64, Error>)
        ensures
            match value_text {
                Err(e) => result == Err::<u64, Error>(
                    Error::ReadValueFile { file_path: value_file_path, source: e },
                ),
                Ok(text) => match parse_value(text@) {
                    Err(kind) => result == Err::<u64, Error>(Error::ParseValue { source: kind }),
                    Ok(current) => result == Ok::<u64, Error>(current),
                },
            },
    {
        let text = match value_text {
            Err(e) => {
                return Err(Error::ReadValueFile { file_path: value_file_path, source: e });
            },
            Ok(text) => text,
        };
        match parse_value_text(text.as_str()) {
            Err(kind) => Err(Error::ParseValue { source: kind }),
            Ok(v) => Ok(v),
        }
    }

    /// The second half of a load: the device with `current_value`, given
    /// what reading the maximum-value file gave.
    pub fn load_with_current_value(current_value: u64, max_value_text: Result<String, std::io::Error>) -> (result: Result<Device, Error>)
        ensures
            match loaded_max_value(max_value_text) {
                Err(kind) => result == Err::<Device, Error>(Error::ParseValue { source: kind }),
                Ok(max) => result matches Ok(device) && device.spec_current_value() == current_value
                    && device.spec_max_value() == max,
            },
    {
        let max_value = match max_value_text {
            Err(_) => 255,
            Ok(text) => match parse_value_text(text.as_str()) {
                Err(kind) => {
                    return Err(Error::ParseValue { source: kind });
                },
                Ok(v) => v,
            },
        };
        Ok(Device { current_value, max_value })
    }
}

impl Default for Device {
    /// A device that is off, with the customary maximum of 255.
    fn default() -> (device: Device)
        ensures
            device.spec_current_value() == 0,
            device.spec_max_value() == 255,
    {
        Device { current_value: 0, max_value: 255 }
    }
}

/// A change of brightness.
#[derive(Debug, Clone, Copy, PartialEq, Eq, Structural)]
pub enum BacklightAction {
    /// Raise the brightness by a percentage of the maximum.
    Up { percentage_value: u64 },
    /// Lower the brightness by a percentage of the maximum.
    Down { percentage_value: u64 },
    /// Set the brightness to a value, at most the maximum.
    SetValue { value: u64 },
    /// Set the brightness to the maximum.
    Max,
    /// Turn the light off.
    Off,
}

/// The brightness after `action`, from `current` on a device whose maximum
/// is `max`. `amount` is the brightness that the action's percentage stands
/// for on this device; only `Up` and `Down` read it.
pub open spec fn spec_next_value(action: BacklightAction, current: u64, max: u64, amount: u64) -> u64 {
    match action {
        BacklightAction::Up { .. } => if current >= max - amount {
            max
        } else {
            (current + amount) as u64
        },
        BacklightAction::Down { .. } => if current <= amount {
            0
        } else {
            (current - amount) as u64
        },
        BacklightAction::SetValue { value } => if value <= max {
            value
        } else {
            max
        },
        BacklightAction::Max => max,
        BacklightAction::Off => 0,
    }
}

impl BacklightAction {
    /// The brightness that this action leads to from `current_value`, on a
    /// device whose maximum is `max_value`. `amount` is the brightness that
    /// the action's percentage stands for on this device (for `Up` it may
    /// not exceed the maximum).
    pub fn next_value(&self, current_value: u64, max_value: u64, amount: u64) -> (next: u64)
        requires
            self is Up ==> amount <= max_value,
        ensures
            next == spec_next_value(*self, current_value, max_value, amount),
    {
        match self {
            BacklightAction::Up { .. } => {
                if current_value >= max_value - amount {
                    max_value
                } else {
                    current_value + amount
                }
            },
            BacklightAction::Down { .. } => {
                if current_value <= amount {
                    0
                } else {
                    current_value - amount
                }
            },
            BacklightAction::SetValue { value } => {
                if *value <= max_value {
                    *value
                } else {
                    max_value
                }
            },
            BacklightAction::Max => max_value,
            BacklightAction::Off => 0,
        }
    }
}

/// A brightness within the device's range stays within it after any action:
/// no action ever leads above the maximum, and lowering never leads above
/// where it started.
pub proof fn lemma_next_value_in_range(action: BacklightAction, current: u64, max: u64, amount: u64)
    requires
        current <= max,
        action is Up ==> amount <= max,
    ensures
        spec_next_value(action, current, max, amount) <= max,
        action is Down ==> spec_next_value(action, current, max, amount) <= current,
{
}

/// Raising never lowers the brightness and lowering never raises it; each
/// moves by the full amount unless it meets the end of the range.
pub proof fn lemma_next_value_direction(action: BacklightAction, current: u64, max: u64, amount: u64)
    requires
        current <= max,
        action is Up ==> amount <= max,
    ensures
        action is Up ==> current <= spec_next_value(action, current, max, amount),
        action is Up ==> spec_next_value(action, current, max, amount) == if current + amount
            <= max {
            current + amount
        } else {
            max as int
        },
        action is Down ==> spec_next_value(action, current, max, amount) == if amount <= current {
            current - amount
        } else {
            0
        },
{
}

/// `Max` and `Off` reach the ends of the range from anywhere, and a second
/// `Set` of the same value changes nothing.
pub proof fn lemma_next_value_absolute(value: u64, current: u64, max: u64, amount: u64)
    ensures
        spec_next_value(BacklightAction::Max, current, max, amount) == max,
        spec_next_value(BacklightAction::Off, current, max, amount) == 0,
        ({
            let set = BacklightAction::SetValue { value };
            let once = spec_next_value(set, current, max, amount);
            spec_next_value(set, once, max, amount) == once
        }),
{
}

/// A change reports the brightness that it set: the text written for the
/// new brightness is read back, on reload, as that brightness.
pub proof fn lemma_change_reads_back(action: BacklightAction, current: u64, max: u64, amount: u64)
    ensures
        parse_value(decimal(spec_next_value(action, current, max, amount) as nat)) == Ok::<
            u64,
            IntErrorKind,
        >(spec_next_value(action, current, max, amount)),
{
    value_file::lemma_rendered_value_reads_back(spec_next_value(action, current, max, amount));
}

/// What each action does, as plain arithmetic on every input: `SetValue`
/// gives the smaller of the value and the maximum, whatever the current
/// brightness; `Max` gives the maximum and `Off` gives 0; `Up` gives the
/// raised brightness capped at the maximum; `Down` gives the lowered
/// brightness floored at 0.
pub proof fn lemma_next_value_meaning(action: BacklightAction, current: u64, max: u64, amount: u64)
    requires
        action is Up ==> amount <= max,
    ensures
        action matches BacklightAction::SetValue { value } ==> (value <= max ==> spec_next_value(
            action,
            current,
            max,
            amount,
        ) == value) && (value > max ==> spec_next_value(action, current, max, amount) == max),
        action is Max ==> spec_next_value(action, current, max, amount) == max,
        action is Off ==> spec_next_value(action, current, max, amount) == 0,
        action is Up ==> spec_next_value(action, current, max, amount) == if current + amount
            <= max {
            current + amount
        } else {
            max as int
        },
        action is Down ==> spec_next_value(action, current, max, amount) == if amount <= current {
            current - amount
        } else {
            0
        },
{
}

/// The maximum of a loaded device is the number that its maximum-value file
/// holds, whatever its size; the load fails only when that text holds no
/// `u64`, and a file that cannot be read stands for 255.
pub proof fn lemma_loaded_max_value_is_the_file_value(text: String, value: u64)
    ensures
        parse_value(text@) == Ok::<u64, IntErrorKind>(value) ==> loaded_max_value(
            Ok::<String, std::io::Error>(text),
        ) == Ok::<u64, IntErrorKind>(value),
        parse_value(text@) is Err ==> loaded_max_value(Ok::<String, std::io::Error>(text))
            == parse_value(text@),
        text@ == decimal(value as nat) ==> loaded_max_value(Ok::<String, std::io::Error>(text))
            == Ok::<u64, IntErrorKind>(value),
        forall|e: std::io::Error|
            loaded_max_value(Err::<String, std::io::Error>(e)) == Ok::<u64, IntErrorKind>(255),
{
    value_file::lemma_rendered_value_reads_back(value);
}

/// A brightness within the range is between 0 and 100 percent.
pub proof fn lemma_percentage_at_most_100(current: u64, max: u64)
    requires
        0 < max,
        current <= max,
    ensures
        0 <= (100 * current) / (max as int) <= 100,
{
    assert((100 * current) / (max as int) <= 100) by (nonlinear_arith)
        requires
            0 < max,
            current <= max,
    ;
}

/// What a backlight device offers for reading.
pub trait Backlight {
    /// The brightness state that this backlight reports.
    spec fn spec_device(&self) -> Device;

    /// The path of the value file.
    spec fn spec_value_file_path(&self) -> Seq<char>;

    /// The path of the maximum-value file.
    spec fn spec_maximum_value_file_path(&self) -> Seq<char>;

    fn max_value(&self) -> (value: u64)
        ensures
            value == self.spec_device().spec_max_value(),
    ;

    fn current_value(&self) -> (value: u64)
        ensures
            value == self.spec_device().spec_current_value(),
    ;

    /// The brightness in percent of the maximum, rounded down.
    fn current_percentage(&self) -> (percentage: u64)
        requires
            self.spec_device().spec_max_value() > 0,
            100 * self.spec_device().spec_current_value() <= u64::MAX,
        ensures
            percentage == (100 * self.spec_device().spec_current_value()) / (
            self.spec_device().spec_max_value() as int),
    {
        100 * self.current_value() / self.max_value()
    }

    /// The text to write to the value file to apply `action`: the decimal
    /// text of the brightness that the action leads to. `amount` is the
    /// brightness that the action's percentage stands for on this device.
    fn next_value_text(&self, action: &BacklightAction, amount: u64) -> (text: String)
        requires
            action is Up ==> amount <= self.spec_device().spec_max_value(),
        ensures
            text@ == decimal(
                spec_next_value(
                    *action,
                    self.spec_device().spec_current_value(),
                    self.spec_device().spec_max_value(),
                    amount,
                ) as nat,
            ),
    {
        let next = action.next_value(self.current_value(), self.max_value(), amount);
        render_value(next)
    }

    fn current_value_file_path(&self) -> (path: &str)
        ensures
            path@ == self.spec_value_file_path(),
    ;

    fn maximum_value_file_path(&self) -> (path: &str)
        ensures
            path@ == self.spec_maximum_value_file_path(),
    ;
}

} // verus!
