//! The commands of the program and what each asks of a backlight.
use vstd::prelude::*;

use crate::backlight_controller::breathing::BreathingPlan;
use crate::backlight_controller::BacklightAction;

verus! {

/// The exit code of a run that succeeded.
pub const EXIT_SUCCESS: i32 = 0;

/// The exit code of a run that failed.
pub const EXIT_FAILURE: i32 = 1;

/// What the program is asked to do.
#[derive(Debug, Clone, Copy, PartialEq, Eq)]
pub enum Command {
    /// Work on the screen backlight.
    ScreenBacklight { cmd: BacklightCommand },
    /// Work on the keyboard backlight.
    KeyboardBacklight { cmd: BacklightCommand },
    /// Write a tab-completion script for a shell.
    Completions { shell: CompletionShell },
    /// Show the version.
    Version,
}

/// What to do with a backlight.
#[derive(Debug, Clone, Copy, PartialEq, Eq, Structural)]
pub enum BacklightCommand {
    /// Show the current brightness value.
    Get,
    /// Show the current brightness in percent.
    GetPercentage,
    /// Set the brightness to a value.
    SetValue { value: u64 },
    /// Set the brightness to a percentage of the maximum.
    SetPercentage { percentage_value: u64 },
    /// Raise the brightness by a percentage of the maximum.
    Up { percentage_value: u64 },
    /// Lower the brightness by a percentage of the maximum.
    Down { percentage_value: u64 },
    /// Set the brightness to the maximum.
    Max,
    /// Turn the backlight off.
    Off,
    /// Let the light breathe until interrupted.
    BreathingLight { step: u64, delay: u64 },
}

/// The shells for which a completion script can be written.
#[derive(Debug, Clone, Copy, PartialEq, Eq, Structural)]
pub enum CompletionShell {
    Bash,
    Zsh,
    Fish,
    PowerShell,
    Elvish,
}

/// What a backlight command asks of the backlight.
#[derive(Debug)]
pub enum Request {
    /// Print the current brightness value.
    ShowValue,
    /// Print the current brightness in percent.
    ShowPercentage,
    /// Apply a change of brightness.
    Change { action: BacklightAction },
    /// Set the brightness to a percentage of the maximum.
    ChangeToPercentage { percentage_value: u64 },
    /// Breathe by this plan until interrupted, then restore the brightness
    /// that was there before.
    Breathe { plan: BreathingPlan },
}

impl BacklightCommand {
    /// What this command asks of the backlight; the breathing light runs
    /// between 0 and 100 percent.
    pub fn request(&self) -> (request: Request)
        ensures
            match *self {
                BacklightCommand::Get => request is ShowValue,
                BacklightCommand::GetPercentage => request is ShowPercentage,
                BacklightCommand::SetValue { value } => request == Request::Change {
                    action: BacklightAction::SetValue { value },
                },
                BacklightCommand::SetPercentage { percentage_value } => request
                    == Request::ChangeToPercentage { percentage_value },
                BacklightCommand::Up { percentage_value } => request == Request::Change {
                    action: BacklightAction::Up { percentage_value },
                },
                BacklightCommand::Down { percentage_value } => request == Request::Change {
                    action: BacklightAction::Down { percentage_value },
                },
                BacklightCommand::Max => request == Request::Change { action: BacklightAction::Max },
                BacklightCommand::Off => request == Request::Change { action: BacklightAction::Off },
                BacklightCommand::BreathingLight { step, delay } => request matches Request::Breathe {
                    plan,
                } && plan.spec_step() == (if step == 0 || step > 100 {
                    5
                } else {
                    step
                }) && plan.spec_delay() == (if delay == 0 {
                    100
                } else {
                    delay
                }) && plan.spec_iterations() == 100int / (plan.spec_step() as int)
                    && plan.spec_min_percentage() == 0 && plan.spec_max_percentage() == 100,
            },
    {
        match self {
            BacklightCommand::Get => Request::ShowValue,
            BacklightCommand::GetPercentage => Request::ShowPercentage,
            BacklightCommand::SetValue { value } => Request::Change {
                action: BacklightAction::SetValue { value: *value },
            },
            BacklightCommand::SetPercentage { percentage_value } => Request::ChangeToPercentage {
                percentage_value: *percentage_value,
            },
            BacklightCommand::Up { percentage_value } => Request::Change {
                action: BacklightAction::Up { percentage_value: *percentage_value },
            },
            BacklightCommand::Down { percentage_value } => Request::Change {
                action: BacklightAction::Down { percentage_value: *percentage_value },
            },
            BacklightCommand::Max => Request::Change { action: BacklightAction::Max },
            BacklightCommand::Off => Request::Change { action: BacklightAction::Off },
            BacklightCommand::BreathingLight { step, delay } => {
                let plan = BreathingPlan::new(*step, *delay, 0, 100);
                Request::Breathe { plan }
            },
        }
    }
}

/// The exit code of a run that succeeded or failed.
pub fn exit_code(succeeded: bool) -> (code: i32)
    ensures
        code == if succeeded {
            EXIT_SUCCESS
        } else {
            EXIT_FAILURE
        },
{
    if succeeded {
        EXIT_SUCCESS
    } else {
        EXIT_FAILURE
    }
}

} // verus!
