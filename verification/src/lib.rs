//! Control of screen and keyboard backlights: the brightness rules, the
//! value-file format and the breathing-light cycle, verified with Verus.
pub mod backlight_controller;
pub mod cmd;
pub mod error;
