use vstd::prelude::*;

use crate::backlight_controller::value_file::IntErrorKind;

verus! {

#[verifier::external_type_specification]
#[verifier::external_body]
pub struct ExIoError(std::io::Error);

/// What can go wrong while a backlight is read or changed.
#[derive(Debug)]
#[allow(inconsistent_fields)]
pub enum Error {
    /// The value file could not be read.
    ReadValueFile { file_path: String, source: std::io::Error },
    /// The value file could not be written.
    WriteValueFile { file_path: String, source: std::io::Error },
    /// A value file does not hold a `u64`.
    ParseValue { source: IntErrorKind },
    /// The directory of backlight controllers could not be read.
    ReadDir { dir_path: String, source: std::io::Error },
    /// No device of the named kind is present.
    NoSuchDevice { device: String },
}

} // verus!
