use vstd::prelude::*;

verus! {

/// What can go wrong in the program as a whole.
#[derive(Debug)]
#[allow(inconsistent_fields)]
pub enum Error {
    /// The asynchronous runtime could not be created.
    InitializeTokioRuntime { source: std::io::Error },
    /// A listener for Unix signals could not be created.
    CreateUnixSignalListener { source: std::io::Error },
    /// Reading or changing a backlight failed.
    BacklightControl { source: crate::backlight_controller::Error },
}

impl From<crate::backlight_controller::Error> for Error {
    /// A backlight failure, as a failure of the program.
    fn from(source: crate::backlight_controller::Error) -> (error: Self) {
        Error::BacklightControl { source }
    }
}

impl vstd::std_specs::convert::FromSpecImpl<crate::backlight_controller::Error> for Error {
    open spec fn obeys_from_spec() -> bool {
        true
    }

    open spec fn from_spec(source: crate::backlight_controller::Error) -> Self {
        Error::BacklightControl { source }
    }
}

} // verus!
