//! The error every fallible operation of the library returns.

use vstd::prelude::*;
use crate::framework::Error as FrameworkError;

verus! {

/// Why a hardware selection cannot be turned into a device.
#[derive(Debug, Clone, Copy, PartialEq, Eq, Structural)]
pub enum ConfigurationError {
    /// No hardware was selected.
    EmptySelection,
    /// The selected unit at this position was not discovered by the framework.
    UnknownHardware(usize),
}

/// The library's error: a rejected configuration, or a native failure tagged
/// with the framework that reported it.
#[derive(Debug)]
pub enum Error {
    /// The hardware selection was rejected before any native call.
    Configuration(ConfigurationError),
    /// The driver failed to enumerate hardware or to create a device.
    Driver(FrameworkError),
    /// The driver failed to build the framework's binary.
    Compilation(FrameworkError),
}

/// The text shown for a rejected configuration.
pub open spec fn configuration_text(c: ConfigurationError) -> Seq<char> {
    match c {
        ConfigurationError::EmptySelection => "Configuration error: no hardware selected"@,
        ConfigurationError::UnknownHardware(_) =>
            "Configuration error: hardware not discovered by the framework"@,
    }
}

impl Error {
    /// The text shown for the error.
    pub open spec fn text(self) -> Seq<char> {
        match self {
            Error::Configuration(c) => configuration_text(c),
            Error::Driver(e) => e.text(),
            Error::Compilation(e) => e.text(),
        }
    }

    /// The text shown for the error; a native failure keeps its framework's
    /// name as a prefix and its message unchanged.
    pub fn to_string(&self) -> (r: String)
        ensures
            r@ == self.text(),
    {
        match self {
            Error::Configuration(ConfigurationError::EmptySelection) => String::from_str(
                "Configuration error: no hardware selected",
            ),
            Error::Configuration(ConfigurationError::UnknownHardware(_)) => String::from_str(
                "Configuration error: hardware not discovered by the framework",
            ),
            Error::Driver(e) => e.to_string(),
            Error::Compilation(e) => e.to_string(),
        }
    }

    /// The message of the native status behind the error, unchanged, if a
    /// driver reported one.
    pub fn native_description(&self) -> (r: Option<&str>)
        ensures
            match *self {
                Error::Configuration(_) => r is None,
                Error::Driver(e) => r is Some && r->0@ == e.native_message(),
                Error::Compilation(e) => r is Some && r->0@ == e.native_message(),
            },
    {
        match self {
            Error::Configuration(_) => None,
            Error::Driver(e) => Some(e.description()),
            Error::Compilation(e) => Some(e.description()),
        }
    }
}

impl From<FrameworkError> for Error {
    fn from(err: FrameworkError) -> (r: Error)
        ensures
            r == Error::Driver(err),
    {
        Error::Driver(err)
    }
}

impl vstd::std_specs::convert::FromSpecImpl<FrameworkError> for Error {
    open spec fn obeys_from_spec() -> bool {
        true
    }

    open spec fn from_spec(v: FrameworkError) -> Error {
        Error::Driver(v)
    }
}

} // verus!
