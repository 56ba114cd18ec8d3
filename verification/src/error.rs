//! The ways a lookup can fail, and how a failed run ends.

use vstd::prelude::*;
use vstd::string::StringExecFns;

verus! {

/// Why a lookup produced no summary. Every failure is final: nothing is
/// retried and nothing is printed in part.
#[derive(Clone, Copy, Debug, PartialEq, Eq, Structural)]
pub enum WeatherError {
    /// The postal code is missing or is not an integer.
    InvalidArgument,
    /// No credential for the weather service was given.
    MissingCredential,
    /// The request failed, or the answer was not of the expected shape.
    FetchError,
}

/// The exit status that reports `error`.
pub open spec fn exit_status(error: WeatherError) -> int {
    match error {
        WeatherError::InvalidArgument => 101,
        WeatherError::MissingCredential => 101,
        WeatherError::FetchError => 1,
    }
}

/// The diagnostic that reports `error`.
pub open spec fn diagnostic(error: WeatherError) -> Seq<char> {
    match error {
        WeatherError::InvalidArgument => "First argument must be a valid float!"@,
        WeatherError::MissingCredential => "No API Key Loaded!"@,
        WeatherError::FetchError => "The weather service gave no usable answer!"@,
    }
}

impl WeatherError {
    /// The status the process exits with for this failure; it is never the
    /// status of success.
    pub fn exit_code(&self) -> (code: i32)
        ensures
            code == exit_status(*self),
            code != 0,
    {
        match self {
            WeatherError::InvalidArgument => 101,
            WeatherError::MissingCredential => 101,
            WeatherError::FetchError => 1,
        }
    }

    /// The diagnostic printed for this failure.
    pub fn message(&self) -> (text: String)
        ensures
            text@ == diagnostic(*self),
    {
        match self {
            WeatherError::InvalidArgument => String::from_str(
                "First argument must be a valid float!",
            ),
            WeatherError::MissingCredential => String::from_str("No API Key Loaded!"),
            WeatherError::FetchError => String::from_str(
                "The weather service gave no usable answer!",
            ),
        }
    }
}

} // verus!
