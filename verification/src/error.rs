//! The ways a classification can fail.

use vstd::prelude::*;
use vstd::string::*;

verus! {

/// Why no answer was obtained.
#[derive(Debug, Clone, Copy, PartialEq, Eq, Structural)]
pub enum HotdogError {
    /// The service could not be reached, or answered with a status outside 2xx.
    Api,
    /// The body of the answer is not JSON of the expected shape.
    Json,
    /// The body of the answer could not be read.
    Io,
    /// The answer is well formed but holds no plain-text first choice.
    MismatchMessage,
}

impl HotdogError {
    /// The one-line message of each kind, as a mathematical value.
    pub open spec fn message_of(self) -> Seq<char> {
        match self {
            HotdogError::Api => "api error"@,
            HotdogError::Json => "serialization error"@,
            HotdogError::Io => "io error"@,
            HotdogError::MismatchMessage => "mismatch chat message in response"@,
        }
    }

    /// The one-line message that names the kind of failure.
    pub fn message(&self) -> (text: String)
        ensures
            text@ == self.message_of(),
    {
        match self {
            HotdogError::Api => String::from_str("api error"),
            HotdogError::Json => String::from_str("serialization error"),
            HotdogError::Io => String::from_str("io error"),
            HotdogError::MismatchMessage => String::from_str("mismatch chat message in response"),
        }
    }
}

} // verus!
