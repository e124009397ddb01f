//! What can go wrong between the driver and the controller.

use vstd::prelude::*;
use vstd::string::*;

verus! {

/// A failed driver operation.
#[derive(Debug, Clone, PartialEq, Eq)]
pub enum ArcusError {
    /// The serial port could not be opened or configured; holds the port's
    /// own description of the failure.
    Serial(String),
    /// The transport failed other than by timing out; holds its description.
    Io(String),
    /// No line terminator arrived before a byte read timed out.
    Timeout,
    /// The response was not what the operation expects; holds the response
    /// as it was received.
    InvalidResponse(String),
}

impl ArcusError {
    /// The text that describes this error to a user.
    pub open spec fn text(self) -> Seq<char> {
        match self {
            ArcusError::Serial(description) => "Serial port error: "@ + description@,
            ArcusError::Io(description) => "IO error: "@ + description@,
            ArcusError::Timeout => "Timeout waiting for response"@,
            ArcusError::InvalidResponse(raw) => "Invalid response: "@ + raw@,
        }
    }

    /// A second copy of this error.
    pub fn duplicate(&self) -> (copy: ArcusError)
        ensures
            copy == *self,
    {
        match self {
            ArcusError::Serial(description) => ArcusError::Serial(description.clone()),
            ArcusError::Io(description) => ArcusError::Io(description.clone()),
            ArcusError::Timeout => ArcusError::Timeout,
            ArcusError::InvalidResponse(raw) => ArcusError::InvalidResponse(raw.clone()),
        }
    }

    /// Renders this error for a user.
    pub fn message(&self) -> (rendered: String)
        ensures
            rendered@ == self.text(),
    {
        match self {
            ArcusError::Serial(description) => {
                String::from_str("Serial port error: ").concat(description.as_str())
            },
            ArcusError::Io(description) => {
                String::from_str("IO error: ").concat(description.as_str())
            },
            ArcusError::Timeout => String::from_str("Timeout waiting for response"),
            ArcusError::InvalidResponse(raw) => {
                String::from_str("Invalid response: ").concat(raw.as_str())
            },
        }
    }
}

} // verus!
