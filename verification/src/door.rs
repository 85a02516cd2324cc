//! The door sensor's reading, and what a poll of the sensor can come to.

use vstd::prelude::*;
use vstd::string::*;
use crate::utils::{decimal_string, decimal_text};

verus! {

/// One reading of the door sensor: the input's number and its state, where
/// `state == true` means that the door is closed.
#[derive(Debug, Clone, Copy, PartialEq, Eq)]
pub struct DoorStatus {
    pub id: u8,
    pub state: bool,
}

impl DoorStatus {
    pub open spec fn closed(self) -> bool {
        self.state
    }

    /// Whether this reading shows the door closed.
    pub fn is_closed(&self) -> (closed: bool)
        ensures
            closed == self.closed(),
    {
        self.state
    }
}

/// Why a poll gave no reading.
#[derive(Debug, Clone, Copy, PartialEq, Eq)]
pub enum SampleError {
    /// The request did not get through.
    Transport,
    /// The sensor answered with a status that is no success.
    Status { code: u16 },
    /// The answer's payload is no reading.
    Payload,
}

/// Whether an HTTP status is a success: one of 200 to 299.
pub open spec fn is_success(code: u16) -> bool {
    200 <= code < 300
}

/// Decides from the status of the sensor's answer whether its payload is to
/// be read: only a success carries a reading.
pub fn check_status(code: u16) -> (checked: Result<(), SampleError>)
    ensures
        is_success(code) ==> checked == Ok::<(), SampleError>(()),
        !is_success(code) ==> checked == Err::<(), SampleError>(SampleError::Status { code }),
{
    if 200 <= code && code < 300 {
        Ok(())
    } else {
        Err(SampleError::Status { code })
    }
}

impl SampleError {
    /// The words that report this failure.
    pub open spec fn text(self) -> Seq<char> {
        match self {
            SampleError::Transport => "request failed"@,
            SampleError::Status { code } => "HTTP error: "@ + decimal_text(code as nat),
            SampleError::Payload => "malformed payload"@,
        }
    }

    /// Renders the words that report this failure.
    pub fn message(&self) -> (message: String)
        ensures
            message@ == self.text(),
    {
        match self {
            SampleError::Transport => String::from_str("request failed"),
            SampleError::Status { code } => {
                let text = String::from_str("HTTP error: ");
                let code: u64 = *code as u64;
                text.concat(decimal_string(code).as_str())
            },
            SampleError::Payload => String::from_str("malformed payload"),
        }
    }
}

} // verus!
