//! The wording of notifications and of the status line.

use vstd::prelude::*;
use vstd::string::*;
use crate::monitor::{elapsed, elapsed_between, MonitorState, NotificationEvent};
use crate::utils::{duration_text, format_duration};

verus! {

impl NotificationEvent {
    /// The message that stands for this event.
    pub open spec fn text(self) -> Seq<char> {
        match self {
            NotificationEvent::StartupStatus { closed } => {
                "Door Monitor started. Current door state: "@ + if closed {
                    "closed"@
                } else {
                    "open"@
                }
            },
            NotificationEvent::DoorOpened => "Door has been opened"@,
            NotificationEvent::DoorClosed { total_open } => {
                "Door is now closed after being open for "@ + duration_text(total_open as nat)
            },
            NotificationEvent::OpenTooLong { time_open, backoff_index, reminder } => {
                if reminder {
                    "REMINDER: Door still open for "@ + duration_text(time_open as nat)
                } else {
                    "ALERT: Door has been open for "@ + duration_text(time_open as nat)
                }
            },
        }
    }

    /// Renders the message that is sent for this event.
    pub fn message(&self) -> (message: String)
        ensures
            message@ == self.text(),
    {
        match self {
            NotificationEvent::StartupStatus { closed } => {
                let text = String::from_str("Door Monitor started. Current door state: ");
                if *closed {
                    text.concat("closed")
                } else {
                    text.concat("open")
                }
            },
            NotificationEvent::DoorOpened => String::from_str("Door has been opened"),
            NotificationEvent::DoorClosed { total_open } => {
                let text = String::from_str("Door is now closed after being open for ");
                text.concat(format_duration(*total_open).as_str())
            },
            NotificationEvent::OpenTooLong { time_open, backoff_index: _, reminder } => {
                let text = if *reminder {
                    String::from_str("REMINDER: Door still open for ")
                } else {
                    String::from_str("ALERT: Door has been open for ")
                };
                text.concat(format_duration(*time_open).as_str())
            },
        }
    }
}

/// The line that reports a sample: the door's state and, where the time of
/// the last change is on record, for how long it has lasted.
pub open spec fn status_text(state: MonitorState, door_closed: bool, now: u64) -> Seq<char> {
    if door_closed {
        match state.door_closed_time {
            Some(since) => "The door is closed (closed for "@ + duration_text(
                elapsed_between(since, now) as nat,
            ) + ")"@,
            None => "The door is closed"@,
        }
    } else {
        match state.door_opened_time {
            Some(since) => "The door is open (open for "@ + duration_text(
                elapsed_between(since, now) as nat,
            ) + ")"@,
            None => "The door is open"@,
        }
    }
}

/// Renders the line that reports the sample `door_closed` taken at `now`,
/// from the state as it was before the sample.
pub fn status_line(state: &MonitorState, door_closed: bool, now: u64) -> (line: String)
    ensures
        line@ == status_text(*state, door_closed, now),
{
    if door_closed {
        match state.door_closed_time {
            Some(since) => {
                let line = String::from_str("The door is closed (closed for ");
                let line = line.concat(format_duration(elapsed(since, now)).as_str());
                line.concat(")")
            },
            None => String::from_str("The door is closed"),
        }
    } else {
        match state.door_opened_time {
            Some(since) => {
                let line = String::from_str("The door is open (open for ");
                let line = line.concat(format_duration(elapsed(since, now)).as_str());
                line.concat(")")
            },
            None => String::from_str("The door is open"),
        }
    }
}

} // verus!
