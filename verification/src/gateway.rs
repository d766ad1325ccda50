//! The ways the Discord Gateway connection can end.
use vstd::prelude::*;

use crate::clock::{clock_error_text, ClockError};
use crate::state::{publish_error_text, PublishError};
use crate::text::{owned, push_str};

verus! {

/// Why the Gateway loop stopped.
#[derive(Clone, Copy, Debug, PartialEq, Eq, Structural)]
pub enum GatewayError {
    Clock(ClockError),
    FatallyClosed,
    Publish(PublishError),
    StreamEnded,
}

impl GatewayError {
    /// The text that reports the error; the clock and store variants carry the
    /// text of the underlying error after their own prefix.
    pub fn message(&self) -> (r: String)
        ensures
            r@ == match self {
                GatewayError::Clock(e) => "Discord Gateway clock error: "@ + clock_error_text(*e),
                GatewayError::FatallyClosed =>
                    "Discord Gateway closed fatally; verify token and privileged intents"@,
                GatewayError::Publish(e) => "failed to update presence runtime state: "@
                    + publish_error_text(*e),
                GatewayError::StreamEnded => "Discord Gateway event stream ended unexpectedly"@,
            },
    {
        match self {
            GatewayError::Clock(e) => {
                let mut r = owned("Discord Gateway clock error: ");
                push_str(&mut r, e.message());
                r
            },
            GatewayError::FatallyClosed => owned(
                "Discord Gateway closed fatally; verify token and privileged intents",
            ),
            GatewayError::Publish(e) => {
                let mut r = owned("failed to update presence runtime state: ");
                push_str(&mut r, e.message());
                r
            },
            GatewayError::StreamEnded => owned("Discord Gateway event stream ended unexpectedly"),
        }
    }
}

} // verus!
