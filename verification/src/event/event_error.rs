//! Errors of the event layer.
use vstd::prelude::*;
use vstd::string::*;

use crate::text::u32_to_decimal;
use crate::validation::decimal;

verus! {

/// Errors of the event layer. Where the causes are errors of other
/// libraries, they are carried as their messages.
#[derive(Debug, Clone, PartialEq, Eq)]
pub enum EventError {
    /// An event reached a handler that does not run it.
    WrongExecutionMode,
    SerializationError(String),
    QueueError { source: String },
    ExecutionError { event_type: String, source: String },
    HandlerNotFound { event_type: String },
    Timeout { event_type: String },
    RetryLimitExceeded { event_type: String, attempts: u32 },
    InfrastructureError(String),
}

impl EventError {
    /// The message of the error.
    pub open spec fn text(&self) -> Seq<char> {
        match self {
            EventError::WrongExecutionMode => "Wrong execution mode for event"@,
            EventError::SerializationError(m) => "Event serialization failed: "@ + m@,
            EventError::QueueError { source } => "Queue operation failed: "@ + source@,
            EventError::ExecutionError { event_type, source } => "Event execution failed: "@
                + event_type@ + ", reason: "@ + source@,
            EventError::HandlerNotFound { event_type } => "Event handler not found for type: "@
                + event_type@,
            EventError::Timeout { event_type } => "Event processing timeout: "@ + event_type@,
            EventError::RetryLimitExceeded { event_type, attempts } =>
                "Event retry limit exceeded: "@ + event_type@ + ", attempts: "@ + decimal(
                attempts as nat,
            ),
            EventError::InfrastructureError(m) => "Infrastructure error: "@ + m@,
        }
    }

    pub fn to_string(&self) -> (r: String)
        ensures
            r@ == self.text(),
    {
        match self {
            EventError::WrongExecutionMode => String::from_str("Wrong execution mode for event"),
            EventError::SerializationError(m) => {
                let mut s = String::from_str("Event serialization failed: ");
                s.append(m.as_str());
                s
            },
            EventError::QueueError { source } => {
                let mut s = String::from_str("Queue operation failed: ");
                s.append(source.as_str());
                s
            },
            EventError::ExecutionError { event_type, source } => {
                let mut s = String::from_str("Event execution failed: ");
                s.append(event_type.as_str());
                s.append(", reason: ");
                s.append(source.as_str());
                s
            },
            EventError::HandlerNotFound { event_type } => {
                let mut s = String::from_str("Event handler not found for type: ");
                s.append(event_type.as_str());
                s
            },
            EventError::Timeout { event_type } => {
                let mut s = String::from_str("Event processing timeout: ");
                s.append(event_type.as_str());
                s
            },
            EventError::RetryLimitExceeded { event_type, attempts } => {
                let mut s = String::from_str("Event retry limit exceeded: ");
                s.append(event_type.as_str());
                s.append(", attempts: ");
                let n = u32_to_decimal(*attempts);
                s.append(n.as_str());
                s
            },
            EventError::InfrastructureError(m) => {
                let mut s = String::from_str("Infrastructure error: ");
                s.append(m.as_str());
                s
            },
        }
    }

    /// A failed queue operation with its cause.
    pub fn queue(err: String) -> (r: Self)
        ensures
            r == (EventError::QueueError { source: err }),
    {
        EventError::QueueError { source: err }
    }

    /// A failed execution of an event of the given type, with its cause.
    pub fn execution(event_type: String, err: String) -> (r: Self)
        ensures
            r == (EventError::ExecutionError { event_type, source: err }),
    {
        EventError::ExecutionError { event_type, source: err }
    }
}

} // verus!
