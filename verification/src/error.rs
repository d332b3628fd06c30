//! The error taxonomy: one kind per point of failure during provider calls,
//! each carrying a human-readable message.

use vstd::prelude::*;

verus! {

/// Describes the point of failure of an operation. Each variant carries a
/// short description of the error.
#[derive(Debug, PartialEq, Eq, Hash)]
pub enum WatchError {
    /// A failure while creating or deleting an SNS topic.
    SNSTopic(String),
    /// A failure while subscribing to or unsubscribing from a topic.
    SNSSubscription(String),
    /// A failure while creating or deleting an event rule.
    EventRule(String),
    /// A failure while creating or deleting an event target.
    EventTarget(String),
}

impl WatchError {
    /// The message carried by the error, whatever its kind.
    pub fn message(&self) -> (r: &String)
        ensures
            r@ == self.message_view(),
    {
        match self {
            WatchError::SNSTopic(m) => m,
            WatchError::SNSSubscription(m) => m,
            WatchError::EventRule(m) => m,
            WatchError::EventTarget(m) => m,
        }
    }

    /// The message carried by the error, as a sequence of characters.
    pub open spec fn message_view(&self) -> Seq<char> {
        match self {
            WatchError::SNSTopic(m) => m@,
            WatchError::SNSSubscription(m) => m@,
            WatchError::EventRule(m) => m@,
            WatchError::EventTarget(m) => m@,
        }
    }
}

} // verus!
