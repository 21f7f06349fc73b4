//! What the endpoints fail with.

use vstd::prelude::*;
use crate::text::joined;

verus! {

/// A binding that cannot be made.
#[derive(Clone, Copy, Debug, PartialEq, Eq)]
pub enum BindError {
    /// The publisher's one stream was handed out before.
    AlreadyBound {
        /// The publisher.
        publisher: &'static str,
        /// The subscriber that holds the publisher's stream.
        subscriber: &'static str,
    },
    /// Two publishers of one owner have the same message type.
    AmbiguousMessageType,
    /// The owner has no publisher.
    NoPublisherField,
}

/// The text of the failure of a second binding of `publisher`, whose stream `subscriber` holds.
pub open spec fn already_bound_text(publisher: Seq<char>, subscriber: Seq<char>) -> Seq<char> {
    publisher + " publisher can only be bound to one subscriber (already bound to "@ + subscriber
        + ")"@
}

/// The text of `error`.
pub open spec fn bind_error_text(error: BindError) -> Seq<char> {
    match error {
        BindError::AlreadyBound { publisher, subscriber } => already_bound_text(
            publisher@,
            subscriber@,
        ),
        BindError::AmbiguousMessageType => "two publishers have the same message type"@,
        BindError::NoPublisherField => "there is no publisher"@,
    }
}

impl BindError {
    /// The failure as text.
    pub fn message(&self) -> (text: String)
        ensures
            text@ == bind_error_text(*self),
    {
        match self {
            BindError::AlreadyBound { publisher, subscriber } => {
                let mut text = joined(
                    publisher,
                    " publisher can only be bound to one subscriber (already bound to ",
                );
                text.append(subscriber);
                text.append(")");
                text
            },
            BindError::AmbiguousMessageType => String::from_str(
                "two publishers have the same message type",
            ),
            BindError::NoPublisherField => String::from_str("there is no publisher"),
        }
    }
}

/// A message that cannot be sent: the receiving side of the queue is gone.
#[derive(Clone, Copy, Debug, PartialEq, Eq, Structural)]
pub struct SendError;

/// A response that will never come: the request was dropped before anyone responded.
#[derive(Clone, Copy, Debug, PartialEq, Eq, Structural)]
pub struct ResponseLost;

} // verus!
