//! An in-process publish/subscribe layer with request/response calls on top of it.
//!
//! A [`Publisher`] puts messages of one type on a bounded queue; a [`Subscriber`] binds to any
//! number of publishers and pulls their messages from one merged stream. A publisher can be
//! wrapped in layers ([`LoggingPublisher`]), bridged ([`LoggingForwarder`]), and used to carry
//! [`Request`]s, each with the slot for its own response. The [`rpc`] module derives, from the
//! description of an interface, the message type and what its clients and servers do; the
//! [`router`] module says how a struct with several publishers finds the one for a message
//! type.
//!
//! Every operation here returns at once. Where a task would suspend (a full queue, no message
//! ready, a response not yet given), the operation says so in its result and leaves the
//! waiting to the caller.
//!
//! The queues are those of `tokio`, the merged streams and the response slots those of
//! `futures`. What happens inside them is not proved here. The contracts speak of what each
//! endpoint keeps on its own record: the publisher of the messages that its queue took, the
//! subscriber of the messages that it handed out and of the publishers that it bound. That a
//! message on the one record turns up on the other, once and in order, is the queue's doing.

pub mod channel;
pub mod error;
pub mod forwarder;
pub mod logging;
pub mod publisher;
pub mod request;
pub mod router;
pub mod rpc;
pub mod server;
pub mod stream;
pub mod subscriber;
pub mod text;

pub use error::{BindError, ResponseLost, SendError};
pub use forwarder::LoggingForwarder;
pub use logging::{LoggingPublisher, LoggingPublisherLayer};
pub use publisher::{
    Call, Delivery, Publisher, PublisherImpl, PublisherLayer, PublisherState, SimplePublisher,
};
pub use request::{Awaited, Request, Response};
pub use server::Server;
pub use stream::MessageStream;
pub use subscriber::{SimpleSubscriber, Subscriber, SubscriberImpl, SubscriberState};
pub use text::Describe;
