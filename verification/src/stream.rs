//! Streams of messages, and sets of streams merged into one.

use vstd::prelude::*;
use tokio::sync::mpsc::Receiver;
use crate::forwarder::{relay, JournalWriter};
use crate::text::Describe;

verus! {

/// The pulling side of a binding: it yields the messages of one publisher, oldest first.
///
/// It holds a `futures::stream::BoxStream`, a boxed trait object that cannot be declared to
/// Verus as it is. Verus sees nothing inside.
#[verifier::external_body]
#[verifier::reject_recursive_types(M)]
pub struct MessageStream<M> {
    inner: futures::stream::BoxStream<'static, M>,
}

/// Streams of one message type, merged: a `futures::stream::SelectAll` of boxed streams, which
/// cannot be declared to Verus for the boxes in it. Verus sees nothing inside.
#[verifier::external_body]
#[verifier::reject_recursive_types(M)]
pub struct StreamSet<M> {
    inner: futures::stream::SelectAll<futures::stream::BoxStream<'static, M>>,
}

/// What a set of streams has to give at this moment.
#[derive(Debug, PartialEq, Eq)]
pub enum Polled<M> {
    /// A message of one of the streams.
    Ready(M),
    /// No stream has a message now.
    Pending,
    /// The set holds no stream that can still yield.
    Exhausted,
}

/// Turns the receiving side of a queue into a stream with `futures::stream::poll_fn` and
/// `futures::StreamExt::boxed`: each poll of the stream is one
/// `tokio::sync::mpsc::Receiver::poll_recv`, and nothing else.
///
/// Trusted: nothing is claimed of the result.
#[verifier::external_body]
pub(crate) fn stream_of<M: Send + 'static>(receiver: Receiver<M>) -> (stream: MessageStream<M>) {
    let mut receiver = receiver;
    let pulls = futures::stream::poll_fn(move |context| receiver.poll_recv(context));
    MessageStream { inner: futures::StreamExt::boxed(pulls) }
}

/// Calls `futures::stream::SelectAll::new`, which makes a set without streams.
///
/// Trusted: nothing is claimed of the result.
#[verifier::external_body]
pub(crate) fn empty_set<M>() -> (set: StreamSet<M>) {
    StreamSet { inner: futures::stream::SelectAll::new() }
}

/// Calls `futures::stream::SelectAll::push`, which adds `stream` to the set.
///
/// Trusted: nothing is claimed of the set after the call.
#[verifier::external_body]
pub(crate) fn add_stream<M>(set: &mut StreamSet<M>, stream: MessageStream<M>) {
    set.inner.push(stream.inner)
}

/// Polls the set once, without waiting: `futures::StreamExt::next` under
/// `futures::FutureExt::now_or_never`.
///
/// Trusted: nothing is claimed of the result, which depends on what the publishers have sent.
#[verifier::external_body]
pub(crate) fn poll_set<M>(set: &mut StreamSet<M>) -> (polled: Polled<M>) {
    match futures::FutureExt::now_or_never(futures::StreamExt::next(&mut set.inner)) {
        Some(Some(message)) => Polled::Ready(message),
        Some(None) => Polled::Exhausted,
        None => Polled::Pending,
    }
}

/// Hands the set out as one stream, with `futures::StreamExt::map` and
/// `futures::StreamExt::boxed`: `SelectAll` is itself a stream, of what its streams yield, and
/// each message that it yields goes through [`relay`] on its way out.
///
/// Trusted: nothing is claimed of the result.
#[verifier::external_body]
pub(crate) fn relayed<M: Describe + Send + 'static>(
    set: StreamSet<M>,
    producer: &'static str,
    consumer: &'static str,
    journal: JournalWriter,
) -> (stream: MessageStream<M>) {
    let mut journal = journal;
    let relaying = move |message: M| relay(producer, consumer, &mut journal, message);
    MessageStream { inner: futures::StreamExt::boxed(futures::StreamExt::map(set.inner, relaying)) }
}

} // verus!
