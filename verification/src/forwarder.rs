//! A forwarder: a subscriber to any number of publishers that is itself the publisher of what
//! they publish, and keeps a line for every message that it relays.

use vstd::prelude::*;
use std::sync::mpsc::{Receiver, Sender};
use crate::error::{BindError, SendError};
use crate::logging::{log_line, log_line_text};
use crate::publisher::{Delivery, Publisher, PublisherState};
use crate::stream::{add_stream, empty_set, relayed, MessageStream, StreamSet};
use crate::subscriber::{Subscriber, SubscriberState};
use crate::text::Describe;

verus! {

/// `std::sync::mpsc::Sender`, the writing side of a queue without bound. Verus sees nothing
/// inside.
#[verifier::external_type_specification]
#[verifier::external_body]
#[verifier::reject_recursive_types(T)]
pub struct ExLineSender<T>(Sender<T>);

/// `std::sync::mpsc::Receiver`, the reading side of a queue without bound. Verus sees nothing
/// inside.
#[verifier::external_type_specification]
#[verifier::external_body]
#[verifier::reject_recursive_types(T)]
pub struct ExLineReceiver<T>(Receiver<T>);

/// Calls `std::sync::mpsc::channel`, which makes a queue without bound and hands out its two
/// sides: the forwarder's journal.
///
/// Trusted: nothing is claimed of the result.
#[verifier::external_body]
fn open_journal() -> (sides: (Sender<String>, Receiver<String>)) {
    std::sync::mpsc::channel()
}

/// Calls `std::sync::mpsc::Sender::send`, which puts `line` into the journal; where nobody
/// can read the journal any more, the line is dropped.
///
/// Trusted: nothing is claimed.
#[verifier::external_body]
fn record(journal: &Sender<String>, line: String) {
    let _ = journal.send(line);
}

/// Calls `std::sync::mpsc::Receiver::try_recv`, which takes the oldest line out of the
/// journal, if there is one.
///
/// Trusted: nothing is claimed of the result, which depends on how many messages have gone
/// through the forwarder's stream.
#[verifier::external_body]
fn next_line(journal: &Receiver<String>) -> (line: Option<String>) {
    journal.try_recv().ok()
}

/// The writing side of a forwarder's journal, and beside it the record of what was written.
pub struct JournalWriter {
    writer: Sender<String>,
    written: Ghost<Seq<Seq<char>>>,
}

impl JournalWriter {
    /// The lines that were put into the journal through this side, oldest first, whether or
    /// not anybody was left to read them.
    pub closed spec fn written(&self) -> Seq<Seq<char>> {
        self.written@
    }
}

/// What a forwarder does with each message on its way from `producer` to `consumer`: it puts
/// the message's line into `journal`, one line and no other, and hands the message on as it
/// is.
pub fn relay<M: Describe>(
    producer: &str,
    consumer: &str,
    journal: &mut JournalWriter,
    message: M,
) -> (relayed: M)
    ensures
        relayed == message,
        final(journal).written() == old(journal).written().push(
            log_line_text(producer@, consumer@, message.text()),
        ),
{
    let line = relay_line(producer, consumer, &message);
    journal.written = Ghost(journal.written@.push(line@));
    record(&journal.writer, line);
    message
}

/// The line that a forwarder keeps for `message` on its way from `producer` to `consumer`.
pub fn relay_line<M: Describe>(producer: &str, consumer: &str, message: &M) -> (line: String)
    ensures
        line@ == log_line_text(producer@, consumer@, message.text()),
{
    let text = message.describe();
    log_line(producer, consumer, text.as_str())
}

/// Where the merged streams of a forwarder are.
#[verifier::reject_recursive_types(M)]
enum Relay<M> {
    /// Still with the forwarder, which can take more; beside them the writing side of the
    /// journal, which goes with them.
    Collecting(StreamSet<M>, JournalWriter),
    /// Handed out as one stream, to the subscriber of this name.
    Handed(&'static str),
}

/// A forwarder of messages of one type. It subscribes to publishers upstream, and a subscriber
/// downstream binds to it as to a publisher: what comes out downstream is what the publishers
/// upstream put in, message by message.
///
/// Nothing is published into a forwarder and nothing is received from it: both operations are
/// there for the traits' sake, and neither may be called.
#[verifier::reject_recursive_types(M)]
pub struct LoggingForwarder<M> {
    name: &'static str,
    relay: Relay<M>,
    journal: Receiver<String>,
    sources: Ghost<Seq<Seq<char>>>,
}

impl<M: Describe + Send + 'static> LoggingForwarder<M> {
    /// The forwarder's name.
    pub closed spec fn name(&self) -> Seq<char> {
        self.name@
    }

    /// The names of the publishers upstream, in the order of their binding.
    pub closed spec fn sources(&self) -> Seq<Seq<char>> {
        self.sources@
    }

    /// The subscriber downstream, once it has bound.
    pub closed spec fn downstream(&self) -> Option<Seq<char>> {
        match self.relay {
            Relay::Collecting(_, _) => None,
            Relay::Handed(subscriber) => Some(subscriber@),
        }
    }

    /// A forwarder named `name`, with nothing upstream and nothing downstream.
    pub fn new(name: &'static str) -> (forwarder: Self)
        ensures
            forwarder.name() == name@,
            forwarder.downstream() is None,
            forwarder.sources() == Seq::<Seq<char>>::empty(),
    {
        let (writer, reader) = open_journal();
        let journal = JournalWriter { writer, written: Ghost(Seq::empty()) };
        LoggingForwarder {
            name,
            relay: Relay::Collecting(empty_set(), journal),
            journal: reader,
            sources: Ghost(Seq::empty()),
        }
    }

    /// Hands out the oldest line that was kept and not yet taken, if there is one.
    pub fn take_line(&self) -> (line: Option<String>) {
        next_line(&self.journal)
    }
}

impl<M: Describe + Send + 'static> Subscriber<M> for LoggingForwarder<M> {
    /// As a subscriber, a forwarder takes publishers until its own stream is handed out, and
    /// never hands out a message by `receive`.
    open spec fn state(&self) -> SubscriberState<M> {
        SubscriberState {
            name: self.name(),
            sources: self.sources(),
            received: Seq::empty(),
            can_subscribe: self.downstream() is None,
            can_receive: false,
        }
    }

    fn get_name(&self) -> (name: &'static str) {
        self.name
    }

    fn subscribe_to<P: Publisher<M>>(&mut self, publisher: &mut P) -> (bound: Result<
        (),
        BindError,
    >) {
        match publisher.get_message_stream(self.name) {
            Ok(stream) => {
                match &mut self.relay {
                    Relay::Collecting(set, _) => add_stream(set, stream),
                    Relay::Handed(_) => {},
                }
                self.sources = Ghost(self.sources@.push(publisher.state().name));
                Ok(())
            },
            Err(error) => Err(error),
        }
    }

    /// Not to be called: nothing is received from a forwarder but through its stream. No
    /// state of a forwarder admits the call, and code that makes it unchecked is stopped.
    fn receive(&mut self) -> (message: Option<M>) {
        unreached()
    }
}

impl<M: Describe + Send + 'static> Publisher<M> for LoggingForwarder<M> {
    /// As a publisher, a forwarder hands its stream out once, to ask again is an error of
    /// the caller, and it never takes a message by `publish_event`.
    open spec fn state(&self) -> PublisherState<M> {
        PublisherState {
            name: self.name(),
            bound_to: self.downstream(),
            published: Seq::empty(),
            can_publish: false,
            can_publish_once_bound: false,
            can_bind: self.downstream() is None,
        }
    }

    fn get_name(&self) -> (name: &'static str) {
        self.name
    }

    /// Not to be called: nothing is published into a forwarder but by the publishers that
    /// it subscribed to. No state of a forwarder admits the call, and code that makes it
    /// unchecked is stopped.
    fn publish_event(&mut self, _message: M) -> (outcome: Result<Delivery<M>, SendError>) {
        unreached()
    }

    /// Hands out, as one stream, the streams of all the publishers that the forwarder
    /// subscribed to. Each message of that stream goes through [`relay`], from the forwarder
    /// to `subscriber_name`.
    fn get_message_stream(&mut self, subscriber_name: &'static str) -> (bound: Result<
        MessageStream<M>,
        BindError,
    >)
        ensures
            bound is Ok,
            final(self).sources() == old(self).sources(),
    {
        let mut relay = Relay::Handed(subscriber_name);
        core::mem::swap(&mut self.relay, &mut relay);
        match relay {
            Relay::Collecting(set, journal) => Ok(
                relayed(set, self.name, subscriber_name, journal),
            ),
            Relay::Handed(subscriber) => {
                self.relay = Relay::Handed(subscriber);
                Err(BindError::AlreadyBound { publisher: self.name, subscriber })
            },
        }
    }
}

} // verus!
