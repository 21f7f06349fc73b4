//! A layer that keeps a line for every message that its publisher puts on the queue.

use vstd::prelude::*;
use crate::error::{BindError, SendError};
use crate::publisher::{
    binds, publishes, queued, Delivery, Publisher, PublisherLayer, PublisherState,
    SimplePublisher,
};
use crate::channel::max_capacity;
use crate::stream::MessageStream;
use crate::text::{joined, Describe};

verus! {

/// The line for a message with the textual form `message` that went from `producer` to
/// `consumer`.
pub open spec fn log_line_text(producer: Seq<char>, consumer: Seq<char>, message: Seq<char>) -> Seq<
    char,
> {
    "["@ + producer + "] -> ["@ + consumer + "]: "@ + message
}

/// The line for a message with the textual form `message` that went from `producer` to
/// `consumer`.
pub fn log_line(producer: &str, consumer: &str, message: &str) -> (line: String)
    ensures
        line@ == log_line_text(producer@, consumer@, message@),
{
    let mut line = joined("[", producer);
    line.append("] -> [");
    line.append(consumer);
    line.append("]: ");
    line.append(message);
    line
}

/// A publisher that does what `publisher` does, and keeps a line for every message that went
/// onto the queue.
pub struct LoggingPublisher<P> {
    subscriber_name: Option<&'static str>,
    publisher: P,
    lines: Vec<String>,
}

impl<P> LoggingPublisher<P> {
    /// The subscriber that the lines name, once one has bound through this layer.
    pub closed spec fn recorded_subscriber(&self) -> Option<Seq<char>> {
        match self.subscriber_name {
            Some(subscriber) => Some(subscriber@),
            None => None,
        }
    }

    /// The lines that were kept and not yet taken, oldest first.
    pub closed spec fn lines(&self) -> Seq<Seq<char>> {
        self.lines.deep_view()
    }

    /// The publisher inside.
    pub closed spec fn inner(&self) -> P {
        self.publisher
    }

    /// The subscriber that the lines name, once one has bound through this layer. Before
    /// that the publisher takes no message.
    pub fn subscriber_name(&self) -> (subscriber: Option<&'static str>)
        ensures
            match subscriber {
                Some(name) => self.recorded_subscriber() == Some(name@),
                None => self.recorded_subscriber() is None,
            },
    {
        self.subscriber_name
    }

    /// Hands out the lines that were kept since the last call, oldest first, and keeps none
    /// of them.
    pub fn take_lines(&mut self) -> (taken: Vec<String>)
        ensures
            taken.deep_view() == old(self).lines(),
            final(self).lines() == Seq::<Seq<char>>::empty(),
            final(self).recorded_subscriber() == old(self).recorded_subscriber(),
            final(self).inner() == old(self).inner(),
    {
        let mut taken: Vec<String> = Vec::new();
        core::mem::swap(&mut self.lines, &mut taken);
        taken
    }
}

impl<M: Send + 'static> LoggingPublisher<SimplePublisher<M>> {
    /// A logging publisher over a publisher of its own, named `name`, whose queue holds up to
    /// `buffer_size` messages.
    pub fn new(name: &'static str, buffer_size: usize) -> (publisher: Self)
        requires
            1 <= buffer_size <= max_capacity(),
        ensures
            publisher.inner().name() == name@,
            publisher.inner().bound_to() is None,
            publisher.inner().published() == Seq::<M>::empty(),
            publisher.recorded_subscriber() is None,
            publisher.lines() == Seq::<Seq<char>>::empty(),
    {
        LoggingPublisher {
            subscriber_name: None,
            publisher: SimplePublisher::new(name, buffer_size),
            lines: Vec::new(),
        }
    }

    /// As [`LoggingPublisher::new`], for any `buffer_size`: `None` where a queue cannot have
    /// that capacity.
    pub fn with_capacity(name: &'static str, buffer_size: usize) -> (publisher: Option<Self>)
        ensures
            publisher is Some <==> 1 <= buffer_size <= max_capacity(),
            publisher matches Some(made) ==> made.inner().name() == name@
                && made.inner().bound_to() is None && made.inner().published() == Seq::<
                M,
            >::empty() && made.recorded_subscriber() is None && made.lines() == Seq::<
                Seq<char>,
            >::empty(),
    {
        match SimplePublisher::with_capacity(name, buffer_size) {
            Some(publisher) => Some(
                LoggingPublisher { subscriber_name: None, publisher, lines: Vec::new() },
            ),
            None => None,
        }
    }
}

/// What a logging publisher keeps when a message with the textual form `message` has gone
/// through it with `outcome`: one line more where the message went onto the queue, and what
/// it had where it did not.
pub open spec fn lines_after<M>(
    lines: Seq<Seq<char>>,
    producer: Seq<char>,
    consumer: Seq<char>,
    message: Seq<char>,
    outcome: Result<Delivery<M>, SendError>,
) -> Seq<Seq<char>> {
    match outcome {
        Ok(Delivery::Queued) => lines.push(log_line_text(producer, consumer, message)),
        Ok(Delivery::Full(_)) => lines,
        Err(_) => lines,
    }
}

/// What a logging publisher does once the publisher inside has dealt with a message that has
/// the textual form `message`: where the message went onto the queue it keeps the line for it
/// at the end of `lines`, and where it did not it keeps what it had.
pub fn keep_line<M>(
    lines: &mut Vec<String>,
    producer: &str,
    consumer: &str,
    message: &str,
    outcome: &Result<Delivery<M>, SendError>,
)
    ensures
        final(lines).deep_view() == lines_after(
            old(lines).deep_view(),
            producer@,
            consumer@,
            message@,
            *outcome,
        ),
{
    if let Ok(Delivery::Queued) = outcome {
        let ghost before = lines.deep_view();
        let line = log_line(producer, consumer, message);
        lines.push(line);
        assert(lines.deep_view() =~= before.push(line@));
    }
}

/// Whether `lines` are what a logging publisher keeps before, between and after the calls of
/// `publish_event` that `run` lists, each with the textual form of its message and its
/// outcome, while nobody takes a line.
pub open spec fn is_logged_run<M>(
    lines: Seq<Seq<Seq<char>>>,
    producer: Seq<char>,
    consumer: Seq<char>,
    run: Seq<(Seq<char>, Result<Delivery<M>, SendError>)>,
) -> bool {
    &&& lines.len() == run.len() + 1
    &&& forall|i: int|
        0 <= i < run.len() ==> lines[i + 1] == lines_after(
            lines[i],
            producer,
            consumer,
            (#[trigger] run[i]).0,
            run[i].1,
        )
}

/// Over any run of calls, a logging publisher keeps one line for each message that went onto
/// the queue, in the order of the calls, and none for any other.
pub proof fn one_line_for_each_queued_message<M>(
    lines: Seq<Seq<Seq<char>>>,
    producer: Seq<char>,
    consumer: Seq<char>,
    run: Seq<(Seq<char>, Result<Delivery<M>, SendError>)>,
)
    requires
        is_logged_run(lines, producer, consumer, run),
    ensures
        lines.last() == lines[0] + queued(run).map_values(
            |message: Seq<char>| log_line_text(producer, consumer, message),
        ),
        lines.last().len() == lines[0].len() + queued(run).len(),
    decreases run.len(),
{
    let line = |message: Seq<char>| log_line_text(producer, consumer, message);
    if run.len() == 0 {
        assert(lines[0] + queued(run).map_values(line) =~= lines[0]);
    } else {
        let earlier = run.drop_last();
        let before = lines.drop_last();
        assert forall|i: int| 0 <= i < earlier.len() implies before[i + 1] == lines_after(
            before[i],
            producer,
            consumer,
            (#[trigger] earlier[i]).0,
            earlier[i].1,
        ) by {
            assert(lines[i + 1] == lines_after(lines[i], producer, consumer, run[i].0, run[i].1));
        }
        one_line_for_each_queued_message(before, producer, consumer, earlier);
        let last = run.len() - 1;
        assert(lines[last + 1] == lines_after(
            lines[last],
            producer,
            consumer,
            run[last].0,
            run[last].1,
        ));
        assert(before.last() == lines[last]);
        assert(lines.last() =~= lines[0] + queued(run).map_values(line));
    }
}

impl<M: Describe, P: Publisher<M>> Publisher<M> for LoggingPublisher<P> {
    /// A logging publisher is what the publisher inside is, but that it takes messages only
    /// once a subscriber has bound through it: before that it has no name for its lines.
    open spec fn state(&self) -> PublisherState<M> {
        PublisherState {
            name: self.inner().state().name,
            bound_to: self.inner().state().bound_to,
            published: self.inner().state().published,
            can_publish: self.recorded_subscriber() is Some && self.inner().state().can_publish,
            can_publish_once_bound: self.inner().state().can_publish_once_bound,
            can_bind: self.inner().state().can_bind,
        }
    }

    fn get_name(&self) -> (name: &'static str) {
        self.publisher.get_name()
    }

    /// Hands `message` to the publisher inside, as it is. Where the message went onto the
    /// queue, and only then, keeps one line for it.
    fn publish_event(&mut self, message: M) -> (outcome: Result<Delivery<M>, SendError>)
        ensures
            publishes(old(self).inner().state(), message, outcome, final(self).inner().state()),
            final(self).recorded_subscriber() == old(self).recorded_subscriber(),
            final(self).lines() == lines_after(
                old(self).lines(),
                old(self).state().name,
                old(self).recorded_subscriber().unwrap(),
                message.text(),
                outcome,
            ),
    {
        let text = message.describe();
        let outcome = self.publisher.publish_event(message);
        keep_line(
            &mut self.lines,
            self.publisher.get_name(),
            self.subscriber_name.unwrap(),
            text.as_str(),
            &outcome,
        );
        outcome
    }

    /// Asks the publisher inside for its stream. Where that succeeds, the lines name
    /// `subscriber_name` from now on.
    fn get_message_stream(&mut self, subscriber_name: &'static str) -> (bound: Result<
        MessageStream<M>,
        BindError,
    >)
        ensures
            binds(
                old(self).inner().state(),
                subscriber_name@,
                bound is Ok,
                final(self).inner().state(),
            ),
            final(self).lines() == old(self).lines(),
            final(self).recorded_subscriber() == if bound is Ok {
                Some(subscriber_name@)
            } else {
                old(self).recorded_subscriber()
            },
    {
        let bound = self.publisher.get_message_stream(subscriber_name);
        if bound.is_ok() {
            self.subscriber_name = Some(subscriber_name);
        }
        bound
    }
}

/// The layer that makes a [`LoggingPublisher`] of a publisher.
pub struct LoggingPublisherLayer;

impl<M: Describe, P: Publisher<M>> PublisherLayer<P, M> for LoggingPublisherLayer {
    type PublisherType = LoggingPublisher<P>;

    fn layer(&self, publisher: P) -> (layered: LoggingPublisher<P>)
        ensures
            layered.inner() == publisher,
            layered.recorded_subscriber() is None,
            layered.lines() == Seq::<Seq<char>>::empty(),
    {
        LoggingPublisher { subscriber_name: None, publisher, lines: Vec::new() }
    }
}

} // verus!
