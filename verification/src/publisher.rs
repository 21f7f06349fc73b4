//! Publishers: the sending side of a binding.

use vstd::prelude::*;
use tokio::sync::mpsc::{Receiver, Sender};
use crate::channel::{max_capacity, offer, open_queue, Attempt};
use crate::error::{BindError, SendError};
use crate::request::{Request, Response};
use crate::stream::{stream_of, MessageStream};

verus! {

/// What became of a message that was published.
#[derive(Debug, PartialEq, Eq)]
pub enum Delivery<M> {
    /// It is on the queue.
    Queued,
    /// The queue is full. The message comes back: the caller waits and publishes it again.
    Full(M),
}

/// A call that was started: what became of its request, and where its response will be.
#[verifier::reject_recursive_types(Rsp)]
pub struct Call<Message, Rsp> {
    /// What became of the request. Where the queue was full, the request comes back as the
    /// message that it was made into, to be published again with `publish_event`.
    pub delivery: Delivery<Message>,
    /// The reading side of the request's response.
    pub response: Response<Rsp>,
}

/// What a publisher is at one moment.
pub struct PublisherState<Message> {
    /// Its name.
    pub name: Seq<char>,
    /// The subscriber that holds its stream, once it is bound.
    pub bound_to: Option<Seq<char>>,
    /// The messages that it has put on its queue so far, oldest first.
    pub published: Seq<Message>,
    /// Whether it takes messages.
    pub can_publish: bool,
    /// Whether it takes messages once a subscriber has bound to it.
    pub can_publish_once_bound: bool,
    /// Whether it can be asked for its stream.
    pub can_bind: bool,
}

/// What one call of `publish_event` with `message` does to a publisher: the messages that it
/// has published grow by `message` exactly where the message went onto the queue, a message
/// that did not comes back as it was, and nothing else changes.
pub open spec fn publishes<Message>(
    before: PublisherState<Message>,
    message: Message,
    outcome: Result<Delivery<Message>, SendError>,
    after: PublisherState<Message>,
) -> bool {
    &&& after.name == before.name
    &&& after.bound_to == before.bound_to
    &&& after.can_publish
    &&& after.can_publish_once_bound == before.can_publish_once_bound
    &&& after.can_bind == before.can_bind
    &&& after.published == match outcome {
        Ok(Delivery::Queued) => before.published.push(message),
        Ok(Delivery::Full(_)) => before.published,
        Err(_) => before.published,
    }
    &&& outcome matches Ok(Delivery::Full(returned)) ==> returned == message
}

/// What one call of `get_message_stream` for `subscriber` does to a publisher: it succeeds
/// exactly where the publisher is not bound, then binds it to `subscriber`, and else leaves
/// the binding as it is. A publisher that waited for a subscriber takes messages from then on.
pub open spec fn binds<Message>(
    before: PublisherState<Message>,
    subscriber: Seq<char>,
    succeeded: bool,
    after: PublisherState<Message>,
) -> bool {
    &&& after.name == before.name
    &&& after.published == before.published
    &&& after.can_publish_once_bound == before.can_publish_once_bound
    &&& succeeded <==> before.bound_to is None
    &&& after.bound_to == if succeeded {
        Some(subscriber)
    } else {
        before.bound_to
    }
    &&& after.can_publish == if succeeded {
        before.can_publish_once_bound
    } else {
        before.can_publish
    }
}

/// What became of the request of a call.
pub open spec fn delivery_in<Message, Rsp>(call: Result<Call<Message, Rsp>, SendError>) -> Result<
    Delivery<Message>,
    SendError,
> {
    match call {
        Ok(started) => Ok(started.delivery),
        Err(error) => Err(error),
    }
}

/// A publisher that is bound stays bound to the same subscriber: whoever asks it for its
/// stream fails, and the binding is as it was.
pub proof fn a_bound_publisher_stays_bound<Message>(
    bound: PublisherState<Message>,
    subscriber: Seq<char>,
    succeeded: bool,
    after: PublisherState<Message>,
)
    requires
        bound.bound_to is Some,
        binds(bound, subscriber, succeeded, after),
    ensures
        !succeeded,
        after.bound_to == bound.bound_to,
{
}

/// A publisher is bound once: after a binding has succeeded, the next one fails, and the
/// publisher stays bound to the subscriber of the first.
pub proof fn later_bindings_fail<Message>(
    unbound: PublisherState<Message>,
    first: Seq<char>,
    bound: PublisherState<Message>,
    second: Seq<char>,
    succeeded: bool,
    after: PublisherState<Message>,
)
    requires
        binds(unbound, first, true, bound),
        binds(bound, second, succeeded, after),
    ensures
        !succeeded,
        after.bound_to == Some(first),
{
}

/// Publishing does not touch the binding: a publisher that is bound when a message is
/// published is bound to the same subscriber afterwards, whatever became of the message.
pub proof fn publishing_keeps_the_binding<Message>(
    before: PublisherState<Message>,
    message: Message,
    outcome: Result<Delivery<Message>, SendError>,
    after: PublisherState<Message>,
)
    requires
        publishes(before, message, outcome, after),
    ensures
        after.bound_to == before.bound_to,
        after.name == before.name,
{
}

/// Of the entries of `run`, each with the outcome of publishing a message, those whose
/// message went onto the queue, in the order of the run.
pub open spec fn queued<T, Message>(
    run: Seq<(T, Result<Delivery<Message>, SendError>)>,
) -> Seq<T>
    decreases run.len(),
{
    if run.len() == 0 {
        Seq::empty()
    } else {
        let earlier = queued(run.drop_last());
        match run.last().1 {
            Ok(Delivery::Queued) => earlier.push(run.last().0),
            Ok(Delivery::Full(_)) => earlier,
            Err(_) => earlier,
        }
    }
}

/// Whether `states` are what a publisher is before, between and after the calls of
/// `publish_event` that `run` lists with their outcomes.
pub open spec fn is_publish_run<Message>(
    states: Seq<PublisherState<Message>>,
    run: Seq<(Message, Result<Delivery<Message>, SendError>)>,
) -> bool {
    &&& states.len() == run.len() + 1
    &&& forall|i: int|
        0 <= i < run.len() ==> publishes(states[i], (#[trigger] run[i]).0, run[i].1, states[i + 1])
}

/// Over any run of calls, what a publisher has published grows by exactly the messages that
/// went onto the queue, each once and in the order of the calls; a message that came back or
/// failed leaves no trace. The name and the binding stay.
pub proof fn published_grows_by_what_was_queued<Message>(
    states: Seq<PublisherState<Message>>,
    run: Seq<(Message, Result<Delivery<Message>, SendError>)>,
)
    requires
        is_publish_run(states, run),
    ensures
        states.last().published == states[0].published + queued(run),
        states.last().name == states[0].name,
        states.last().bound_to == states[0].bound_to,
    decreases run.len(),
{
    if run.len() == 0 {
        assert(states[0].published + queued(run) =~= states[0].published);
    } else {
        let earlier = run.drop_last();
        let before = states.drop_last();
        assert forall|i: int| 0 <= i < earlier.len() implies publishes(
            before[i],
            (#[trigger] earlier[i]).0,
            earlier[i].1,
            before[i + 1],
        ) by {
            assert(publishes(states[i], run[i].0, run[i].1, states[i + 1]));
        }
        published_grows_by_what_was_queued(before, earlier);
        let last = run.len() - 1;
        assert(publishes(states[last], run[last].0, run[last].1, states[last + 1]));
        assert(before.last() == states[last]);
        assert(states.last().published =~= states[0].published + queued(run));
    }
}

/// A named producer of messages of one type, whose stream goes to at most one subscriber.
pub trait Publisher<Message>: Sized {
    /// What the publisher is at this moment.
    spec fn state(&self) -> PublisherState<Message>;

    fn get_name(&self) -> (name: &'static str)
        ensures
            name@ == self.state().name,
    ;

    /// Puts `message` on the queue, unless the queue is full or its receiving side is gone.
    /// Never waits.
    fn publish_event(&mut self, message: Message) -> (outcome: Result<Delivery<Message>, SendError>)
        requires
            old(self).state().can_publish,
        ensures
            publishes(old(self).state(), message, outcome, final(self).state()),
    ;

    /// Starts a call: makes a fresh request for `request`, turns it into a message and
    /// publishes that. The response is looked for on `response` of the result. Fails where
    /// the request cannot be published.
    fn publish_request<Req, Rsp>(&mut self, request: Req) -> (call: Result<
        Call<Message, Rsp>,
        SendError,
    >) where Message: From<Request<Req, Rsp>>
        requires
            old(self).state().can_publish,
        ensures
            exists|envelope: Request<Req, Rsp>, message: Message|
                envelope.content == request && call_ensures(Message::from, (envelope,), message)
                    && publishes(
                    old(self).state(),
                    message,
                    delivery_in(call),
                    final(self).state(),
                ),
    {
        let (envelope, response) = Request::<Req, Rsp>::new(request);
        let message = Message::from(envelope);
        match self.publish_event(message) {
            Ok(delivery) => Ok(Call { delivery, response }),
            Err(error) => Err(error),
        }
    }

    /// Hands out the publisher's stream to the subscriber `subscriber_name`, once. Fails on
    /// every later call, and then leaves the first binding as it is.
    fn get_message_stream(&mut self, subscriber_name: &'static str) -> (bound: Result<
        MessageStream<Message>,
        BindError,
    >)
        requires
            old(self).state().can_bind,
        ensures
            binds(old(self).state(), subscriber_name@, bound is Ok, final(self).state()),
    ;
}

/// A way to make, of a publisher, another publisher that does what the first does and
/// something more beside it.
pub trait PublisherLayer<InnerPublisherType: Publisher<Message>, Message> {
    type PublisherType: Publisher<Message>;

    /// The publisher around `publisher`. It has the name, the binding and the messages of
    /// the publisher inside.
    fn layer(&self, publisher: InnerPublisherType) -> (layered: Self::PublisherType)
        ensures
            layered.state().name == publisher.state().name,
            layered.state().bound_to == publisher.state().bound_to,
            layered.state().published == publisher.state().published,
            layered.state().can_bind == publisher.state().can_bind,
            layered.state().can_publish_once_bound == publisher.state().can_publish_once_bound,
    ;
}

/// What a publisher returns for each outcome of offering a message to its queue.
pub open spec fn delivery_of<M>(attempt: Attempt<M>) -> Result<Delivery<M>, SendError> {
    match attempt {
        Attempt::Sent => Ok(Delivery::Queued),
        Attempt::Full(message) => Ok(Delivery::Full(message)),
        Attempt::Closed(_) => Err(SendError),
    }
}

/// What a publisher returns for each outcome of offering a message to its queue: a full queue
/// is no failure, a queue without a receiving side is.
pub fn delivery<M>(attempt: Attempt<M>) -> (outcome: Result<Delivery<M>, SendError>)
    ensures
        outcome == delivery_of(attempt),
{
    match attempt {
        Attempt::Sent => Ok(Delivery::Queued),
        Attempt::Full(message) => Ok(Delivery::Full(message)),
        Attempt::Closed(_) => Err(SendError),
    }
}

/// Where the receiving side of a publisher's queue is.
#[verifier::reject_recursive_types(M)]
enum Binding<M> {
    /// Still with the publisher.
    Unbound(Receiver<M>),
    /// Handed out, to the subscriber of this name.
    Bound(&'static str),
}

/// A publisher with a bounded queue of its own.
#[verifier::reject_recursive_types(M)]
pub struct SimplePublisher<M> {
    name: &'static str,
    sender: Sender<M>,
    binding: Binding<M>,
    published: Ghost<Seq<M>>,
}

/// Another name of [`SimplePublisher`].
pub type PublisherImpl<M> = SimplePublisher<M>;

impl<M: Send + 'static> SimplePublisher<M> {
    /// The publisher's name.
    pub closed spec fn name(&self) -> Seq<char> {
        self.name@
    }

    /// The subscriber that holds the stream, once it is bound.
    pub closed spec fn bound_to(&self) -> Option<Seq<char>> {
        match self.binding {
            Binding::Unbound(_) => None,
            Binding::Bound(subscriber) => Some(subscriber@),
        }
    }

    /// The messages that the publisher has put on its queue so far, oldest first.
    pub closed spec fn published(&self) -> Seq<M> {
        self.published@
    }

    /// A publisher named `name` whose queue holds up to `buffer_size` messages. It is not
    /// bound and has published nothing.
    pub fn new(name: &'static str, buffer_size: usize) -> (publisher: Self)
        requires
            1 <= buffer_size <= max_capacity(),
        ensures
            publisher.name() == name@,
            publisher.bound_to() is None,
            publisher.published() == Seq::<M>::empty(),
    {
        let (sender, receiver) = open_queue(buffer_size);
        SimplePublisher {
            name,
            sender,
            binding: Binding::Unbound(receiver),
            published: Ghost(Seq::empty()),
        }
    }

    /// As [`SimplePublisher::new`], for any `buffer_size`: `None` where a queue cannot have
    /// that capacity.
    pub fn with_capacity(name: &'static str, buffer_size: usize) -> (publisher: Option<Self>)
        ensures
            publisher is Some <==> 1 <= buffer_size <= max_capacity(),
            publisher matches Some(made) ==> made.name() == name@ && made.bound_to() is None
                && made.published() == Seq::<M>::empty(),
    {
        if 1 <= buffer_size && buffer_size <= usize::MAX / 8 {
            Some(Self::new(name, buffer_size))
        } else {
            None
        }
    }

    /// Puts `message` on the queue, unless the queue is full or its receiving side is gone.
    /// Never waits.
    pub fn publish(&mut self, message: M) -> (outcome: Result<Delivery<M>, SendError>)
        ensures
            publishes(old(self).state(), message, outcome, final(self).state()),
    {
        let outcome = delivery(offer(&self.sender, message));
        if let Ok(Delivery::Queued) = &outcome {
            self.published = Ghost(self.published@.push(message));
        }
        outcome
    }

    /// Hands out the stream to the subscriber `subscriber_name`, once. A later call fails,
    /// names the subscriber that holds the stream, and changes nothing.
    pub fn get_message_stream(&mut self, subscriber_name: &'static str) -> (bound: Result<
        MessageStream<M>,
        BindError,
    >)
        ensures
            binds(old(self).state(), subscriber_name@, bound is Ok, final(self).state()),
            bound matches Err(error) ==> (error matches BindError::AlreadyBound {
                publisher,
                subscriber,
            } && publisher@ == old(self).name() && Some(subscriber@) == old(self).bound_to()),
    {
        let mut binding = Binding::Bound(subscriber_name);
        core::mem::swap(&mut self.binding, &mut binding);
        match binding {
            Binding::Unbound(receiver) => Ok(stream_of(receiver)),
            Binding::Bound(subscriber) => {
                self.binding = Binding::Bound(subscriber);
                Err(BindError::AlreadyBound { publisher: self.name, subscriber })
            },
        }
    }

    pub fn get_name(&self) -> (name: &'static str)
        ensures
            name@ == self.name(),
    {
        self.name
    }
}

impl<M: Send + 'static> Publisher<M> for SimplePublisher<M> {
    /// A publisher with a queue of its own takes messages and requests for its stream in
    /// every state.
    open spec fn state(&self) -> PublisherState<M> {
        PublisherState {
            name: self.name(),
            bound_to: self.bound_to(),
            published: self.published(),
            can_publish: true,
            can_publish_once_bound: true,
            can_bind: true,
        }
    }

    fn get_name(&self) -> (name: &'static str) {
        self.name
    }

    fn publish_event(&mut self, message: M) -> (outcome: Result<Delivery<M>, SendError>) {
        self.publish(message)
    }

    fn get_message_stream(&mut self, subscriber_name: &'static str) -> (bound: Result<
        MessageStream<M>,
        BindError,
    >) {
        SimplePublisher::get_message_stream(self, subscriber_name)
    }
}

} // verus!
