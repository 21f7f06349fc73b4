//! Subscribers: the receiving side of any number of bindings.

use vstd::prelude::*;
use crate::error::BindError;
use crate::publisher::{binds, Publisher, PublisherState};
use crate::stream::{add_stream, empty_set, poll_set, Polled, StreamSet};

verus! {

/// What a subscriber is at one moment.
pub struct SubscriberState<Message> {
    /// Its name.
    pub name: Seq<char>,
    /// The names of the publishers whose streams it holds, in the order of their binding.
    pub sources: Seq<Seq<char>>,
    /// The messages that it has handed out so far, oldest first.
    pub received: Seq<Message>,
    /// Whether it can be bound to another publisher.
    pub can_subscribe: bool,
    /// Whether it hands out messages.
    pub can_receive: bool,
}

/// What one call of `subscribe_to` does to a subscriber and to the publisher: it succeeds
/// exactly where the publisher is not bound, then binds the publisher to the subscriber and
/// makes the publisher the last of the subscriber's sources, and else changes neither.
pub open spec fn subscribes<Message>(
    before: SubscriberState<Message>,
    publisher_before: PublisherState<Message>,
    succeeded: bool,
    after: SubscriberState<Message>,
    publisher_after: PublisherState<Message>,
) -> bool {
    &&& binds(publisher_before, before.name, succeeded, publisher_after)
    &&& after.name == before.name
    &&& after.received == before.received
    &&& after.can_subscribe
    &&& after.can_receive == before.can_receive
    &&& after.sources == if succeeded {
        before.sources.push(publisher_before.name)
    } else {
        before.sources
    }
}

/// What one call of `receive` does to a subscriber: the messages that it has handed out grow
/// by the one that it hands out now, if any, and nothing else changes.
pub open spec fn receives<Message>(
    before: SubscriberState<Message>,
    message: Option<Message>,
    after: SubscriberState<Message>,
) -> bool {
    &&& after.name == before.name
    &&& after.sources == before.sources
    &&& after.can_receive
    &&& after.can_subscribe == before.can_subscribe
    &&& after.received == match message {
        Some(given) => before.received.push(given),
        None => before.received,
    }
}

/// A publisher goes to one subscriber: where one subscriber has bound a publisher, another
/// that tries fails, the publisher stays with the first, and the second has no new source.
pub proof fn one_subscriber_per_publisher<Message>(
    first: SubscriberState<Message>,
    first_after: SubscriberState<Message>,
    second: SubscriberState<Message>,
    second_after: SubscriberState<Message>,
    succeeded: bool,
    unbound: PublisherState<Message>,
    bound: PublisherState<Message>,
    after: PublisherState<Message>,
)
    requires
        subscribes(first, unbound, true, first_after, bound),
        subscribes(second, bound, succeeded, second_after, after),
    ensures
        !succeeded,
        after.bound_to == Some(first.name),
        second_after.sources == second.sources,
{
}

/// The messages among `run`, which lists what each call of `receive` handed out, in the
/// order of the run.
pub open spec fn handed_out<Message>(run: Seq<Option<Message>>) -> Seq<Message>
    decreases run.len(),
{
    if run.len() == 0 {
        Seq::empty()
    } else {
        let earlier = handed_out(run.drop_last());
        match run.last() {
            Some(message) => earlier.push(message),
            None => earlier,
        }
    }
}

/// Whether `states` are what a subscriber is before, between and after the calls of `receive`
/// whose results `run` lists.
pub open spec fn is_receive_run<Message>(
    states: Seq<SubscriberState<Message>>,
    run: Seq<Option<Message>>,
) -> bool {
    &&& states.len() == run.len() + 1
    &&& forall|i: int| 0 <= i < run.len() ==> receives(states[i], #[trigger] run[i], states[i + 1])
}

/// Over any run of calls, what a subscriber has received grows by exactly the messages that
/// it handed out, each once and in the order of the calls. The name and the sources stay.
pub proof fn received_grows_by_what_was_handed_out<Message>(
    states: Seq<SubscriberState<Message>>,
    run: Seq<Option<Message>>,
)
    requires
        is_receive_run(states, run),
    ensures
        states.last().received == states[0].received + handed_out(run),
        states.last().name == states[0].name,
        states.last().sources == states[0].sources,
    decreases run.len(),
{
    if run.len() == 0 {
        assert(states[0].received + handed_out(run) =~= states[0].received);
    } else {
        let earlier = run.drop_last();
        let before = states.drop_last();
        assert forall|i: int| 0 <= i < earlier.len() implies receives(
            before[i],
            #[trigger] earlier[i],
            before[i + 1],
        ) by {
            assert(receives(states[i], run[i], states[i + 1]));
        }
        received_grows_by_what_was_handed_out(before, earlier);
        let last = run.len() - 1;
        assert(receives(states[last], run[last], states[last + 1]));
        assert(before.last() == states[last]);
        assert(states.last().received =~= states[0].received + handed_out(run));
    }
}

/// Whether `states` are what a subscriber is before, between and after it has bound each of
/// `publishers`, in order; `bound` are the publishers after their binding.
pub open spec fn is_subscribe_run<Message>(
    states: Seq<SubscriberState<Message>>,
    publishers: Seq<PublisherState<Message>>,
    bound: Seq<PublisherState<Message>>,
) -> bool {
    &&& states.len() == publishers.len() + 1
    &&& bound.len() == publishers.len()
    &&& forall|i: int|
        0 <= i < publishers.len() ==> subscribes(
            states[i],
            #[trigger] publishers[i],
            true,
            states[i + 1],
            bound[i],
        )
}

/// A subscriber that has bound any number of publishers holds the streams of all of them:
/// its sources grow by the publishers' names, in the order of the bindings, and each of the
/// publishers is bound to the subscriber and has published what it had.
pub proof fn sources_grow_by_what_was_bound<Message>(
    states: Seq<SubscriberState<Message>>,
    publishers: Seq<PublisherState<Message>>,
    bound: Seq<PublisherState<Message>>,
)
    requires
        is_subscribe_run(states, publishers, bound),
    ensures
        states.last().sources == states[0].sources + publishers.map_values(
            |publisher: PublisherState<Message>| publisher.name,
        ),
        states.last().name == states[0].name,
        states.last().received == states[0].received,
        forall|i: int|
            0 <= i < publishers.len() ==> (#[trigger] bound[i]).bound_to == Some(states[0].name)
                && bound[i].published == publishers[i].published,
    decreases publishers.len(),
{
    let names = publishers.map_values(|publisher: PublisherState<Message>| publisher.name);
    if publishers.len() == 0 {
        assert(states[0].sources + names =~= states[0].sources);
    } else {
        let earlier = publishers.drop_last();
        let before = states.drop_last();
        let bound_earlier = bound.drop_last();
        assert forall|i: int| 0 <= i < earlier.len() implies subscribes(
            before[i],
            #[trigger] earlier[i],
            true,
            before[i + 1],
            bound_earlier[i],
        ) by {
            assert(subscribes(states[i], publishers[i], true, states[i + 1], bound[i]));
        }
        sources_grow_by_what_was_bound(before, earlier, bound_earlier);
        let last = publishers.len() - 1;
        assert(subscribes(states[last], publishers[last], true, states[last + 1], bound[last]));
        assert(before.last() == states[last]);
        assert(states.last().sources =~= states[0].sources + names) by {
            assert(names =~= earlier.map_values(
                |publisher: PublisherState<Message>| publisher.name,
            ).push(publishers[last].name));
        }
        assert forall|i: int| 0 <= i < publishers.len() implies (#[trigger] bound[i]).bound_to
            == Some(states[0].name) && bound[i].published == publishers[i].published by {
            if i < last {
                assert(bound_earlier[i] == bound[i]);
                assert(earlier[i] == publishers[i]);
            }
            assert(subscribes(states[i], publishers[i], true, states[i + 1], bound[i]));
            assert(states[i].name == states[0].name) by {
                lemma_name_stays(states, publishers, bound, i);
            }
        }
    }
}

proof fn lemma_name_stays<Message>(
    states: Seq<SubscriberState<Message>>,
    publishers: Seq<PublisherState<Message>>,
    bound: Seq<PublisherState<Message>>,
    i: int,
)
    requires
        is_subscribe_run(states, publishers, bound),
        0 <= i < states.len(),
    ensures
        states[i].name == states[0].name,
    decreases i,
{
    if i > 0 {
        lemma_name_stays(states, publishers, bound, i - 1);
        assert(subscribes(states[i - 1], publishers[i - 1], true, states[i], bound[i - 1]));
    }
}

/// A named consumer of messages of one type, from any number of publishers.
pub trait Subscriber<Message>: Sized {
    /// What the subscriber is at this moment.
    spec fn state(&self) -> SubscriberState<Message>;

    fn get_name(&self) -> (name: &'static str)
        ensures
            name@ == self.state().name,
    ;

    /// Binds the subscriber to `publisher`: takes the publisher's stream under the
    /// subscriber's name and merges it into the subscriber's own. Fails, and changes nothing,
    /// where the publisher is bound already.
    fn subscribe_to<P: Publisher<Message>>(&mut self, publisher: &mut P) -> (bound: Result<
        (),
        BindError,
    >)
        requires
            old(self).state().can_subscribe,
            old(publisher).state().can_bind,
        ensures
            subscribes(
                old(self).state(),
                old(publisher).state(),
                bound is Ok,
                final(self).state(),
                final(publisher).state(),
            ),
    ;

    /// Hands out a message of one of the streams, if one is ready. Never waits: `None` says
    /// that a caller would have to.
    fn receive(&mut self) -> (message: Option<Message>)
        requires
            old(self).state().can_receive,
        ensures
            receives(old(self).state(), message, final(self).state()),
    ;
}

/// What a subscriber hands out for what its streams had to give: a message that is ready,
/// and nothing where a caller would have to wait, be it for ever.
pub open spec fn ready_message_of<M>(polled: Polled<M>) -> Option<M> {
    match polled {
        Polled::Ready(message) => Some(message),
        Polled::Pending => None,
        Polled::Exhausted => None,
    }
}

/// What a subscriber hands out for what its streams had to give.
pub fn ready_message<M>(polled: Polled<M>) -> (message: Option<M>)
    ensures
        message == ready_message_of(polled),
{
    match polled {
        Polled::Ready(message) => Some(message),
        Polled::Pending => None,
        Polled::Exhausted => None,
    }
}

/// A subscriber that merges the streams of its publishers.
#[verifier::reject_recursive_types(M)]
pub struct SimpleSubscriber<M> {
    name: &'static str,
    messages: StreamSet<M>,
    sources: Ghost<Seq<Seq<char>>>,
    received: Ghost<Seq<M>>,
}

/// Another name of [`SimpleSubscriber`].
pub type SubscriberImpl<M> = SimpleSubscriber<M>;

impl<M: Send + 'static> SimpleSubscriber<M> {
    /// The subscriber's name.
    pub closed spec fn name(&self) -> Seq<char> {
        self.name@
    }

    /// The names of the publishers whose streams the subscriber holds, in the order of their
    /// binding.
    pub closed spec fn sources(&self) -> Seq<Seq<char>> {
        self.sources@
    }

    /// The messages that the subscriber has handed out so far, oldest first.
    pub closed spec fn received(&self) -> Seq<M> {
        self.received@
    }

    /// A subscriber named `name`, bound to no publisher.
    pub fn new(name: &'static str) -> (subscriber: Self)
        ensures
            subscriber.name() == name@,
            subscriber.sources() == Seq::<Seq<char>>::empty(),
            subscriber.received() == Seq::<M>::empty(),
    {
        SimpleSubscriber {
            name,
            messages: empty_set(),
            sources: Ghost(Seq::empty()),
            received: Ghost(Seq::empty()),
        }
    }

    /// Binds the subscriber to `publisher`. Fails, and changes nothing, where the publisher
    /// is bound already.
    pub fn subscribe_to<P: Publisher<M>>(&mut self, publisher: &mut P) -> (bound: Result<
        (),
        BindError,
    >)
        requires
            old(publisher).state().can_bind,
        ensures
            subscribes(
                old(self).state(),
                old(publisher).state(),
                bound is Ok,
                final(self).state(),
                final(publisher).state(),
            ),
    {
        match publisher.get_message_stream(self.name) {
            Ok(stream) => {
                add_stream(&mut self.messages, stream);
                self.sources = Ghost(self.sources@.push(publisher.state().name));
                Ok(())
            },
            Err(error) => Err(error),
        }
    }

    /// Hands out a message of one of the streams, if one is ready. Never waits.
    pub fn receive(&mut self) -> (message: Option<M>)
        ensures
            receives(old(self).state(), message, final(self).state()),
    {
        let message = ready_message(poll_set(&mut self.messages));
        if let Some(given) = &message {
            self.received = Ghost(self.received@.push(*given));
        }
        message
    }

    pub fn get_name(&self) -> (name: &'static str)
        ensures
            name@ == self.name(),
    {
        self.name
    }
}

impl<M: Send + 'static> Subscriber<M> for SimpleSubscriber<M> {
    /// A subscriber of this kind takes publishers and hands out messages in every state.
    open spec fn state(&self) -> SubscriberState<M> {
        SubscriberState {
            name: self.name(),
            sources: self.sources(),
            received: self.received(),
            can_subscribe: true,
            can_receive: true,
        }
    }

    fn get_name(&self) -> (name: &'static str) {
        self.name
    }

    fn subscribe_to<P: Publisher<M>>(&mut self, publisher: &mut P) -> (bound: Result<
        (),
        BindError,
    >) {
        SimpleSubscriber::subscribe_to(self, publisher)
    }

    fn receive(&mut self) -> (message: Option<M>) {
        SimpleSubscriber::receive(self)
    }
}

} // verus!
