use async_pub_sub::channel::Attempt;
use async_pub_sub::publisher::delivery;
use async_pub_sub::stream::Polled;
use async_pub_sub::subscriber::ready_message;
use async_pub_sub::{BindError, Delivery, PublisherImpl, SendError, SimpleSubscriber, SubscriberImpl};

#[test]
fn test_pub_sub_i32() {
    // -- Setup & Fixtures
    let mut subscriber = SubscriberImpl::new("subscriber");
    let mut publisher = PublisherImpl::new("publisher", 10);

    subscriber.subscribe_to(&mut publisher).unwrap();

    // -- Exec
    assert_eq!(publisher.publish(42), Ok(Delivery::Queued));
    let message = subscriber.receive();

    // -- Check
    assert_eq!(message, Some(42));
}

#[test]
fn test_pub_sub_string() {
    // -- Setup & Fixtures
    let mut subscriber = SubscriberImpl::new("subscriber");
    let mut publisher = PublisherImpl::new("publisher", 10);

    subscriber.subscribe_to(&mut publisher).unwrap();

    // -- Exec
    assert_eq!(publisher.publish("hello"), Ok(Delivery::Queued));
    let message = subscriber.receive();

    // -- Check
    assert_eq!(message, Some("hello"));
}

#[test]
fn boxed_publisher_test_pub_sub_i32() {
    // -- Setup & Fixtures
    let mut subscriber = SubscriberImpl::new("subscriber");
    let mut publisher: Box<PublisherImpl<i32>> = Box::new(PublisherImpl::new("publisher", 10));

    subscriber.subscribe_to(&mut *publisher).unwrap();

    // -- Exec
    assert_eq!(publisher.publish(42), Ok(Delivery::Queued));
    let message = subscriber.receive();

    // -- Check
    assert_eq!(message, Some(42));
}

#[test]
fn names_are_handed_back() {
    let subscriber = SimpleSubscriber::<i32>::new("subscriber");
    let publisher = PublisherImpl::<i32>::new("publisher", 1);
    assert_eq!(subscriber.get_name(), "subscriber");
    assert_eq!(publisher.get_name(), "publisher");
}

#[test]
fn every_message_arrives_once_and_in_publish_order() {
    let mut subscriber = SimpleSubscriber::new("subscriber");
    let mut publisher = PublisherImpl::new("publisher", 4);
    subscriber.subscribe_to(&mut publisher).unwrap();

    for round in 0..5 {
        for i in 0..4 {
            assert_eq!(publisher.publish(round * 4 + i), Ok(Delivery::Queued));
        }
        for i in 0..4 {
            assert_eq!(subscriber.receive(), Some(round * 4 + i));
        }
        assert_eq!(subscriber.receive(), None);
    }
}

#[test]
fn messages_published_before_the_binding_wait_on_the_queue() {
    let mut publisher = PublisherImpl::new("publisher", 2);
    assert_eq!(publisher.publish(1), Ok(Delivery::Queued));
    assert_eq!(publisher.publish(2), Ok(Delivery::Queued));

    let mut subscriber = SimpleSubscriber::new("subscriber");
    subscriber.subscribe_to(&mut publisher).unwrap();
    assert_eq!(subscriber.receive(), Some(1));
    assert_eq!(subscriber.receive(), Some(2));
    assert_eq!(subscriber.receive(), None);
}

#[test]
fn a_full_queue_hands_the_message_back() {
    let mut subscriber = SimpleSubscriber::new("subscriber");
    let mut publisher = PublisherImpl::new("publisher", 1);
    subscriber.subscribe_to(&mut publisher).unwrap();

    assert_eq!(publisher.publish("first"), Ok(Delivery::Queued));
    assert_eq!(publisher.publish("second"), Ok(Delivery::Full("second")));
    assert_eq!(subscriber.receive(), Some("first"));
    assert_eq!(publisher.publish("second"), Ok(Delivery::Queued));
    assert_eq!(subscriber.receive(), Some("second"));
}

#[test]
fn publishing_fails_once_the_subscriber_is_gone() {
    let mut publisher = PublisherImpl::new("publisher", 1);
    {
        let mut subscriber = SimpleSubscriber::new("subscriber");
        subscriber.subscribe_to(&mut publisher).unwrap();
        assert_eq!(publisher.publish(1), Ok(Delivery::Queued));
    }
    assert_eq!(publisher.publish(2), Err(SendError));
}

#[test]
fn a_subscriber_without_publishers_has_nothing_to_give() {
    let mut subscriber = SimpleSubscriber::<i32>::new("subscriber");
    assert_eq!(subscriber.receive(), None);
    assert_eq!(subscriber.receive(), None);
}

#[test]
fn a_second_bind_fails_and_names_the_first_subscriber() {
    let mut first = SimpleSubscriber::<i32>::new("first");
    let mut second = SimpleSubscriber::<i32>::new("second");
    let mut publisher = PublisherImpl::new("publisher", 1);

    assert_eq!(first.subscribe_to(&mut publisher), Ok(()));
    let error = second.subscribe_to(&mut publisher).unwrap_err();
    assert_eq!(error, BindError::AlreadyBound { publisher: "publisher", subscriber: "first" });
    assert_eq!(
        error.message(),
        "publisher publisher can only be bound to one subscriber (already bound to first)"
    );
    assert!(publisher.get_message_stream("third").is_err());

    // the first binding still delivers, the second subscriber sees nothing
    assert_eq!(publisher.publish(7), Ok(Delivery::Queued));
    assert_eq!(second.receive(), None);
    assert_eq!(first.receive(), Some(7));
}

#[test]
fn the_other_bind_errors_have_a_text() {
    assert_eq!(
        BindError::AmbiguousMessageType.message(),
        "two publishers have the same message type"
    );
    assert_eq!(BindError::NoPublisherField.message(), "there is no publisher");
}

#[test]
fn a_queue_needs_room_for_one_message_at_least() {
    assert!(PublisherImpl::<i32>::with_capacity("publisher", 0).is_none());
    assert!(PublisherImpl::<i32>::with_capacity("publisher", usize::MAX).is_none());
    assert!(PublisherImpl::<i32>::with_capacity("publisher", usize::MAX / 8 + 1).is_none());
    let mut publisher = PublisherImpl::with_capacity("publisher", 1).unwrap();
    assert_eq!(publisher.publish(1), Ok(Delivery::Queued));
    assert_eq!(publisher.publish(2), Ok(Delivery::Full(2)));
}

#[test]
fn a_subscriber_receives_what_all_its_publishers_send() {
    let mut subscriber = SimpleSubscriber::new("subscriber");
    let mut publishers = vec![
        PublisherImpl::new("a", 8),
        PublisherImpl::new("b", 8),
        PublisherImpl::new("c", 8),
    ];
    for publisher in publishers.iter_mut() {
        subscriber.subscribe_to(publisher).unwrap();
    }
    for i in 0..8 {
        for (k, publisher) in publishers.iter_mut().enumerate() {
            assert_eq!(publisher.publish((k, i)), Ok(Delivery::Queued));
        }
    }

    let mut received = vec![];
    loop {
        match subscriber.receive() {
            Some(message) => received.push(message),
            None => break,
        }
    }
    assert_eq!(received.len(), 24);
    for k in 0..3 {
        // nothing is lost or doubled, and each publisher's messages keep their order
        let of_one: Vec<i32> = received.iter().filter(|m| m.0 == k).map(|m| m.1).collect();
        assert_eq!(of_one, vec![0, 1, 2, 3, 4, 5, 6, 7]);
    }
}

#[test]
fn a_full_queue_is_no_failure_and_a_closed_one_is() {
    assert_eq!(delivery(Attempt::<i32>::Sent), Ok(Delivery::Queued));
    assert_eq!(delivery(Attempt::Full(3)), Ok(Delivery::Full(3)));
    assert_eq!(delivery(Attempt::Closed(3)), Err(SendError));
}

#[test]
fn only_a_ready_message_is_handed_out() {
    assert_eq!(ready_message(Polled::Ready(3)), Some(3));
    assert_eq!(ready_message(Polled::<i32>::Pending), None);
    assert_eq!(ready_message(Polled::<i32>::Exhausted), None);
}

#[test]
fn what_is_on_the_queue_outlives_its_publisher() {
    let mut subscriber = SimpleSubscriber::new("subscriber");
    {
        let mut publisher = PublisherImpl::new("publisher", 2);
        subscriber.subscribe_to(&mut publisher).unwrap();
        assert_eq!(publisher.publish(1), Ok(Delivery::Queued));
        assert_eq!(publisher.publish(2), Ok(Delivery::Queued));
    }
    assert_eq!(subscriber.receive(), Some(1));
    assert_eq!(subscriber.receive(), Some(2));
    // all streams are exhausted: there is nothing to wait for, now or later
    assert_eq!(subscriber.receive(), None);
    assert_eq!(subscriber.receive(), None);
}
