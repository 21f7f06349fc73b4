use async_pub_sub::logging::{keep_line, log_line};
use async_pub_sub::{
    Delivery, LoggingPublisher, LoggingPublisherLayer, Publisher, PublisherImpl, PublisherLayer,
    SendError, SimpleSubscriber, SubscriberImpl,
};

#[test]
fn test_middleware_wrapping() {
    // -- Setup & Fixtures
    let publisher = PublisherImpl::new("publisher", 10);
    let mut logging_publisher = LoggingPublisherLayer.layer(publisher);

    let mut subscriber = SubscriberImpl::new("subscriber");
    subscriber.subscribe_to(&mut logging_publisher).unwrap();

    // -- Exercise
    let message = "Hello, World!";
    assert_eq!(logging_publisher.publish_event(message.to_string()), Ok(Delivery::Queued));

    // -- Verification
    assert_eq!(subscriber.receive(), Some("Hello, World!".to_string()));
    assert_eq!(
        logging_publisher.take_lines(),
        vec!["[publisher] -> [subscriber]: Hello, World!".to_string()]
    );
}

#[test]
fn a_line_has_this_form() {
    assert_eq!(log_line("producer", "consumer", "message"), "[producer] -> [consumer]: message");
    assert_eq!(log_line("", "", ""), "[] -> []: ");
}

#[test]
fn one_line_per_message_that_went_onto_the_queue() {
    let mut publisher = LoggingPublisher::new("publisher", 2);
    let mut subscriber = SimpleSubscriber::new("subscriber");
    subscriber.subscribe_to(&mut publisher).unwrap();

    assert_eq!(publisher.publish_event(1), Ok(Delivery::Queued));
    assert_eq!(publisher.publish_event(-2), Ok(Delivery::Queued));
    // the queue is full: the message comes back and leaves no line
    assert_eq!(publisher.publish_event(3), Ok(Delivery::Full(3)));
    assert_eq!(
        publisher.take_lines(),
        vec![
            "[publisher] -> [subscriber]: 1".to_string(),
            "[publisher] -> [subscriber]: -2".to_string()
        ]
    );
    assert!(publisher.take_lines().is_empty());

    // the messages arrive as they were published
    assert_eq!(subscriber.receive(), Some(1));
    assert_eq!(subscriber.receive(), Some(-2));
    assert_eq!(subscriber.receive(), None);

    // the subscriber goes away: the message fails and leaves no line
    drop(subscriber);
    assert_eq!(publisher.publish_event(4), Err(SendError));
    assert!(publisher.take_lines().is_empty());
}

#[test]
fn layers_nest() {
    let publisher = PublisherImpl::new("publisher", 1);
    let inner = LoggingPublisherLayer.layer(publisher);
    let mut outer = LoggingPublisherLayer.layer(inner);
    assert_eq!(Publisher::<&'static str>::get_name(&outer), "publisher");

    let mut subscriber = SimpleSubscriber::new("subscriber");
    subscriber.subscribe_to(&mut outer).unwrap();
    assert_eq!(outer.publish_event("ping"), Ok(Delivery::Queued));
    assert_eq!(subscriber.receive(), Some("ping"));
    assert_eq!(outer.take_lines(), vec!["[publisher] -> [subscriber]: ping".to_string()]);
}

#[test]
fn a_failed_bind_through_a_layer_keeps_the_first_subscriber() {
    let mut publisher = LoggingPublisher::new("publisher", 1);
    let mut first = SimpleSubscriber::new("first");
    let mut second = SimpleSubscriber::new("second");
    first.subscribe_to(&mut publisher).unwrap();
    assert!(second.subscribe_to(&mut publisher).is_err());

    assert_eq!(publisher.publish_event(5), Ok(Delivery::Queued));
    assert_eq!(publisher.take_lines(), vec!["[publisher] -> [first]: 5".to_string()]);
    assert_eq!(first.receive(), Some(5));
    assert_eq!(second.receive(), None);
}

#[test]
fn a_logging_publisher_knows_its_subscriber_once_bound() {
    let mut publisher = LoggingPublisher::<PublisherImpl<i32>>::with_capacity("publisher", 1).unwrap();
    assert_eq!(publisher.subscriber_name(), None);
    let mut subscriber = SimpleSubscriber::new("subscriber");
    subscriber.subscribe_to(&mut publisher).unwrap();
    assert_eq!(publisher.subscriber_name(), Some("subscriber"));
    assert!(LoggingPublisher::<PublisherImpl<i32>>::with_capacity("publisher", 0).is_none());
}

#[test]
fn a_line_is_kept_for_a_queued_message_only() {
    let mut lines = vec!["earlier".to_string()];
    keep_line::<i32>(&mut lines, "producer", "consumer", "7", &Ok(Delivery::Full(7)));
    assert_eq!(lines, vec!["earlier".to_string()]);
    keep_line::<i32>(&mut lines, "producer", "consumer", "7", &Err(SendError));
    assert_eq!(lines, vec!["earlier".to_string()]);
    keep_line::<i32>(&mut lines, "producer", "consumer", "7", &Ok(Delivery::Queued));
    assert_eq!(lines, vec!["earlier".to_string(), "[producer] -> [consumer]: 7".to_string()]);
}
