use async_pub_sub::{Delivery, PublisherImpl, SubscriberImpl};

struct MultiSub {
    subscriber_a: SubscriberImpl<i32>,
    subscriber_b: SubscriberImpl<String>,
}

impl MultiSub {
    fn new() -> Self {
        Self {
            subscriber_a: SubscriberImpl::new("subscriber"),
            subscriber_b: SubscriberImpl::new("subscriber"),
        }
    }
}

#[test]
fn test_multi_sub() {
    let mut subscriber = MultiSub::new();

    let mut publisher1 = PublisherImpl::<i32>::new("publisher1", 1);
    let mut publisher2 = PublisherImpl::<String>::new("publisher2", 1);

    subscriber.subscriber_a.subscribe_to(&mut publisher1).unwrap();
    subscriber.subscriber_b.subscribe_to(&mut publisher2).unwrap();

    assert_eq!(publisher1.publish(42), Ok(Delivery::Queued));
    let message = subscriber.subscriber_a.receive();
    assert_eq!(Some(42), message);

    assert_eq!(publisher2.publish("toto".to_string()), Ok(Delivery::Queued));
    let message = subscriber.subscriber_b.receive();
    assert_eq!(Some("toto".to_string()), message);
}
