use async_pub_sub::router::{
    derive_publisher_impl, Data, DeriveError, DeriveInput, Field, Fields, Route, Routing,
};
use async_pub_sub::{
    BindError, Delivery, MessageStream, Publisher, PublisherImpl, PublisherState, SendError,
    SimplePublisher, SimpleSubscriber, SubscriberImpl,
};

struct MultiPub {
    publisher_a: PublisherImpl<i32>,
    publisher_b: PublisherImpl<String>,
}

impl MultiPub {
    fn new() -> Self {
        Self {
            publisher_a: PublisherImpl::new("publisher", 1),
            publisher_b: PublisherImpl::new("publisher", 1),
        }
    }
}

// Access by message type, as `multi_pub` below says it for this struct.
impl Publisher<i32> for MultiPub {
    fn state(&self) -> PublisherState<i32> {
        unreachable!()
    }

    fn get_name(&self) -> &'static str {
        self.publisher_a.get_name()
    }

    fn publish_event(&mut self, message: i32) -> Result<Delivery<i32>, SendError> {
        self.publisher_a.publish(message)
    }

    fn get_message_stream(
        &mut self,
        subscriber_name: &'static str,
    ) -> Result<MessageStream<i32>, BindError> {
        self.publisher_a.get_message_stream(subscriber_name)
    }
}

impl Publisher<String> for MultiPub {
    fn state(&self) -> PublisherState<String> {
        unreachable!()
    }

    fn get_name(&self) -> &'static str {
        self.publisher_b.get_name()
    }

    fn publish_event(&mut self, message: String) -> Result<Delivery<String>, SendError> {
        self.publisher_b.publish(message)
    }

    fn get_message_stream(
        &mut self,
        subscriber_name: &'static str,
    ) -> Result<MessageStream<String>, BindError> {
        self.publisher_b.get_message_stream(subscriber_name)
    }
}

fn field(name: &str, publishes: Option<&str>) -> Field {
    Field { name: name.to_string(), publishes: publishes.map(|ty| ty.to_string()) }
}

fn route(field: &str, message_type: &str) -> Route {
    Route { field: field.to_string(), message_type: message_type.to_string() }
}

fn named(name: &str, fields: Vec<Field>) -> DeriveInput {
    DeriveInput { name: name.to_string(), data: Data::Struct(Fields::Named(fields)) }
}

fn multi_pub() -> DeriveInput {
    named(
        "MultiPub",
        vec![field("publisher_a", Some("i32")), field("publisher_b", Some("String"))],
    )
}

#[test]
fn test_multi_pub() {
    let mut subscriber1 = SubscriberImpl::<i32>::new("subscriber1");
    let mut subscriber2 = SubscriberImpl::<String>::new("subscriber2");

    let mut publisher = MultiPub::new();
    subscriber1.subscribe_to(&mut publisher).unwrap();
    subscriber2.subscribe_to(&mut publisher).unwrap();

    assert_eq!(publisher.publish_event(42), Ok(Delivery::Queued));
    assert_eq!(subscriber2.receive(), None);
    let message = subscriber1.receive();
    assert_eq!(message, Some(42));

    assert_eq!(publisher.publish_event("toto".to_string()), Ok(Delivery::Queued));
    assert_eq!(subscriber1.receive(), None);
    let message = subscriber2.receive();
    assert_eq!(message, Some("toto".to_string()));
}

#[test]
fn multi_pub_wrapper_test_multi_pub() {
    let mut subscriber1 = SimpleSubscriber::<i32>::new("subscriber1");
    let mut subscriber2 = SimpleSubscriber::<String>::new("subscriber2");

    let mut publisher = MultiPub::new();
    assert_eq!(subscriber1.subscribe_to(&mut publisher), Ok(()));
    assert_eq!(subscriber2.subscribe_to(&mut publisher), Ok(()));
}

#[test]
fn each_message_type_of_a_router_is_bound_on_its_own() {
    let mut first = SimpleSubscriber::<i32>::new("first");
    let mut second = SimpleSubscriber::<i32>::new("second");
    let mut third = SimpleSubscriber::<String>::new("third");
    let mut publisher = MultiPub::new();
    assert_eq!(first.subscribe_to(&mut publisher), Ok(()));
    assert_eq!(
        second.subscribe_to(&mut publisher),
        Err(BindError::AlreadyBound { publisher: "publisher", subscriber: "first" })
    );
    assert_eq!(third.subscribe_to(&mut publisher), Ok(()));
}

#[test]
fn two_publisher_fields_are_reached_by_message_type() {
    assert_eq!(
        derive_publisher_impl(&multi_pub()),
        Ok(Routing::ByType(vec![route("publisher_a", "i32"), route("publisher_b", "String")]))
    );
}

#[test]
fn one_publisher_field_makes_the_struct_that_publisher() {
    let input = named(
        "TestPublisherA",
        vec![field("count", None), field("publisher_a", Some("i32")), field("label", None)],
    );
    assert_eq!(derive_publisher_impl(&input), Ok(Routing::Direct(route("publisher_a", "i32"))));
}

#[test]
fn a_struct_without_publisher_fields_is_no_publisher() {
    let error = Err(DeriveError::Unroutable(BindError::NoPublisherField));
    assert_eq!(derive_publisher_impl(&named("Empty", vec![])), error);
    assert_eq!(derive_publisher_impl(&named("Plain", vec![field("count", None)])), error);
}

#[test]
fn two_fields_for_one_message_type_are_ambiguous() {
    let input = named(
        "Twice",
        vec![
            field("first", Some("i32")),
            field("other", Some("String")),
            field("second", Some("i32")),
        ],
    );
    assert_eq!(
        derive_publisher_impl(&input),
        Err(DeriveError::Unroutable(BindError::AmbiguousMessageType))
    );
}

#[test]
fn only_structs_with_named_fields_are_publishers() {
    let of = |data: Data| DeriveInput { name: "Other".to_string(), data };
    assert_eq!(derive_publisher_impl(&of(Data::Enum)), Err(DeriveError::NotAStruct));
    assert_eq!(derive_publisher_impl(&of(Data::Union)), Err(DeriveError::NotAStruct));
    assert_eq!(
        derive_publisher_impl(&of(Data::Struct(Fields::Unnamed))),
        Err(DeriveError::UnnamedFields)
    );
    assert_eq!(
        derive_publisher_impl(&of(Data::Struct(Fields::Unit))),
        Err(DeriveError::UnnamedFields)
    );
}

#[test]
fn a_struct_with_one_publisher_field_behaves_as_that_publisher() {
    let mut bare = SimplePublisher::new("publisher", 1);
    let mut subscriber = SimpleSubscriber::new("subscriber");
    subscriber.subscribe_to(&mut bare).unwrap();
    assert_eq!(bare.publish_event(1), Ok(Delivery::Queued));
    assert_eq!(bare.publish_event(2), Ok(Delivery::Full(2)));
    assert_eq!(subscriber.receive(), Some(1));
}

#[test]
fn a_message_type_finds_its_field() {
    let routing = derive_publisher_impl(&multi_pub()).unwrap();
    assert_eq!(routing.route_for("i32"), Ok(&route("publisher_a", "i32")));
    assert_eq!(routing.route_for("String"), Ok(&route("publisher_b", "String")));
    assert_eq!(routing.route_for("u8"), Err(BindError::NoPublisherField));
    assert_eq!(routing.route_for(""), Err(BindError::NoPublisherField));

    let single = Routing::Direct(route("publisher_a", "i32"));
    assert_eq!(single.route_for("i32"), Ok(&route("publisher_a", "i32")));
    assert_eq!(single.route_for("String"), Err(BindError::NoPublisherField));
}
