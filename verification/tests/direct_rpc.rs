use async_pub_sub::request::awaited;
use async_pub_sub::{
    Awaited, BindError, Delivery, Describe, LoggingPublisher, Publisher, PublisherImpl, Request,
    ResponseLost, Server, SimpleSubscriber, Subscriber, SubscriberState,
};

#[derive(Debug, PartialEq)]
struct Foo(i32);

#[derive(Debug, PartialEq)]
struct Bar(String);

enum ServiceRequest {
    Foo(Request<Foo, i32>),
    Bar(Request<Bar, String>),
}

impl From<Request<Foo, i32>> for ServiceRequest {
    fn from(request: Request<Foo, i32>) -> Self {
        Self::Foo(request)
    }
}

impl From<Request<Bar, String>> for ServiceRequest {
    fn from(request: Request<Bar, String>) -> Self {
        Self::Bar(request)
    }
}

struct Service {
    subscriber: SimpleSubscriber<ServiceRequest>,
}

impl Service {
    pub fn new() -> Self {
        let subscriber = SimpleSubscriber::new("Service");

        Self { subscriber }
    }

    fn foo(&self, value: &Foo) -> i32 {
        let Foo(value) = value;
        value + 1
    }

    fn bar(&mut self, value: &Bar) -> String {
        let Bar(value) = value;
        format!("bar: {}", value)
    }
}

impl Subscriber<ServiceRequest> for Service {
    fn state(&self) -> SubscriberState<ServiceRequest> {
        unreachable!()
    }

    fn get_name(&self) -> &'static str {
        self.subscriber.get_name()
    }

    fn subscribe_to<P: Publisher<ServiceRequest>>(
        &mut self,
        publisher: &mut P,
    ) -> Result<(), BindError> {
        self.subscriber.subscribe_to(publisher)
    }

    fn receive(&mut self) -> Option<ServiceRequest> {
        self.subscriber.receive()
    }
}

impl Server<ServiceRequest> for Service {
    fn handle_request(&mut self, request: ServiceRequest) {
        match request {
            ServiceRequest::Foo(request) => {
                let response = self.foo(&request.content);
                request.respond(response).unwrap();
            }
            ServiceRequest::Bar(request) => {
                let response = self.bar(&request.content);
                request.respond(response).unwrap();
            }
        }
    }
}

#[test]
fn test_direct_rpc() {
    // -- Setup & Fixtures
    let mut publisher = PublisherImpl::new("publisher", 1);
    let mut service = Service::new();

    service.subscribe_to(&mut publisher).unwrap();

    // -- Exec & Check
    let (request, response) = Request::new(Foo(42));
    assert!(
        matches!(publisher.publish(request.into()), Ok(Delivery::Queued)),
        "request published successfully"
    );
    assert!(service.run_once());
    match response.poll() {
        Awaited::Ready(value) => assert_eq!(value, 43),
        _ => panic!("request successul"),
    }

    let (request, response) = Request::new(Bar("hello".to_string()));
    assert!(
        matches!(publisher.publish(request.into()), Ok(Delivery::Queued)),
        "request published successfully"
    );
    assert!(service.run_once());
    match response.poll() {
        Awaited::Ready(value) => assert_eq!(value, "bar: hello"),
        _ => panic!("request successul"),
    }
}

#[test]
fn test_multiple_publishers() {
    // -- Setup & Fixtures
    let mut publisher = LoggingPublisher::new("publisher", 1);
    let mut subscriber = SimpleSubscriber::new("subscriber");

    subscriber.subscribe_to(&mut publisher).unwrap();

    // -- Exec
    assert_eq!(publisher.publish_event(42), Ok(Delivery::Queued));

    let message: i32 = subscriber.receive().unwrap();

    // -- Check
    assert_eq!(message.describe(), 42.to_string());
}

#[test]
fn a_call_through_the_publisher_yields_the_response() {
    let mut publisher = PublisherImpl::<ServiceRequest>::new("publisher", 1);
    let mut service = Service::new();
    service.subscribe_to(&mut publisher).unwrap();

    let call = publisher.publish_request::<Foo, i32>(Foo(42)).ok().unwrap();
    assert!(matches!(call.delivery, Delivery::Queued));
    // nobody has responded yet
    let response = match call.response.poll() {
        Awaited::Pending(response) => response,
        _ => panic!("the response cannot be there yet"),
    };
    assert!(service.run_once());
    assert!(matches!(response.poll(), Awaited::Ready(43)));
    // the server has nothing more to do
    assert!(!service.run_once());
}

#[test]
fn a_call_into_a_full_queue_hands_the_request_back() {
    let mut publisher = PublisherImpl::<ServiceRequest>::new("publisher", 1);
    let mut service = Service::new();
    service.subscribe_to(&mut publisher).unwrap();

    let first = publisher.publish_request::<Foo, i32>(Foo(1)).ok().unwrap();
    let second = publisher.publish_request::<Foo, i32>(Foo(2)).ok().unwrap();
    assert!(matches!(first.delivery, Delivery::Queued));
    let message = match second.delivery {
        Delivery::Full(message) => message,
        Delivery::Queued => panic!("the queue holds one message only"),
    };
    assert!(service.run_once());
    assert!(matches!(publisher.publish_event(message), Ok(Delivery::Queued)));
    assert!(service.run_once());
    assert!(matches!(first.response.poll(), Awaited::Ready(2)));
    assert!(matches!(second.response.poll(), Awaited::Ready(3)));
}

#[test]
fn a_request_that_is_dropped_fails_the_caller() {
    let (request, response) = Request::<Foo, i32>::new(Foo(42));
    let response = match response.poll() {
        Awaited::Pending(response) => response,
        _ => panic!("nobody has responded or dropped the request"),
    };
    drop(request);
    assert!(matches!(response.poll(), Awaited::Lost));
}

#[test]
fn a_server_that_is_dropped_fails_its_pending_callers() {
    let mut publisher = PublisherImpl::<ServiceRequest>::new("publisher", 1);
    let mut service = Service::new();
    service.subscribe_to(&mut publisher).unwrap();

    let call = publisher.publish_request::<Foo, i32>(Foo(42)).ok().unwrap();
    drop(service);
    assert!(matches!(call.response.poll(), Awaited::Lost));
    // and the next call cannot even be published
    assert!(publisher.publish_request::<Foo, i32>(Foo(43)).is_err());
}

#[test]
fn a_response_to_a_caller_that_is_gone_comes_back() {
    let (request, response) = Request::<Foo, i32>::new(Foo(42));
    assert_eq!(request.content, Foo(42));
    drop(response);
    assert_eq!(request.respond(43), Err(43));
}

#[test]
fn the_text_of_a_request_is_that_of_its_content() {
    let (request, _response) = Request::<i32, i32>::new(-17);
    assert_eq!(request.describe(), "-17");
}

#[test]
fn what_the_slot_held_decides_what_the_caller_learns() {
    let (_request, response) = Request::<Foo, i32>::new(Foo(1));
    assert!(matches!(awaited(Ok(Some(43)), response), Awaited::Ready(43)));
    let (_request, response) = Request::<Foo, i32>::new(Foo(1));
    assert!(matches!(awaited(Ok(None), response), Awaited::Pending(_)));
    let (_request, response) = Request::<Foo, i32>::new(Foo(1));
    assert!(matches!(awaited(Err(ResponseLost), response), Awaited::Lost));
}
