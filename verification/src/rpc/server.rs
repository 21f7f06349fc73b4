//! How a server of an interface dispatches each request.

use vstd::prelude::*;
use crate::rpc::description::{argument_patterns, collect_patterns, Method, MethodView};
use crate::text::{to_upper_camel_case, upper_camel_case};

verus! {

/// How a server calls the handler of a method with the content of a request.
#[derive(Debug, PartialEq, Eq)]
pub enum Invocation {
    /// The method takes no argument: the content is not read.
    NoArguments,
    /// The method takes one argument: the content itself.
    Content,
    /// The method takes two or more arguments: the content is a tuple, taken apart into these
    /// bindings, which are handed over in order.
    Destructured(Vec<String>),
}

/// What a [`Invocation`] stands for in contracts: the same, with each text as its characters.
pub enum InvocationView {
    NoArguments,
    Content,
    Destructured(Seq<Seq<char>>),
}

impl DeepView for Invocation {
    type V = InvocationView;

    open spec fn deep_view(&self) -> InvocationView {
        match self {
            Invocation::NoArguments => InvocationView::NoArguments,
            Invocation::Content => InvocationView::Content,
            Invocation::Destructured(bindings) => InvocationView::Destructured(
                bindings.deep_view(),
            ),
        }
    }
}

/// One arm of a server's dispatch: on the variant `variant` of `message_type` it takes the
/// request apart, calls `method` of `interface` as `invocation` says, and resolves the
/// request's response slot with what the method returned.
#[derive(Debug, PartialEq, Eq)]
pub struct ServerArm {
    pub message_type: String,
    pub variant: String,
    pub interface: String,
    pub method: String,
    pub invocation: Invocation,
}

/// What a [`ServerArm`] stands for in contracts: the same, with each text as its characters.
pub struct ServerArmView {
    pub message_type: Seq<char>,
    pub variant: Seq<char>,
    pub interface: Seq<char>,
    pub method: Seq<char>,
    pub invocation: InvocationView,
}

impl DeepView for ServerArm {
    type V = ServerArmView;

    open spec fn deep_view(&self) -> ServerArmView {
        ServerArmView {
            message_type: self.message_type@,
            variant: self.variant@,
            interface: self.interface@,
            method: self.method@,
            invocation: self.invocation.deep_view(),
        }
    }
}

/// How a handler whose arguments are bound by `bindings` is called.
pub open spec fn invocation_of(bindings: Seq<Seq<char>>) -> InvocationView {
    if bindings.len() == 0 {
        InvocationView::NoArguments
    } else if bindings.len() == 1 {
        InvocationView::Content
    } else {
        InvocationView::Destructured(bindings)
    }
}

/// The arm of the dispatch for `method`, whose variant is named `variant`.
pub open spec fn server_arm(
    message_type: Seq<char>,
    interface: Seq<char>,
    method: MethodView,
    variant: Seq<char>,
) -> ServerArmView {
    ServerArmView {
        message_type,
        variant,
        interface,
        method: method.name,
        invocation: invocation_of(argument_patterns(method.inputs)),
    }
}

/// The arms of the dispatch, one per method and in the methods' order.
pub open spec fn server_arms(
    message_type: Seq<char>,
    interface: Seq<char>,
    methods: Seq<MethodView>,
) -> Seq<ServerArmView> {
    methods.map_values(
        |method: MethodView|
            server_arm(message_type, interface, method, upper_camel_case(method.name)),
    )
}

/// How a handler whose arguments are bound by `bindings` is called.
pub fn invocation_from(bindings: Vec<String>) -> (invocation: Invocation)
    ensures
        invocation.deep_view() == invocation_of(bindings.deep_view()),
{
    if bindings.len() == 0 {
        Invocation::NoArguments
    } else if bindings.len() == 1 {
        Invocation::Content
    } else {
        Invocation::Destructured(bindings)
    }
}

/// The arm of the dispatch for `method`, whose variant is named `variant`.
pub fn server_arm_for(message_type: &str, interface: &str, method: &Method, variant: String) -> (arm:
    ServerArm)
    ensures
        arm.deep_view() == server_arm(message_type@, interface@, method.deep_view(), variant@),
{
    ServerArm {
        message_type: String::from_str(message_type),
        variant,
        interface: String::from_str(interface),
        method: method.name.clone(),
        invocation: invocation_from(collect_patterns(&method.inputs)),
    }
}

/// The arms of a server's dispatch for an interface with these methods.
pub fn generate_server_impl(message_enum_name: &str, trait_name: &str, methods: &Vec<Method>) -> (arms:
    Vec<ServerArm>)
    ensures
        arms.deep_view() == server_arms(message_enum_name@, trait_name@, methods.deep_view()),
{
    let mut arms: Vec<ServerArm> = Vec::new();
    let mut i: usize = 0;
    while i < methods.len()
        invariant
            i <= methods.len(),
            arms.deep_view() == server_arms(
                message_enum_name@,
                trait_name@,
                methods.deep_view().take(i as int),
            ),
        decreases methods.len() - i,
    {
        let ghost before = arms.deep_view();
        let method = &methods[i];
        let variant = to_upper_camel_case(method.name.as_str());
        let arm = server_arm_for(message_enum_name, trait_name, method, variant);
        arms.push(arm);
        assert(arms.deep_view() =~= before.push(arm.deep_view()));
        assert(server_arms(message_enum_name@, trait_name@, methods.deep_view().take(i + 1))
            =~= before.push(arm.deep_view()));
        i += 1;
    }
    assert(methods.deep_view().take(i as int) =~= methods.deep_view());
    arms
}

/// The server capability `server_trait`, given to every type that implements `interface` and
/// subscribes to `message_type`.
#[derive(Debug, PartialEq, Eq)]
pub struct ServerImpl {
    pub server_trait: String,
    pub message_type: String,
    pub interface: String,
}

/// What a [`ServerImpl`] stands for in contracts: the same, with each text as its characters.
pub struct ServerImplView {
    pub server_trait: Seq<char>,
    pub message_type: Seq<char>,
    pub interface: Seq<char>,
}

impl DeepView for ServerImpl {
    type V = ServerImplView;

    open spec fn deep_view(&self) -> ServerImplView {
        ServerImplView {
            server_trait: self.server_trait@,
            message_type: self.message_type@,
            interface: self.interface@,
        }
    }
}

/// The server capability, given to every implementor of the interface that subscribes to its
/// message type.
pub fn generate_server_trait_impl(
    server_trait_name: &str,
    message_enum_name: &str,
    trait_name: &str,
) -> (implementation: ServerImpl)
    ensures
        implementation.deep_view() == (ServerImplView {
            server_trait: server_trait_name@,
            message_type: message_enum_name@,
            interface: trait_name@,
        }),
{
    ServerImpl {
        server_trait: String::from_str(server_trait_name),
        message_type: String::from_str(message_enum_name),
        interface: String::from_str(trait_name),
    }
}

} // verus!
