//! What a client of an interface does for each of its methods.

use vstd::prelude::*;
use crate::rpc::description::{
    argument_patterns, collect_patterns, payload_from, payload_of, response_type, response_type_of,
    Input, InputView, Method, MethodView, Payload, PayloadView,
};
use crate::text::{joined, to_upper_camel_case, upper_camel_case};

verus! {

/// The call that a client makes for one method: it builds a fresh request from
/// `request_content`, publishes it as the variant `variant` of the message type `message_type`,
/// waits for the response and returns it.
#[derive(Debug, PartialEq, Eq)]
pub struct ClientMethod {
    pub name: String,
    pub output: String,
    pub message_type: String,
    pub variant: String,
    pub request_content: Payload,
    /// What the call fails with where the request cannot be published.
    pub publish_failure: String,
    /// What the call fails with where no response comes.
    pub response_failure: String,
}

/// What a [`ClientMethod`] stands for in contracts: the same, with each text as its characters.
pub struct ClientMethodView {
    pub name: Seq<char>,
    pub output: Seq<char>,
    pub message_type: Seq<char>,
    pub variant: Seq<char>,
    pub request_content: PayloadView,
    pub publish_failure: Seq<char>,
    pub response_failure: Seq<char>,
}

impl DeepView for ClientMethod {
    type V = ClientMethodView;

    open spec fn deep_view(&self) -> ClientMethodView {
        ClientMethodView {
            name: self.name@,
            output: self.output@,
            message_type: self.message_type@,
            variant: self.variant@,
            request_content: self.request_content.deep_view(),
            publish_failure: self.publish_failure@,
            response_failure: self.response_failure@,
        }
    }
}

/// The client's call for `method`, whose variant is named `variant`.
pub open spec fn client_method(
    message_type: Seq<char>,
    method: MethodView,
    variant: Seq<char>,
) -> ClientMethodView {
    ClientMethodView {
        name: method.name,
        output: response_type(method.output),
        message_type,
        variant,
        request_content: payload_of(argument_patterns(method.inputs)),
        publish_failure: "failed to publish "@ + method.name + " request"@,
        response_failure: "failed to receive "@ + method.name + " response"@,
    }
}

/// The client's calls, one per method and in the methods' order.
pub open spec fn client_methods(
    message_type: Seq<char>,
    methods: Seq<MethodView>,
) -> Seq<ClientMethodView> {
    methods.map_values(
        |method: MethodView| client_method(message_type, method, upper_camel_case(method.name)),
    )
}

/// `head`, then `middle`, then `tail`.
pub(crate) fn framed(head: &str, middle: &str, tail: &str) -> (text: String)
    ensures
        text@ == head@ + middle@ + tail@,
{
    let mut text = joined(head, middle);
    text.append(tail);
    text
}

/// The client's call for `method`, whose variant is named `variant`.
pub fn client_method_for(message_type: &str, method: &Method, variant: String) -> (call:
    ClientMethod)
    ensures
        call.deep_view() == client_method(message_type@, method.deep_view(), variant@),
{
    ClientMethod {
        name: method.name.clone(),
        output: response_type_of(&method.output),
        message_type: String::from_str(message_type),
        variant,
        request_content: payload_from(collect_patterns(&method.inputs)),
        publish_failure: framed("failed to publish ", method.name.as_str(), " request"),
        response_failure: framed("failed to receive ", method.name.as_str(), " response"),
    }
}

/// The client's calls for an interface with these methods and this message type.
pub fn generate_client_methods(message_enum_name: &str, methods: &Vec<Method>) -> (calls: Vec<
    ClientMethod,
>)
    ensures
        calls.deep_view() == client_methods(message_enum_name@, methods.deep_view()),
{
    let mut calls: Vec<ClientMethod> = Vec::new();
    let mut i: usize = 0;
    while i < methods.len()
        invariant
            i <= methods.len(),
            calls.deep_view() == client_methods(
                message_enum_name@,
                methods.deep_view().take(i as int),
            ),
        decreases methods.len() - i,
    {
        let ghost before = calls.deep_view();
        let method = &methods[i];
        let variant = to_upper_camel_case(method.name.as_str());
        let call = client_method_for(message_enum_name, method, variant);
        calls.push(call);
        assert(calls.deep_view() =~= before.push(call.deep_view()));
        assert(client_methods(message_enum_name@, methods.deep_view().take(i + 1))
            =~= before.push(call.deep_view()));
        i += 1;
    }
    assert(methods.deep_view().take(i as int) =~= methods.deep_view());
    calls
}

/// A method of the interface as a client has it: it hands `arguments` on to the client's call
/// of the same name.
#[derive(Debug, PartialEq, Eq)]
pub struct ForwardedMethod {
    pub name: String,
    pub arguments: Vec<String>,
}

/// What a [`ForwardedMethod`] stands for in contracts: the same, with each text as its characters.
pub struct ForwardedMethodView {
    pub name: Seq<char>,
    pub arguments: Seq<Seq<char>>,
}

impl DeepView for ForwardedMethod {
    type V = ForwardedMethodView;

    open spec fn deep_view(&self) -> ForwardedMethodView {
        ForwardedMethodView { name: self.name@, arguments: self.arguments.deep_view() }
    }
}

/// The interface, implemented for every client of it.
#[derive(Debug, PartialEq, Eq)]
pub struct ClientImpl {
    pub interface: String,
    pub client_trait: String,
    pub methods: Vec<ForwardedMethod>,
}

/// What a [`ClientImpl`] stands for in contracts: the same, with each text as its characters.
pub struct ClientImplView {
    pub interface: Seq<char>,
    pub client_trait: Seq<char>,
    pub methods: Seq<ForwardedMethodView>,
}

impl DeepView for ClientImpl {
    type V = ClientImplView;

    open spec fn deep_view(&self) -> ClientImplView {
        ClientImplView {
            interface: self.interface@,
            client_trait: self.client_trait@,
            methods: self.methods.deep_view(),
        }
    }
}

/// Whether `input` is an argument bound by a plain identifier.
pub open spec fn names_argument(input: InputView) -> bool {
    input matches InputView::Typed(argument) && argument.is_identifier
}

/// Whether every input of `method` after the first is an argument bound by a plain identifier.
/// Only such a method can be handed on to a client's call.
pub open spec fn forwardable(method: MethodView) -> bool {
    forall|j: int| 1 <= j < method.inputs.len() ==> names_argument(#[trigger] method.inputs[j])
}

/// Whether every one of `methods` can be handed on to a client's call.
pub open spec fn all_forwardable(methods: Seq<MethodView>) -> bool {
    forall|i: int| 0 <= i < methods.len() ==> forwardable(#[trigger] methods[i])
}

/// The text that binds `input`.
pub open spec fn binding_of(input: InputView) -> Seq<char> {
    match input {
        InputView::Typed(argument) => argument.pattern,
        InputView::Receiver(text) => text,
    }
}

/// What a forwarded method hands on: the bindings of its inputs but the first, in order.
pub open spec fn forwarded_arguments(inputs: Seq<InputView>) -> Seq<Seq<char>> {
    if inputs.len() == 0 {
        Seq::empty()
    } else {
        inputs.skip(1).map_values(|input: InputView| binding_of(input))
    }
}

pub open spec fn forwarded_method(method: MethodView) -> ForwardedMethodView {
    ForwardedMethodView { name: method.name, arguments: forwarded_arguments(method.inputs) }
}

/// The interface `interface`, implemented for every client: each method hands its arguments
/// on to the call of the same name in `client_trait`.
pub open spec fn client_impl(
    interface: Seq<char>,
    client_trait: Seq<char>,
    methods: Seq<MethodView>,
) -> ClientImplView {
    ClientImplView {
        interface,
        client_trait,
        methods: methods.map_values(|method: MethodView| forwarded_method(method)),
    }
}

/// Whether `method` can be handed on to a client's call.
pub fn is_forwardable(method: &Method) -> (yes: bool)
    ensures
        yes == forwardable(method.deep_view()),
{
    let mut j: usize = 1;
    while j < method.inputs.len()
        invariant
            1 <= j,
            forall|k: int|
                1 <= k < j && k < method.inputs.len() ==> names_argument(
                    #[trigger] method.deep_view().inputs[k],
                ),
        decreases method.inputs.len() - j,
    {
        let named = match &method.inputs[j] {
            Input::Typed(argument) => argument.is_identifier,
            Input::Receiver(_) => false,
        };
        if !named {
            assert(!names_argument(method.deep_view().inputs[j as int]));
            return false;
        }
        j += 1;
    }
    true
}

/// Whether every one of `methods` can be handed on to a client's call.
pub fn are_forwardable(methods: &Vec<Method>) -> (yes: bool)
    ensures
        yes == all_forwardable(methods.deep_view()),
{
    let mut i: usize = 0;
    while i < methods.len()
        invariant
            i <= methods.len(),
            forall|k: int| 0 <= k < i ==> forwardable(#[trigger] methods.deep_view()[k]),
        decreases methods.len() - i,
    {
        if !is_forwardable(&methods[i]) {
            assert(!forwardable(methods.deep_view()[i as int]));
            return false;
        }
        i += 1;
    }
    true
}

/// `method` as a client has it.
pub fn forwarded_method_for(method: &Method) -> (forwarded: ForwardedMethod)
    requires
        forwardable(method.deep_view()),
    ensures
        forwarded.deep_view() == forwarded_method(method.deep_view()),
{
    let mut arguments: Vec<String> = Vec::new();
    let mut j: usize = 1;
    while j < method.inputs.len()
        invariant
            1 <= j,
            forwardable(method.deep_view()),
            method.inputs.len() == 0 ==> j == 1,
            method.inputs.len() > 0 ==> j <= method.inputs.len(),
            arguments.len() == j - 1,
            forall|k: int|
                0 <= k < arguments.len() ==> #[trigger] arguments.deep_view()[k] == binding_of(
                    method.deep_view().inputs[k + 1],
                ),
        decreases method.inputs.len() - j,
    {
        let ghost before = arguments.deep_view();
        assert(names_argument(method.deep_view().inputs[j as int]));
        match &method.inputs[j] {
            Input::Typed(argument) => {
                arguments.push(argument.pattern.clone());
                assert(arguments.deep_view() =~= before.push(argument.pattern@));
            },
            Input::Receiver(_) => {},
        }
        j += 1;
    }
    assert(arguments.deep_view() =~= forwarded_arguments(method.deep_view().inputs)) by {
        let inputs = method.deep_view().inputs;
        if inputs.len() > 0 {
            assert forall|k: int| 0 <= k < arguments.len() implies arguments.deep_view()[k]
                == forwarded_arguments(inputs)[k] by {
                assert(inputs.skip(1)[k] == inputs[k + 1]);
            }
        }
    }
    ForwardedMethod { name: method.name.clone(), arguments }
}

/// The interface `trait_name`, implemented for every client of it.
pub fn generate_trait_impl_for_client(
    trait_name: &str,
    client_trait_name: &str,
    methods: &Vec<Method>,
) -> (implementation: ClientImpl)
    requires
        all_forwardable(methods.deep_view()),
    ensures
        implementation.deep_view() == client_impl(
            trait_name@,
            client_trait_name@,
            methods.deep_view(),
        ),
{
    let mut forwarded: Vec<ForwardedMethod> = Vec::new();
    let mut i: usize = 0;
    while i < methods.len()
        invariant
            i <= methods.len(),
            all_forwardable(methods.deep_view()),
            forwarded.deep_view() == methods.deep_view().take(i as int).map_values(
                |method: MethodView| forwarded_method(method),
            ),
        decreases methods.len() - i,
    {
        let ghost before = forwarded.deep_view();
        assert(forwardable(methods.deep_view()[i as int]));
        let method = forwarded_method_for(&methods[i]);
        forwarded.push(method);
        assert(forwarded.deep_view() =~= before.push(method.deep_view()));
        assert(methods.deep_view().take(i + 1).map_values(
            |method: MethodView| forwarded_method(method),
        ) =~= before.push(method.deep_view()));
        i += 1;
    }
    assert(methods.deep_view().take(i as int) =~= methods.deep_view());
    ClientImpl {
        interface: String::from_str(trait_name),
        client_trait: String::from_str(client_trait_name),
        methods: forwarded,
    }
}

} // verus!
