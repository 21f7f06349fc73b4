//! From the description of an interface to the parts of its request/response protocol: the
//! message type, what a client does for each method, and how a server dispatches each request.

pub mod client;
pub mod description;
pub mod message;
pub mod server;

use vstd::prelude::*;
use crate::rpc::client::{
    all_forwardable, are_forwardable, client_impl, client_methods, generate_client_methods,
    generate_trait_impl_for_client, ClientImpl, ClientImplView, ClientMethod, ClientMethodView,
};
use crate::rpc::description::{
    declared_methods, methods_of, Item, ItemView, Method, MethodView, PayloadView,
    TraitDeclaration, TraitDeclarationView,
};
use crate::rpc::message::{enum_variants, generate_enum_variants, Variant, VariantView};
use crate::rpc::server::{
    generate_server_impl, generate_server_trait_impl, server_arms, InvocationView, ServerArm,
    ServerArmView, ServerImpl, ServerImplView,
};
use crate::text::joined;

verus! {

/// The protocol of an interface: its message type, what a client does for each method, and
/// how a server dispatches each request.
#[derive(Debug, PartialEq, Eq)]
pub struct RpcInterface {
    pub message_type: String,
    pub client_trait: String,
    pub server_trait: String,
    pub methods: Vec<Method>,
    pub variants: Vec<Variant>,
    pub client_methods: Vec<ClientMethod>,
    pub client_impl: ClientImpl,
    pub server_arms: Vec<ServerArm>,
    pub server_impl: ServerImpl,
}

/// What a [`RpcInterface`] stands for in contracts: the same, with each text as its characters.
pub struct RpcInterfaceView {
    pub message_type: Seq<char>,
    pub client_trait: Seq<char>,
    pub server_trait: Seq<char>,
    pub methods: Seq<MethodView>,
    pub variants: Seq<VariantView>,
    pub client_methods: Seq<ClientMethodView>,
    pub client_impl: ClientImplView,
    pub server_arms: Seq<ServerArmView>,
    pub server_impl: ServerImplView,
}

impl DeepView for RpcInterface {
    type V = RpcInterfaceView;

    open spec fn deep_view(&self) -> RpcInterfaceView {
        RpcInterfaceView {
            message_type: self.message_type@,
            client_trait: self.client_trait@,
            server_trait: self.server_trait@,
            methods: self.methods.deep_view(),
            variants: self.variants.deep_view(),
            client_methods: self.client_methods.deep_view(),
            client_impl: self.client_impl.deep_view(),
            server_arms: self.server_arms.deep_view(),
            server_impl: self.server_impl.deep_view(),
        }
    }
}

/// Whether the protocol of `item` is defined: it is a trait, and each of its methods can be
/// handed on to a client's call.
pub open spec fn describes_interface(item: ItemView) -> bool {
    match item {
        ItemView::Trait(declaration) => all_forwardable(declared_methods(declaration.items)),
        ItemView::Other => false,
    }
}

/// The protocol of the interface that `declaration` describes. The message type and the two
/// capabilities are named after the trait.
pub open spec fn rpc_interface(declaration: TraitDeclarationView) -> RpcInterfaceView {
    let message_type = declaration.name + "Message"@;
    let client_trait = declaration.name + "Client"@;
    let server_trait = declaration.name + "Server"@;
    let methods = declared_methods(declaration.items);
    RpcInterfaceView {
        message_type,
        client_trait,
        server_trait,
        methods,
        variants: enum_variants(methods),
        client_methods: client_methods(message_type, methods),
        client_impl: client_impl(declaration.name, client_trait, methods),
        server_arms: server_arms(message_type, declaration.name, methods),
        server_impl: ServerImplView { server_trait, message_type, interface: declaration.name },
    }
}

/// Why an item has no protocol.
#[derive(Clone, Copy, Debug, PartialEq, Eq, Structural)]
pub enum InterfaceError {
    /// The item is not a trait.
    NotATrait,
    /// A method has, after its first input, an input that is a receiver or is not bound by a
    /// plain identifier: a client cannot hand it on.
    UnsupportedArgument,
}

/// Whether the protocol of `input` is defined.
pub fn is_interface(input: &Item) -> (yes: bool)
    ensures
        yes == describes_interface(input.deep_view()),
{
    match input {
        Item::Trait(declaration) => are_forwardable(&methods_of(&declaration.items)),
        Item::Other => false,
    }
}

/// The protocol of the interface that the trait `declaration` describes.
pub fn interface_of(declaration: &TraitDeclaration) -> (interface: RpcInterface)
    requires
        all_forwardable(declared_methods(declaration.deep_view().items)),
    ensures
        interface.deep_view() == rpc_interface(declaration.deep_view()),
{
    let trait_name = declaration.name.as_str();
    let message_type = joined(trait_name, "Message");
    let client_trait = joined(trait_name, "Client");
    let server_trait = joined(trait_name, "Server");
    let methods = methods_of(&declaration.items);
    let variants = generate_enum_variants(&methods);
    let client_methods = generate_client_methods(message_type.as_str(), &methods);
    let client_impl = generate_trait_impl_for_client(trait_name, client_trait.as_str(), &methods);
    let server_arms = generate_server_impl(message_type.as_str(), trait_name, &methods);
    let server_impl = generate_server_trait_impl(
        server_trait.as_str(),
        message_type.as_str(),
        trait_name,
    );
    RpcInterface {
        message_type,
        client_trait,
        server_trait,
        methods,
        variants,
        client_methods,
        client_impl,
        server_arms,
        server_impl,
    }
}

/// The protocol of the interface that `input` describes, or why it has none.
pub fn generate_rpc_interface(input: &Item) -> (generated: Result<RpcInterface, InterfaceError>)
    ensures
        match input.deep_view() {
            ItemView::Other => generated == Err::<RpcInterface, InterfaceError>(
                InterfaceError::NotATrait,
            ),
            ItemView::Trait(declaration) => if all_forwardable(
                declared_methods(declaration.items),
            ) {
                generated matches Ok(interface) && interface.deep_view() == rpc_interface(
                    declaration,
                )
            } else {
                generated == Err::<RpcInterface, InterfaceError>(
                    InterfaceError::UnsupportedArgument,
                )
            },
        },
{
    match input {
        Item::Trait(declaration) => {
            if is_interface(input) {
                Ok(interface_of(declaration))
            } else {
                Err(InterfaceError::UnsupportedArgument)
            }
        },
        Item::Other => Err(InterfaceError::NotATrait),
    }
}

/// Whether two payloads have the same form: both the unit, both one part, or both tuples of
/// as many parts.
pub open spec fn same_form(one: PayloadView, other: PayloadView) -> bool {
    match (one, other) {
        (PayloadView::Unit, PayloadView::Unit) => true,
        (PayloadView::Single(_), PayloadView::Single(_)) => true,
        (PayloadView::Tuple(parts), PayloadView::Tuple(others)) => parts.len() == others.len(),
        _ => false,
    }
}

/// Whether a server that calls its handler as `invocation` says reads a request whose content
/// has the form of `content`: nothing of the unit, the content itself where it is one part, as
/// many bindings as a tuple has parts.
pub open spec fn takes_apart(invocation: InvocationView, content: PayloadView) -> bool {
    match (invocation, content) {
        (InvocationView::NoArguments, PayloadView::Unit) => true,
        (InvocationView::Content, PayloadView::Single(_)) => true,
        (InvocationView::Destructured(bindings), PayloadView::Tuple(parts)) => bindings.len()
            == parts.len(),
        _ => false,
    }
}

/// Client and server of one interface speak of the same messages. The protocol has one
/// variant, one call and one arm for each method, in the methods' order. For each method,
/// the call publishes the variant that the arm handles, of the message type that the arm
/// matches on; what the call puts into the request has the form of the variant's content,
/// which the arm takes apart; and the call returns a value of the variant's response type.
pub proof fn client_and_server_agree(declaration: TraitDeclarationView, i: int)
    requires
        0 <= i < declared_methods(declaration.items).len(),
    ensures
        ({
            let interface = rpc_interface(declaration);
            let variant = interface.variants[i];
            let call = interface.client_methods[i];
            let arm = interface.server_arms[i];
            &&& interface.variants.len() == interface.methods.len()
            &&& interface.client_methods.len() == interface.methods.len()
            &&& interface.server_arms.len() == interface.methods.len()
            &&& interface.client_impl.methods.len() == interface.methods.len()
            &&& call.name == interface.methods[i].name
            &&& arm.method == interface.methods[i].name
            &&& interface.client_impl.methods[i].name == interface.methods[i].name
            &&& call.variant == variant.name
            &&& arm.variant == variant.name
            &&& call.message_type == interface.message_type
            &&& arm.message_type == interface.message_type
            &&& call.output == variant.response
            &&& same_form(call.request_content, variant.content)
            &&& takes_apart(arm.invocation, variant.content)
        }),
{
}

} // verus!
