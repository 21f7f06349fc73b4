//! The message type of an interface: one variant per method.

use vstd::prelude::*;
use crate::rpc::description::{
    argument_types, collect_types, payload_from, payload_of, response_type, response_type_of, Method,
    MethodView, Payload, PayloadView,
};
use crate::text::{to_upper_camel_case, upper_camel_case};

verus! {

/// One variant of the message type of an interface: a request whose content is `content` and
/// whose response has type `response`.
#[derive(Debug, PartialEq, Eq)]
pub struct Variant {
    pub name: String,
    pub content: Payload,
    pub response: String,
}

/// What a [`Variant`] stands for in contracts: the same, with each text as its characters.
pub struct VariantView {
    pub name: Seq<char>,
    pub content: PayloadView,
    pub response: Seq<char>,
}

impl DeepView for Variant {
    type V = VariantView;

    open spec fn deep_view(&self) -> VariantView {
        VariantView {
            name: self.name@,
            content: self.content.deep_view(),
            response: self.response@,
        }
    }
}

/// The variant that stands for `method` under the name `name`.
pub open spec fn enum_variant(method: MethodView, name: Seq<char>) -> VariantView {
    VariantView {
        name,
        content: payload_of(argument_types(method.inputs)),
        response: response_type(method.output),
    }
}

/// The variants of the message type, one per method and in the methods' order, each named by
/// the upper camel case form of its method's name.
pub open spec fn enum_variants(methods: Seq<MethodView>) -> Seq<VariantView> {
    methods.map_values(|method: MethodView| enum_variant(method, upper_camel_case(method.name)))
}

/// The variant that stands for `method` under the name `name`.
pub fn variant_for(method: &Method, name: String) -> (variant: Variant)
    ensures
        variant.deep_view() == enum_variant(method.deep_view(), name@),
{
    let content = payload_from(collect_types(&method.inputs));
    Variant { name, content, response: response_type_of(&method.output) }
}

/// The variants of the message type of an interface with these methods.
pub fn generate_enum_variants(methods: &Vec<Method>) -> (variants: Vec<Variant>)
    ensures
        variants.deep_view() == enum_variants(methods.deep_view()),
{
    let mut variants: Vec<Variant> = Vec::new();
    let mut i: usize = 0;
    while i < methods.len()
        invariant
            i <= methods.len(),
            variants.deep_view() == enum_variants(methods.deep_view().take(i as int)),
        decreases methods.len() - i,
    {
        let ghost before = variants.deep_view();
        let method = &methods[i];
        let name = to_upper_camel_case(method.name.as_str());
        let variant = variant_for(method, name);
        variants.push(variant);
        assert(variants.deep_view() =~= before.push(variant.deep_view()));
        assert(enum_variants(methods.deep_view().take(i + 1)) =~= before.push(
            variant.deep_view(),
        ));
        i += 1;
    }
    assert(methods.deep_view().take(i as int) =~= methods.deep_view());
    variants
}

} // verus!
