//! The description of an interface: a trait, its methods and their inputs.

use vstd::prelude::*;

verus! {

/// An argument of a method that is not its receiver.
#[derive(Debug, PartialEq, Eq)]
pub struct Argument {
    /// The pattern that binds the argument, as source text.
    pub pattern: String,
    /// Whether the pattern is a plain identifier.
    pub is_identifier: bool,
    /// The argument's type, as source text.
    pub ty: String,
}

/// What a [`Argument`] stands for in contracts: the same, with each text as its characters.
pub struct ArgumentView {
    pub pattern: Seq<char>,
    pub is_identifier: bool,
    pub ty: Seq<char>,
}

impl DeepView for Argument {
    type V = ArgumentView;

    open spec fn deep_view(&self) -> ArgumentView {
        ArgumentView { pattern: self.pattern@, is_identifier: self.is_identifier, ty: self.ty@ }
    }
}

/// One input of a method, in declaration order.
#[derive(Debug, PartialEq, Eq)]
pub enum Input {
    /// The receiver (`self` in any form), as source text.
    Receiver(String),
    /// Any other argument.
    Typed(Argument),
}

/// What a [`Input`] stands for in contracts: the same, with each text as its characters.
pub enum InputView {
    Receiver(Seq<char>),
    Typed(ArgumentView),
}

impl DeepView for Input {
    type V = InputView;

    open spec fn deep_view(&self) -> InputView {
        match self {
            Input::Receiver(text) => InputView::Receiver(text@),
            Input::Typed(argument) => InputView::Typed(argument.deep_view()),
        }
    }
}

/// A method of an interface.
#[derive(Debug, PartialEq, Eq)]
pub struct Method {
    pub name: String,
    pub inputs: Vec<Input>,
    /// The declared return type, as source text; `None` where the method declares none.
    pub output: Option<String>,
}

/// What a [`Method`] stands for in contracts: the same, with each text as its characters.
pub struct MethodView {
    pub name: Seq<char>,
    pub inputs: Seq<InputView>,
    pub output: Option<Seq<char>>,
}

impl DeepView for Method {
    type V = MethodView;

    open spec fn deep_view(&self) -> MethodView {
        MethodView {
            name: self.name@,
            inputs: self.inputs.deep_view(),
            output: self.output.deep_view(),
        }
    }
}

/// What a request carries, or what a call site hands over: nothing, one part, or a tuple of
/// two or more parts in declaration order.
#[derive(Debug, PartialEq, Eq)]
pub enum Payload {
    Unit,
    Single(String),
    Tuple(Vec<String>),
}

/// What a [`Payload`] stands for in contracts: the same, with each text as its characters.
pub enum PayloadView {
    Unit,
    Single(Seq<char>),
    Tuple(Seq<Seq<char>>),
}

impl DeepView for Payload {
    type V = PayloadView;

    open spec fn deep_view(&self) -> PayloadView {
        match self {
            Payload::Unit => PayloadView::Unit,
            Payload::Single(part) => PayloadView::Single(part@),
            Payload::Tuple(parts) => PayloadView::Tuple(parts.deep_view()),
        }
    }
}

/// The inputs that are not a receiver, in order.
pub open spec fn typed_arguments(inputs: Seq<InputView>) -> Seq<ArgumentView>
    decreases inputs.len(),
{
    if inputs.len() == 0 {
        Seq::empty()
    } else {
        let earlier = typed_arguments(inputs.drop_last());
        match inputs.last() {
            InputView::Typed(argument) => earlier.push(argument),
            InputView::Receiver(_) => earlier,
        }
    }
}

/// The types of the inputs that are not a receiver, in order.
pub open spec fn argument_types(inputs: Seq<InputView>) -> Seq<Seq<char>> {
    typed_arguments(inputs).map_values(|argument: ArgumentView| argument.ty)
}

/// The patterns of the inputs that are not a receiver, in order.
pub open spec fn argument_patterns(inputs: Seq<InputView>) -> Seq<Seq<char>> {
    typed_arguments(inputs).map_values(|argument: ArgumentView| argument.pattern)
}

/// No part gives the unit, one part gives itself, more give their tuple.
pub open spec fn payload_of(parts: Seq<Seq<char>>) -> PayloadView {
    if parts.len() == 0 {
        PayloadView::Unit
    } else if parts.len() == 1 {
        PayloadView::Single(parts[0])
    } else {
        PayloadView::Tuple(parts)
    }
}

/// The response type of a method: its declared return type, or the unit type.
pub open spec fn response_type(output: Option<Seq<char>>) -> Seq<char> {
    match output {
        Some(ty) => ty,
        None => "()"@,
    }
}

pub(crate) proof fn lemma_typed_arguments_step(inputs: Seq<InputView>, i: int)
    requires
        0 <= i < inputs.len(),
    ensures
        typed_arguments(inputs.take(i + 1)) == match inputs[i] {
            InputView::Typed(argument) => typed_arguments(inputs.take(i)).push(argument),
            InputView::Receiver(_) => typed_arguments(inputs.take(i)),
        },
{
    assert(inputs.take(i + 1).drop_last() =~= inputs.take(i));
}

/// The types of the arguments of a method, receiver left out.
pub(crate) fn collect_types(inputs: &Vec<Input>) -> (types: Vec<String>)
    ensures
        types.deep_view() == argument_types(inputs.deep_view()),
{
    let mut types: Vec<String> = Vec::new();
    let mut i: usize = 0;
    while i < inputs.len()
        invariant
            i <= inputs.len(),
            types.deep_view() == argument_types(inputs.deep_view().take(i as int)),
        decreases inputs.len() - i,
    {
        let ghost before = types.deep_view();
        proof {
            lemma_typed_arguments_step(inputs.deep_view(), i as int);
        }
        match &inputs[i] {
            Input::Typed(argument) => {
                types.push(argument.ty.clone());
                assert(types.deep_view() =~= before.push(argument.ty@));
                assert(argument_types(inputs.deep_view().take(i + 1)) =~= before.push(
                    argument.ty@,
                ));
            },
            Input::Receiver(_) => {},
        }
        i += 1;
    }
    assert(inputs.deep_view().take(i as int) =~= inputs.deep_view());
    types
}

/// The payload made of `parts`.
pub fn payload_from(parts: Vec<String>) -> (payload: Payload)
    ensures
        payload.deep_view() == payload_of(parts.deep_view()),
{
    if parts.len() == 0 {
        Payload::Unit
    } else if parts.len() == 1 {
        Payload::Single(parts[0].clone())
    } else {
        Payload::Tuple(parts)
    }
}

/// The response type of a method whose declared return type is `output`.
pub fn response_type_of(output: &Option<String>) -> (ty: String)
    ensures
        ty@ == response_type(output.deep_view()),
{
    match output {
        Some(ty) => ty.clone(),
        None => String::from_str("()"),
    }
}

/// The patterns of the arguments of a method, receiver left out.
pub(crate) fn collect_patterns(inputs: &Vec<Input>) -> (patterns: Vec<String>)
    ensures
        patterns.deep_view() == argument_patterns(inputs.deep_view()),
{
    let mut patterns: Vec<String> = Vec::new();
    let mut i: usize = 0;
    while i < inputs.len()
        invariant
            i <= inputs.len(),
            patterns.deep_view() == argument_patterns(inputs.deep_view().take(i as int)),
        decreases inputs.len() - i,
    {
        let ghost before = patterns.deep_view();
        proof {
            lemma_typed_arguments_step(inputs.deep_view(), i as int);
        }
        match &inputs[i] {
            Input::Typed(argument) => {
                patterns.push(argument.pattern.clone());
                assert(patterns.deep_view() =~= before.push(argument.pattern@));
                assert(argument_patterns(inputs.deep_view().take(i + 1)) =~= before.push(
                    argument.pattern@,
                ));
            },
            Input::Receiver(_) => {},
        }
        i += 1;
    }
    assert(inputs.deep_view().take(i as int) =~= inputs.deep_view());
    patterns
}

/// An item in the body of a trait.
#[derive(Debug, PartialEq, Eq)]
pub enum TraitItem {
    Method(Method),
    /// Anything that is not a method.
    Other,
}

/// What a [`TraitItem`] stands for in contracts: the same, with each text as its characters.
pub enum TraitItemView {
    Method(MethodView),
    Other,
}

impl DeepView for TraitItem {
    type V = TraitItemView;

    open spec fn deep_view(&self) -> TraitItemView {
        match self {
            TraitItem::Method(method) => TraitItemView::Method(method.deep_view()),
            TraitItem::Other => TraitItemView::Other,
        }
    }
}

/// A trait that describes an interface.
#[derive(Debug, PartialEq, Eq)]
pub struct TraitDeclaration {
    pub name: String,
    pub items: Vec<TraitItem>,
}

/// What a [`TraitDeclaration`] stands for in contracts: the same, with each text as its characters.
pub struct TraitDeclarationView {
    pub name: Seq<char>,
    pub items: Seq<TraitItemView>,
}

impl DeepView for TraitDeclaration {
    type V = TraitDeclarationView;

    open spec fn deep_view(&self) -> TraitDeclarationView {
        TraitDeclarationView { name: self.name@, items: self.items.deep_view() }
    }
}

/// What an interface description is read from.
#[derive(Debug, PartialEq, Eq)]
pub enum Item {
    Trait(TraitDeclaration),
    /// Anything that is not a trait.
    Other,
}

/// What a [`Item`] stands for in contracts: the same, with each text as its characters.
pub enum ItemView {
    Trait(TraitDeclarationView),
    Other,
}

impl DeepView for Item {
    type V = ItemView;

    open spec fn deep_view(&self) -> ItemView {
        match self {
            Item::Trait(declaration) => ItemView::Trait(declaration.deep_view()),
            Item::Other => ItemView::Other,
        }
    }
}

/// The methods among `items`, in order.
pub open spec fn declared_methods(items: Seq<TraitItemView>) -> Seq<MethodView>
    decreases items.len(),
{
    if items.len() == 0 {
        Seq::empty()
    } else {
        let earlier = declared_methods(items.drop_last());
        match items.last() {
            TraitItemView::Method(method) => earlier.push(method),
            TraitItemView::Other => earlier,
        }
    }
}

pub(crate) fn copy_input(input: &Input) -> (copy: Input)
    ensures
        copy.deep_view() == input.deep_view(),
{
    match input {
        Input::Receiver(text) => Input::Receiver(text.clone()),
        Input::Typed(argument) => Input::Typed(
            Argument {
                pattern: argument.pattern.clone(),
                is_identifier: argument.is_identifier,
                ty: argument.ty.clone(),
            },
        ),
    }
}

pub(crate) fn copy_method(method: &Method) -> (copy: Method)
    ensures
        copy.deep_view() == method.deep_view(),
{
    let mut inputs: Vec<Input> = Vec::new();
    let mut i: usize = 0;
    while i < method.inputs.len()
        invariant
            i <= method.inputs.len(),
            inputs.deep_view() == method.inputs.deep_view().take(i as int),
        decreases method.inputs.len() - i,
    {
        let ghost before = inputs.deep_view();
        let input = copy_input(&method.inputs[i]);
        inputs.push(input);
        assert(inputs.deep_view() =~= before.push(input.deep_view()));
        assert(method.inputs.deep_view().take(i + 1) =~= before.push(input.deep_view()));
        i += 1;
    }
    assert(method.inputs.deep_view().take(i as int) =~= method.inputs.deep_view());
    let output = match &method.output {
        Some(ty) => Some(ty.clone()),
        None => None,
    };
    Method { name: method.name.clone(), inputs, output }
}

/// The methods among the items of a trait, in order.
pub fn methods_of(items: &Vec<TraitItem>) -> (methods: Vec<Method>)
    ensures
        methods.deep_view() == declared_methods(items.deep_view()),
{
    let mut methods: Vec<Method> = Vec::new();
    let mut i: usize = 0;
    while i < items.len()
        invariant
            i <= items.len(),
            methods.deep_view() == declared_methods(items.deep_view().take(i as int)),
        decreases items.len() - i,
    {
        let ghost before = methods.deep_view();
        assert(items.deep_view().take(i + 1).drop_last() =~= items.deep_view().take(i as int));
        match &items[i] {
            TraitItem::Method(method) => {
                let copy = copy_method(method);
                methods.push(copy);
                assert(methods.deep_view() =~= before.push(copy.deep_view()));
            },
            TraitItem::Other => {},
        }
        i += 1;
    }
    assert(items.deep_view().take(i as int) =~= items.deep_view());
    methods
}

} // verus!
