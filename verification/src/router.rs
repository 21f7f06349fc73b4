//! A struct that owns several typed publishers, and how each message type finds its field.

use vstd::prelude::*;
use crate::error::BindError;

verus! {

/// A named field of a struct.
#[derive(Debug, PartialEq, Eq)]
pub struct Field {
    pub name: String,
    /// The message type that the field publishes, as source text, where the field is marked as
    /// a publisher.
    pub publishes: Option<String>,
}

/// What a [`Field`] stands for in contracts: the same, with each text as its characters.
pub struct FieldView {
    pub name: Seq<char>,
    pub publishes: Option<Seq<char>>,
}

impl DeepView for Field {
    type V = FieldView;

    open spec fn deep_view(&self) -> FieldView {
        FieldView { name: self.name@, publishes: self.publishes.deep_view() }
    }
}

/// The fields of a struct.
#[derive(Debug, PartialEq, Eq)]
pub enum Fields {
    Named(Vec<Field>),
    Unnamed,
    Unit,
}

/// What a [`Fields`] stands for in contracts: the same, with each text as its characters.
pub enum FieldsView {
    Named(Seq<FieldView>),
    Unnamed,
    Unit,
}

impl DeepView for Fields {
    type V = FieldsView;

    open spec fn deep_view(&self) -> FieldsView {
        match self {
            Fields::Named(fields) => FieldsView::Named(fields.deep_view()),
            Fields::Unnamed => FieldsView::Unnamed,
            Fields::Unit => FieldsView::Unit,
        }
    }
}

/// The body of a type definition.
#[derive(Debug, PartialEq, Eq)]
pub enum Data {
    Struct(Fields),
    Enum,
    Union,
}

/// What a [`Data`] stands for in contracts: the same, with each text as its characters.
pub enum DataView {
    Struct(FieldsView),
    Enum,
    Union,
}

impl DeepView for Data {
    type V = DataView;

    open spec fn deep_view(&self) -> DataView {
        match self {
            Data::Struct(fields) => DataView::Struct(fields.deep_view()),
            Data::Enum => DataView::Enum,
            Data::Union => DataView::Union,
        }
    }
}

/// A type definition that asks to be a publisher.
#[derive(Debug, PartialEq, Eq)]
pub struct DeriveInput {
    pub name: String,
    pub data: Data,
}

/// What a [`DeriveInput`] stands for in contracts: the same, with each text as its characters.
pub struct DeriveInputView {
    pub name: Seq<char>,
    pub data: DataView,
}

impl DeepView for DeriveInput {
    type V = DeriveInputView;

    open spec fn deep_view(&self) -> DeriveInputView {
        DeriveInputView { name: self.name@, data: self.data.deep_view() }
    }
}

/// Messages of type `message_type` go to the publisher in `field`.
#[derive(Debug, PartialEq, Eq)]
pub struct Route {
    pub field: String,
    pub message_type: String,
}

/// What a [`Route`] stands for in contracts: the same, with each text as its characters.
pub struct RouteView {
    pub field: Seq<char>,
    pub message_type: Seq<char>,
}

impl DeepView for Route {
    type V = RouteView;

    open spec fn deep_view(&self) -> RouteView {
        RouteView { field: self.field@, message_type: self.message_type@ }
    }
}

/// How a struct is a publisher.
#[derive(Debug, PartialEq, Eq)]
pub enum Routing {
    /// It has one publisher field and is itself a publisher of that field's message type:
    /// name, publish and bind all go to the field.
    Direct(Route),
    /// It has two or more publisher fields and gives access to each by its message type.
    ByType(Vec<Route>),
}

/// What a [`Routing`] stands for in contracts: the same, with each text as its characters.
pub enum RoutingView {
    Direct(RouteView),
    ByType(Seq<RouteView>),
}

impl DeepView for Routing {
    type V = RoutingView;

    open spec fn deep_view(&self) -> RoutingView {
        match self {
            Routing::Direct(route) => RoutingView::Direct(route.deep_view()),
            Routing::ByType(routes) => RoutingView::ByType(routes.deep_view()),
        }
    }
}

/// Why a type definition cannot be a publisher.
#[derive(Clone, Copy, Debug, PartialEq, Eq)]
pub enum DeriveError {
    /// It is not a struct.
    NotAStruct,
    /// Its fields have no names.
    UnnamedFields,
    /// Its fields do not say where each message type goes: it has no publisher field, or two
    /// for one message type.
    Unroutable(BindError),
}

/// The routes of the publisher fields among `fields`, in order.
pub open spec fn publisher_routes(fields: Seq<FieldView>) -> Seq<RouteView>
    decreases fields.len(),
{
    if fields.len() == 0 {
        Seq::empty()
    } else {
        let earlier = publisher_routes(fields.drop_last());
        match fields.last().publishes {
            Some(message_type) => earlier.push(
                RouteView { field: fields.last().name, message_type },
            ),
            None => earlier,
        }
    }
}

/// No two routes are for the same message type.
pub open spec fn distinct_types(routes: Seq<RouteView>) -> bool {
    forall|i: int, j: int|
        0 <= i < j < routes.len() ==> (#[trigger] routes[i]).message_type != (
        #[trigger] routes[j]).message_type
}

/// How the type that `input` defines is a publisher, or why it is none.
pub open spec fn derived(input: DeriveInputView) -> Result<RoutingView, DeriveError> {
    match input.data {
        DataView::Struct(FieldsView::Named(fields)) => {
            let routes = publisher_routes(fields);
            if routes.len() == 0 {
                Err(DeriveError::Unroutable(BindError::NoPublisherField))
            } else if !distinct_types(routes) {
                Err(DeriveError::Unroutable(BindError::AmbiguousMessageType))
            } else if routes.len() == 1 {
                Ok(RoutingView::Direct(routes[0]))
            } else {
                Ok(RoutingView::ByType(routes))
            }
        },
        DataView::Struct(_) => Err(DeriveError::UnnamedFields),
        _ => Err(DeriveError::NotAStruct),
    }
}

/// The routes of the publisher fields among `fields`, in order.
pub fn find_all_publisher_fields(fields: &Vec<Field>) -> (routes: Vec<Route>)
    ensures
        routes.deep_view() == publisher_routes(fields.deep_view()),
{
    let mut routes: Vec<Route> = Vec::new();
    let mut i: usize = 0;
    while i < fields.len()
        invariant
            i <= fields.len(),
            routes.deep_view() == publisher_routes(fields.deep_view().take(i as int)),
        decreases fields.len() - i,
    {
        let ghost before = routes.deep_view();
        assert(fields.deep_view().take(i + 1).drop_last() =~= fields.deep_view().take(i as int));
        let field = &fields[i];
        match &field.publishes {
            Some(message_type) => {
                let route = Route { field: field.name.clone(), message_type: message_type.clone() };
                routes.push(route);
                assert(routes.deep_view() =~= before.push(route.deep_view()));
            },
            None => {},
        }
        i += 1;
    }
    assert(fields.deep_view().take(i as int) =~= fields.deep_view());
    routes
}

/// Whether no two of `routes` are for the same message type.
pub fn has_distinct_types(routes: &Vec<Route>) -> (yes: bool)
    ensures
        yes == distinct_types(routes.deep_view()),
{
    let mut j: usize = 0;
    while j < routes.len()
        invariant
            j <= routes.len(),
            distinct_types(routes.deep_view().take(j as int)),
        decreases routes.len() - j,
    {
        let mut i: usize = 0;
        while i < j
            invariant
                i <= j < routes.len(),
                forall|k: int|
                    0 <= k < i ==> (#[trigger] routes.deep_view()[k]).message_type
                        != routes.deep_view()[j as int].message_type,
            decreases j - i,
        {
            if routes[i].message_type == routes[j].message_type {
                assert(routes.deep_view()[i as int].message_type
                    == routes.deep_view()[j as int].message_type);
                return false;
            }
            i += 1;
        }
        assert(distinct_types(routes.deep_view().take(j + 1))) by {
            let longer = routes.deep_view().take(j + 1);
            let shorter = routes.deep_view().take(j as int);
            assert forall|a: int, b: int| 0 <= a < b < longer.len() implies (
            #[trigger] longer[a]).message_type != (#[trigger] longer[b]).message_type by {
                if b < j {
                    assert(shorter[a] == longer[a] && shorter[b] == longer[b]);
                } else {
                    assert(longer[a] == routes.deep_view()[a]);
                }
            }
        }
        j += 1;
    }
    assert(routes.deep_view().take(j as int) =~= routes.deep_view());
    true
}

/// How the type that `input` defines is a publisher, or why it is none.
///
/// A struct with named fields is a publisher where it has a publisher field and no two of them
/// share a message type: with exactly one it is that publisher itself, with more it gives
/// access to each by message type.
pub fn derive_publisher_impl(input: &DeriveInput) -> (generated: Result<Routing, DeriveError>)
    ensures
        match derived(input.deep_view()) {
            Ok(publisher) => generated matches Ok(found) && found.deep_view() == publisher,
            Err(error) => generated == Err::<Routing, DeriveError>(error),
        },
{
    match &input.data {
        Data::Struct(Fields::Named(fields)) => {
            let mut routes = find_all_publisher_fields(fields);
            if routes.len() == 0 {
                Err(DeriveError::Unroutable(BindError::NoPublisherField))
            } else if !has_distinct_types(&routes) {
                Err(DeriveError::Unroutable(BindError::AmbiguousMessageType))
            } else if routes.len() == 1 {
                let ghost all = routes.deep_view();
                let route = routes.pop().unwrap();
                assert(route.deep_view() == all[0]);
                Ok(Routing::Direct(route))
            } else {
                Ok(Routing::ByType(routes))
            }
        },
        Data::Struct(_) => Err(DeriveError::UnnamedFields),
        _ => Err(DeriveError::NotAStruct),
    }
}

/// The routes of `routing`, in the order of their fields.
pub open spec fn routes_of(routing: RoutingView) -> Seq<RouteView> {
    match routing {
        RoutingView::Direct(route) => seq![route],
        RoutingView::ByType(routes) => routes,
    }
}

/// A struct that is a publisher has a publisher field, and at most one for each message type:
/// two of its routes for one message type are the same route.
pub proof fn one_field_per_message_type(input: DeriveInputView, one: RouteView, other: RouteView)
    requires
        derived(input) matches Ok(routing) && routes_of(routing).contains(one) && routes_of(
            routing,
        ).contains(other),
        one.message_type == other.message_type,
    ensures
        one == other,
        derived(input) matches Ok(routing) && routes_of(routing).len() >= 1,
{
    let routes = routes_of(derived(input)->Ok_0);
    assert(distinct_types(routes));
    let i = choose|i: int| 0 <= i < routes.len() && routes[i] == one;
    let j = choose|j: int| 0 <= j < routes.len() && routes[j] == other;
    if i < j {
        assert(routes[i].message_type != routes[j].message_type);
    } else if j < i {
        assert(routes[j].message_type != routes[i].message_type);
    }
}

/// Whether the route at `i` is the first of `routes` for messages of type `message_type`.
pub open spec fn is_first_for(routes: Seq<RouteView>, message_type: Seq<char>, i: int) -> bool {
    &&& 0 <= i < routes.len()
    &&& routes[i].message_type == message_type
    &&& forall|k: int| 0 <= k < i ==> (#[trigger] routes[k]).message_type != message_type
}

/// Whether none of `routes` is for messages of type `message_type`.
pub open spec fn has_none_for(routes: Seq<RouteView>, message_type: Seq<char>) -> bool {
    forall|k: int| 0 <= k < routes.len() ==> (#[trigger] routes[k]).message_type != message_type
}

impl Routing {
    /// The route for messages of type `message_type`: the first that is for this type, and
    /// the failure of a binding where there is none.
    pub fn route_for(&self, message_type: &str) -> (found: Result<&Route, BindError>)
        ensures
            match found {
                Ok(route) => exists|i: int|
                    is_first_for(routes_of(self.deep_view()), message_type@, i) && routes_of(
                        self.deep_view(),
                    )[i] == route.deep_view(),
                Err(error) => error == BindError::NoPublisherField && has_none_for(
                    routes_of(self.deep_view()),
                    message_type@,
                ),
            },
    {
        let wanted = String::from_str(message_type);
        match self {
            Routing::Direct(route) => {
                if route.message_type == wanted {
                    assert(is_first_for(routes_of(self.deep_view()), message_type@, 0));
                    Ok(route)
                } else {
                    Err(BindError::NoPublisherField)
                }
            },
            Routing::ByType(routes) => {
                let mut i: usize = 0;
                while i < routes.len()
                    invariant
                        i <= routes.len(),
                        wanted@ == message_type@,
                        routes_of(self.deep_view()) == routes.deep_view(),
                        has_none_for(routes.deep_view().take(i as int), message_type@),
                    decreases routes.len() - i,
                {
                    if routes[i].message_type == wanted {
                        assert(is_first_for(routes.deep_view(), message_type@, i as int)) by {
                            assert forall|k: int| 0 <= k < i implies (
                            #[trigger] routes.deep_view()[k]).message_type != message_type@ by {
                                assert(routes.deep_view().take(i as int)[k]
                                    == routes.deep_view()[k]);
                            }
                        }
                        assert(routes.deep_view()[i as int] == routes[i as int].deep_view());
                        return Ok(&routes[i]);
                    }
                    assert(has_none_for(routes.deep_view().take(i + 1), message_type@)) by {
                        assert forall|k: int| 0 <= k < i + 1 implies (
                        #[trigger] routes.deep_view().take(i + 1)[k]).message_type
                            != message_type@ by {
                            if k < i {
                                assert(routes.deep_view().take(i as int)[k]
                                    == routes.deep_view()[k]);
                            }
                        }
                    }
                    i += 1;
                }
                assert(routes.deep_view().take(i as int) =~= routes.deep_view());
                Err(BindError::NoPublisherField)
            },
        }
    }
}

} // verus!
