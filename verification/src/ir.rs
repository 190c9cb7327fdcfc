//! What artifact text depends on of the definitions that an artifact is made from.

use vstd::prelude::*;
use crate::text::text_of;

verus! {

/// The kind of an operation.
#[derive(Clone, Copy, Debug, PartialEq, Eq, Structural)]
pub enum OperationKind {
    Query,
    Mutation,
    Subscription,
}

/// A value that does not depend on variables.
#[derive(Debug)]
pub enum ConstantValue {
    Text(String),
    /// A constant of any other type.
    Other,
}

/// The value of an argument.
#[derive(Debug)]
pub enum Value {
    Constant(ConstantValue),
    /// A value that depends on variables.
    Other,
}

/// An argument of a directive.
#[derive(Debug)]
pub struct Argument {
    pub name: String,
    pub value: Value,
}

/// A directive on a definition.
#[derive(Debug)]
pub struct Directive {
    pub arguments: Vec<Argument>,
}

/// The server components that a definition depends on.
#[derive(Debug)]
pub struct ReactFlightLocalComponentsMetadata {
    pub components: Vec<String>,
}

/// The client components that a definition depends on.
#[derive(Debug)]
pub struct RelayClientComponentMetadata {
    pub split_operation_filenames: Vec<String>,
}

/// The directives of a definition that its artifact depends on.
#[derive(Debug)]
pub struct Directives {
    /// The directive that lists data-driven dependencies.
    pub data_driven_dependency: Option<Directive>,
    /// The directive that lists indirect data-driven dependencies.
    pub indirect_data_driven_dependency: Option<Directive>,
    pub react_flight_local_components: Option<ReactFlightLocalComponentsMetadata>,
    pub relay_client_component: Option<RelayClientComponentMetadata>,
    /// Whether the definition is marked as assignable.
    pub assignable: bool,
}

/// An operation.
#[derive(Debug)]
pub struct OperationDefinition {
    pub name: String,
    /// The comment that names the file that the operation was found in, where it is
    /// known.
    pub source_location_text: Option<String>,
    pub kind: OperationKind,
    /// The names of the variables, in the order of their definitions.
    pub variable_names: Vec<String>,
    pub directives: Directives,
    /// Whether the operation can be sent before the code that needs it has loaded.
    pub preloadable: bool,
}

/// A fragment.
#[derive(Debug)]
pub struct FragmentDefinition {
    /// The comment that names the file that the fragment was found in, where it is
    /// known.
    pub source_location_text: Option<String>,
    pub directives: Directives,
}

/// How a query is known to the server.
#[derive(Debug)]
pub enum QueryID {
    /// By an id that stands for the text with the given hash.
    Persisted { id: String, text_hash: String },
    /// In any other way.
    Other,
}

/// What a request says of the query that it sends, where `Q` is how a query is known.
#[derive(Debug)]
pub struct RequestParameters<'a, Q> {
    pub id: &'a Option<Q>,
    pub text: Option<String>,
}

/// The id that a request sends: that of the query where it has one, and otherwise that
/// of the request's parameters.
pub open spec fn sent_id<Q>(parameters_id: Option<Q>, id_and_text_hash: Option<Q>) -> Option<Q> {
    match id_and_text_hash {
        Some(_) => id_and_text_hash,
        None => parameters_id,
    }
}

impl<'a, Q> RequestParameters<'a, Q> {
    /// The parameters of a request that sends the query by its id where it has one, and
    /// by its text where it has none.
    pub fn with_query(self, id_and_text_hash: &'a Option<Q>, text: &str) -> (result: Self)
        ensures
            *result.id == sent_id(*self.id, *id_and_text_hash),
            id_and_text_hash is Some ==> result.text == self.text,
            id_and_text_hash is None ==> text_of(result.text) == Some(text@),
    {
        if id_and_text_hash.is_some() {
            RequestParameters { id: id_and_text_hash, text: self.text }
        } else {
            RequestParameters { id: self.id, text: Some(String::from_str(text)) }
        }
    }
}

impl Clone for QueryID {
    fn clone(&self) -> (result: Self)
        ensures
            result == *self,
    {
        match self {
            QueryID::Persisted { id, text_hash } => QueryID::Persisted {
                id: id.clone(),
                text_hash: text_hash.clone(),
            },
            QueryID::Other => QueryID::Other,
        }
    }
}

impl Value {
    /// The value is a constant string.
    pub open spec fn is_text(self) -> bool {
        self matches Value::Constant(ConstantValue::Text(_))
    }

    /// The text of a constant string.
    pub open spec fn text(self) -> Seq<char> {
        match self {
            Value::Constant(ConstantValue::Text(text)) => text@,
            _ => Seq::empty(),
        }
    }
}

impl Directive {
    /// Every argument is a constant string.
    pub open spec fn arguments_are_text(self) -> bool {
        forall|i: int| 0 <= i < self.arguments@.len() ==> #[trigger] self.arguments@[i].value.is_text()
    }

    /// Tells whether every argument is a constant string.
    pub fn has_text_arguments(&self) -> (result: bool)
        ensures
            result == self.arguments_are_text(),
    {
        let mut i: usize = 0;
        while i < self.arguments.len()
            invariant
                i <= self.arguments.len(),
                forall|j: int| 0 <= j < i ==> #[trigger] self.arguments@[j].value.is_text(),
            decreases self.arguments.len() - i,
        {
            match &self.arguments[i].value {
                Value::Constant(ConstantValue::Text(_)) => {},
                _ => {
                    assert(!self.arguments@[i as int].value.is_text());
                    return false;
                },
            }
            i = i + 1;
        }
        true
    }
}

} // verus!
