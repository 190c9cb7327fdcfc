//! What the other parts of the compiler make of an artifact's definitions.

use vstd::prelude::*;
use crate::ir::QueryID;

verus! {

/// The text that the printer and the type generator made of an artifact's definitions.
/// An artifact reads only what it shows.
#[derive(Debug)]
pub struct Rendered {
    /// The comment that marks a ReScript file as written by a tool.
    pub comments_for_generated: String,
    /// The types that the artifact exports.
    pub type_exports: String,
    /// The statements in front of the node.
    pub top_level_statements: String,
    /// The node. In a ReScript artifact, the node with its type.
    pub node: String,
    /// The id that the parameters of a request for the operation hold before its query is
    /// put in. Without an operation there is none.
    pub request_id: Option<QueryID>,
}

/// A statement in front of a node.
#[derive(Debug)]
pub struct TopLevelStatement {
    /// The name that it is filed under.
    pub name: String,
    /// The statement.
    pub definition: String,
}

/// The types that the type generator is asked for.
#[derive(Clone, Copy, Debug, PartialEq, Eq, Structural)]
pub enum TypeExports {
    Nothing,
    /// The types of the operation for types, beside the operation for normalization.
    OperationAndNormalization,
    /// The types of the operation for types, beside the operation for readers.
    OperationAndReader,
    /// The types of a split operation, beside the operation for normalization.
    SplitOperation,
    /// The types of the fragment for types.
    Fragment,
}

/// The node that the printer is asked for.
#[derive(Clone, Copy, Debug, PartialEq, Eq, Structural)]
pub enum Node {
    Nothing,
    /// The request for the operation for normalization.
    Request,
    /// The variables that the compiler provides for the operation for normalization, and
    /// the request for it.
    RequestAndProvidedVariables,
    /// The operation for readers, as an updatable query.
    UpdatableQuery,
    /// The operation for normalization.
    Operation,
    /// The fragment for readers.
    Fragment,
    /// No node, but the validator of the fragment for types.
    NamedValidator,
}

/// What has to be rendered before an artifact can be written.
#[derive(Clone, Copy, Debug, PartialEq, Eq, Structural)]
pub struct Rendering {
    pub type_exports: TypeExports,
    pub node: Node,
}

/// The types that a module names.
#[derive(Debug)]
pub struct ArtifactGeneratedTypes {
    /// The types that it imports.
    pub imported_types: &'static str,
    /// The type of its node.
    pub ast_type: &'static str,
    /// The type that it exports its node as.
    pub exported_type: Option<String>,
}

} // verus!
