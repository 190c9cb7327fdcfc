//! The content of an artifact, and the bytes of the file that holds it.

use std::sync::Arc;
use vstd::prelude::*;
use vstd::utf8::encode_utf8;
use crate::annotations::has_text_arguments;
use crate::config::{Config, ProjectConfig};
use crate::ir::{Directive, FragmentDefinition, OperationDefinition, QueryID};
use crate::operation::{
    generate_split_operation, generate_updatable_query, split_operation_text, updatable_query_text,
};
use crate::rendered::{Node, Rendered, Rendering, TypeExports};
use crate::rescript::{
    fragment_rescript_text, generate_fragment_rescript, generate_operation_rescript,
    operation_rescript_text,
};
use crate::signing::is_signed_file;

verus! {

/// The content of an artifact.
#[allow(inconsistent_fields)]
#[derive(Clone)]
pub enum ArtifactContent {
    Operation {
        normalization_operation: Arc<OperationDefinition>,
        reader_operation: Arc<OperationDefinition>,
        typegen_operation: Arc<OperationDefinition>,
        source_hash: String,
        text: String,
        id_and_text_hash: Option<QueryID>,
    },
    UpdatableQuery {
        reader_operation: Arc<OperationDefinition>,
        typegen_operation: Arc<OperationDefinition>,
        source_hash: String,
    },
    Fragment {
        reader_fragment: Arc<FragmentDefinition>,
        typegen_fragment: Arc<FragmentDefinition>,
        source_hash: String,
    },
    SplitOperation {
        normalization_operation: Arc<OperationDefinition>,
        typegen_operation: Option<Arc<OperationDefinition>>,
        source_hash: String,
    },
    Generic { content: Vec<u8> },
}

/// Types are left out only where the project decides so for the artifact.
pub open spec fn skips_types(skip_types_for_artifact: Option<bool>) -> bool {
    skip_types_for_artifact == Some(true)
}

impl ArtifactContent {
    /// The data-driven dependencies that the artifact lists, if it lists any.
    pub open spec fn listed_dependencies(self) -> Option<Directive> {
        match self {
            ArtifactContent::Operation { reader_operation, .. } =>
                reader_operation.directives.data_driven_dependency,
            ArtifactContent::Fragment { reader_fragment, .. } =>
                reader_fragment.directives.data_driven_dependency,
            _ => None,
        }
    }

    /// What the artifact lists can be written down: every dependency is a constant
    /// string.
    pub open spec fn can_be_written(self) -> bool {
        has_text_arguments(self.listed_dependencies())
    }

    /// The text of the artifact, before it is signed. A generic artifact is no text.
    pub open spec fn text(
        self,
        config: Config,
        project_config: ProjectConfig,
        rendered: Rendered,
        skip_types: bool,
    ) -> Seq<char>
        recommends
            !(self is Generic),
    {
        match self {
            ArtifactContent::Operation {
                normalization_operation,
                reader_operation,
                typegen_operation,
                source_hash: _,
                text: _,
                id_and_text_hash,
            } => operation_rescript_text(
                project_config,
                *normalization_operation,
                *reader_operation,
                *typegen_operation,
                rendered,
                id_and_text_hash,
            ),
            ArtifactContent::UpdatableQuery {
                reader_operation,
                typegen_operation: _,
                source_hash,
            } => updatable_query_text(
                config,
                project_config,
                *reader_operation,
                rendered,
                source_hash@,
                skip_types,
            ),
            ArtifactContent::Fragment { reader_fragment, typegen_fragment: _, source_hash: _ } =>
                fragment_rescript_text(*reader_fragment, rendered),
            ArtifactContent::SplitOperation {
                normalization_operation: _,
                typegen_operation,
                source_hash,
            } => split_operation_text(
                config,
                project_config,
                typegen_operation,
                rendered,
                source_hash@,
            ),
            ArtifactContent::Generic { .. } => Seq::empty(),
        }
    }

    /// `bytes` are those of the artifact's file: the text of an updatable query or of a
    /// split operation is signed, that of any other operation or fragment is not, and a
    /// generic artifact is taken as it is.
    pub open spec fn is_file(
        self,
        config: Config,
        project_config: ProjectConfig,
        rendered: Rendered,
        skip_types: bool,
        bytes: Seq<u8>,
    ) -> bool {
        match self {
            ArtifactContent::UpdatableQuery { .. } | ArtifactContent::SplitOperation { .. } =>
                is_signed_file(self.text(config, project_config, rendered, skip_types), bytes),
            ArtifactContent::Operation { .. } | ArtifactContent::Fragment { .. } =>
                bytes == encode_utf8(self.text(config, project_config, rendered, skip_types)),
            ArtifactContent::Generic { content } => bytes == content@,
        }
    }

    /// What has to be rendered for the artifact.
    pub open spec fn needed_rendering(self, skip_types: bool) -> Rendering {
        match self {
            ArtifactContent::Operation { .. } => Rendering {
                type_exports: TypeExports::OperationAndNormalization,
                node: Node::Request,
            },
            ArtifactContent::UpdatableQuery { .. } => Rendering {
                type_exports: if skip_types {
                    TypeExports::Nothing
                } else {
                    TypeExports::OperationAndReader
                },
                node: Node::UpdatableQuery,
            },
            ArtifactContent::Fragment { .. } => Rendering {
                type_exports: TypeExports::Fragment,
                node: Node::Fragment,
            },
            ArtifactContent::SplitOperation { typegen_operation, .. } => Rendering {
                type_exports: match typegen_operation {
                    Some(_) => TypeExports::SplitOperation,
                    None => TypeExports::Nothing,
                },
                node: Node::Operation,
            },
            ArtifactContent::Generic { .. } => Rendering {
                type_exports: TypeExports::Nothing,
                node: Node::Nothing,
            },
        }
    }

    /// Tells whether what the artifact lists can be written down.
    pub fn is_writable(&self) -> (result: bool)
        ensures
            result == self.can_be_written(),
    {
        let listed: &Option<Directive> = match self {
            ArtifactContent::Operation { reader_operation, .. } =>
                &reader_operation.directives.data_driven_dependency,
            ArtifactContent::Fragment { reader_fragment, .. } =>
                &reader_fragment.directives.data_driven_dependency,
            _ => &None,
        };
        match listed {
            Some(directive) => directive.has_text_arguments(),
            None => true,
        }
    }

    /// Tells what has to be rendered before the artifact's bytes can be made.
    pub fn rendering(&self, skip_types_for_artifact: Option<bool>) -> (result: Rendering)
        ensures
            result == self.needed_rendering(skips_types(skip_types_for_artifact)),
    {
        let skip_types: bool = match skip_types_for_artifact {
            Some(skip_types) => skip_types,
            None => false,
        };
        match self {
            ArtifactContent::Operation { .. } => Rendering {
                type_exports: TypeExports::OperationAndNormalization,
                node: Node::Request,
            },
            ArtifactContent::UpdatableQuery { .. } => Rendering {
                type_exports: if skip_types {
                    TypeExports::Nothing
                } else {
                    TypeExports::OperationAndReader
                },
                node: Node::UpdatableQuery,
            },
            ArtifactContent::Fragment { .. } => Rendering {
                type_exports: TypeExports::Fragment,
                node: Node::Fragment,
            },
            ArtifactContent::SplitOperation { typegen_operation, .. } => Rendering {
                type_exports: match typegen_operation {
                    Some(_) => TypeExports::SplitOperation,
                    None => TypeExports::Nothing,
                },
                node: Node::Operation,
            },
            ArtifactContent::Generic { .. } => Rendering {
                type_exports: TypeExports::Nothing,
                node: Node::Nothing,
            },
        }
    }

    /// Makes the bytes of the artifact's file.
    pub fn as_bytes(
        &self,
        config: &Config,
        project_config: &ProjectConfig,
        rendered: &Rendered,
        skip_types_for_artifact: Option<bool>,
    ) -> (result: Vec<u8>)
        requires
            self.can_be_written(),
        ensures
            self.is_file(
                *config,
                *project_config,
                *rendered,
                skips_types(skip_types_for_artifact),
                result@,
            ),
    {
        let skip_types: bool = match skip_types_for_artifact {
            Some(skip_types) => skip_types,
            None => false,
        };
        match self {
            ArtifactContent::Operation {
                normalization_operation,
                reader_operation,
                typegen_operation,
                source_hash: _,
                text,
                id_and_text_hash,
            } => generate_operation_rescript(
                project_config,
                normalization_operation,
                reader_operation,
                typegen_operation,
                rendered,
                text.as_str(),
                id_and_text_hash,
            ),
            ArtifactContent::UpdatableQuery {
                reader_operation,
                typegen_operation: _,
                source_hash,
            } => generate_updatable_query(
                config,
                project_config,
                reader_operation,
                rendered,
                source_hash.clone(),
                skip_types,
            ).unwrap(),
            ArtifactContent::SplitOperation {
                normalization_operation: _,
                typegen_operation,
                source_hash,
            } => generate_split_operation(
                config,
                project_config,
                typegen_operation,
                rendered,
                source_hash.as_str(),
            ).unwrap(),
            ArtifactContent::Fragment { reader_fragment, typegen_fragment: _, source_hash: _ } =>
                generate_fragment_rescript(reader_fragment, rendered),
            ArtifactContent::Generic { content } => content.clone(),
        }
    }
}

} // verus!
