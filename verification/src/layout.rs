//! The files of all artifacts, language by language, from the first line to the last.

use std::sync::Arc;
use vstd::prelude::*;
use crate::annotations::{
    data_driven_dependencies, indirect_data_driven_dependencies, react_flight_client_dependencies,
    react_flight_server_dependencies, request_id_comment, variables_comment,
};
use crate::config::{Config, ProjectConfig, TypegenLanguage};
use crate::fragment::{assignable_fragment_text, read_only_fragment_text};
use crate::ir::{
    FragmentDefinition, OperationDefinition, OperationKind, QueryID,
};
use crate::operation::{operation_text, split_operation_text, updatable_query_text};
use crate::rendered::{ArtifactGeneratedTypes, Rendered};
use crate::rescript::{fragment_rescript_text, operation_rescript_text};
use crate::sections::{docblock, source_hash_section};
use crate::text::{lemma_concat_empty, lemma_empty_concat};

verus! {

/// `tail` stands at the end of `text`.
pub open spec fn ends_with(text: Seq<char>, tail: Seq<char>) -> bool {
    exists|front: Seq<char>| text == #[trigger] (front + tail)
}

/// What is appended last stands at the end.
broadcast proof fn lemma_ends_with_last(front: Seq<char>, tail: Seq<char>)
    ensures
        #[trigger] ends_with(front + tail, tail),
{
}

/// What stands at the end still does so with what is appended to it.
broadcast proof fn lemma_ends_with_more(text: Seq<char>, tail: Seq<char>, more: Seq<char>)
    requires
        ends_with(text, tail),
    ensures
        #[trigger] ends_with(text + more, tail + more),
{
    let front = choose|front: Seq<char>| text == #[trigger] (front + tail);
    assert(text + more =~= front + (tail + more));
}

/// The module of an updatable query in JavaScript.
pub proof fn lemma_updatable_query_in_javascript(
    config: Config,
    project_config: ProjectConfig,
    reader_operation: OperationDefinition,
    rendered: Rendered,
    source_hash: Seq<char>,
    skip_types: bool,
)
    requires
        project_config.typegen_config.language == TypegenLanguage::JavaScript,
    ensures
        updatable_query_text(
            config, project_config, reader_operation, rendered, source_hash, skip_types,
        ) == docblock(config, TypegenLanguage::JavaScript, None)
            + "/* eslint-disable */\n\n"@
            + "'use strict';\n\n"@
            + (if skip_types { Seq::empty() } else { rendered.type_exports@ })
            + "\n"@
            + ("var "@ + "node"@ + " = "@ + rendered.node@ + ";\n\n"@)
            + source_hash_section(config, TypegenLanguage::JavaScript, source_hash)
            + (if project_config.typegen_config.eager_es_modules {
            "export default "@ + "node"@ + ";\n"@
        } else {
            "module.exports = "@ + "node"@ + ";\n"@
        }),
{
    broadcast use lemma_concat_empty;

}

/// The module of an updatable query in TypeScript.
pub proof fn lemma_updatable_query_in_typescript(
    config: Config,
    project_config: ProjectConfig,
    reader_operation: OperationDefinition,
    rendered: Rendered,
    source_hash: Seq<char>,
    skip_types: bool,
)
    requires
        project_config.typegen_config.language == TypegenLanguage::TypeScript,
    ensures
        updatable_query_text(
            config, project_config, reader_operation, rendered, source_hash, skip_types,
        ) == docblock(config, TypegenLanguage::TypeScript, None)
            + "/* tslint:disable */\n/* eslint-disable */\n// @ts-nocheck\n\n"@
            + ("import { "@ + "UpdatableQuery, ConcreteUpdatableQuery"@ + " } from '"@ + "relay-runtime"@ + "';\n"@)
            + (if skip_types { Seq::empty() } else { rendered.type_exports@ })
            + "\n"@
            + ("const "@ + "node"@ + ": "@ + "ConcreteUpdatableQuery"@ + " = "@ + rendered.node@ + ";\n\n"@)
            + source_hash_section(config, TypegenLanguage::TypeScript, source_hash)
            + ("export default "@ + "node"@ + ";\n"@),
{
    broadcast use lemma_concat_empty;

}

/// The module of an updatable query in Flow.
pub proof fn lemma_updatable_query_in_flow(
    config: Config,
    project_config: ProjectConfig,
    reader_operation: OperationDefinition,
    rendered: Rendered,
    source_hash: Seq<char>,
    skip_types: bool,
)
    requires
        project_config.typegen_config.language == TypegenLanguage::Flow,
    ensures
        updatable_query_text(
            config, project_config, reader_operation, rendered, source_hash, skip_types,
        ) == docblock(config, TypegenLanguage::Flow, None)
            + "/* eslint-disable */\n\n"@
            + "'use strict';\n\n"@
            + "/*::\n"@
            + ("import type { "@ + "UpdatableQuery, ConcreteUpdatableQuery"@ + " } from '"@ + "relay-runtime"@ + "';\n"@)
            + (if skip_types { Seq::empty() } else { rendered.type_exports@ })
            + "*/\n\n"@
            + ("var "@ + "node"@ + "/*: "@ + "ConcreteUpdatableQuery"@ + "*/ = "@ + rendered.node@ + ";\n\n"@)
            + source_hash_section(config, TypegenLanguage::Flow, source_hash)
            + (if project_config.typegen_config.eager_es_modules {
            "export default "@ + "node"@ + ";\n"@
        } else {
            "module.exports = (("@ + "node"@ + "/*: any*/)/*: "@ + ("UpdatableQuery<\n  "@ + reader_operation.name@ + "$variables,\n  "@ + reader_operation.name@ + "$data,\n>"@) + "*/);\n"@
        }),
{
    broadcast use lemma_concat_empty;

}

/// The module of an updatable query in ReScript.
pub proof fn lemma_updatable_query_in_rescript(
    config: Config,
    project_config: ProjectConfig,
    reader_operation: OperationDefinition,
    rendered: Rendered,
    source_hash: Seq<char>,
    skip_types: bool,
)
    requires
        project_config.typegen_config.language == TypegenLanguage::ReScript,
    ensures
        updatable_query_text(
            config, project_config, reader_operation, rendered, source_hash, skip_types,
        ) == docblock(config, TypegenLanguage::ReScript, None)
            + (if skip_types { Seq::empty() } else { rendered.type_exports@ })
            + "\n"@
            + source_hash_section(config, TypegenLanguage::ReScript, source_hash)
            + (if project_config.typegen_config.eager_es_modules {
            "export default "@ + "node"@ + ";\n"@
        } else {
            Seq::empty()
        }),
{
    broadcast use lemma_concat_empty;

}

/// The module of a split operation in JavaScript.
pub proof fn lemma_split_operation_in_javascript(
    config: Config,
    project_config: ProjectConfig,
    typegen_operation: Option<Arc<OperationDefinition>>,
    rendered: Rendered,
    source_hash: Seq<char>,
)
    requires
        project_config.typegen_config.language == TypegenLanguage::JavaScript,
    ensures
        split_operation_text(
            config, project_config, typegen_operation, rendered, source_hash,
        ) == docblock(config, TypegenLanguage::JavaScript, None)
            + "/* eslint-disable */\n\n"@
            + "\n"@
            + (if typegen_operation is Some { rendered.type_exports@ + "\n"@ } else { Seq::empty() })
            + "\n"@
            + rendered.top_level_statements@
            + ("var "@ + "node"@ + " = "@ + rendered.node@ + ";\n\n"@)
            + source_hash_section(config, TypegenLanguage::JavaScript, source_hash)
            + (if project_config.typegen_config.eager_es_modules {
            "export default "@ + "node"@ + ";\n"@
        } else {
            "module.exports = "@ + "node"@ + ";\n"@
        }),
{
    broadcast use lemma_concat_empty;

}

/// The module of a split operation in TypeScript.
pub proof fn lemma_split_operation_in_typescript(
    config: Config,
    project_config: ProjectConfig,
    typegen_operation: Option<Arc<OperationDefinition>>,
    rendered: Rendered,
    source_hash: Seq<char>,
)
    requires
        project_config.typegen_config.language == TypegenLanguage::TypeScript,
    ensures
        split_operation_text(
            config, project_config, typegen_operation, rendered, source_hash,
        ) == docblock(config, TypegenLanguage::TypeScript, None)
            + "/* tslint:disable */\n/* eslint-disable */\n// @ts-nocheck\n\n"@
            + ("import { "@ + "NormalizationSplitOperation"@ + " } from '"@ + "relay-runtime"@ + "';\n"@)
            + "\n"@
            + (if typegen_operation is Some { rendered.type_exports@ + "\n"@ } else { Seq::empty() })
            + "\n"@
            + rendered.top_level_statements@
            + ("const "@ + "node"@ + ": "@ + "NormalizationSplitOperation"@ + " = "@ + rendered.node@ + ";\n\n"@)
            + source_hash_section(config, TypegenLanguage::TypeScript, source_hash)
            + ("export default "@ + "node"@ + ";\n"@),
{
    broadcast use lemma_concat_empty;

}

/// The module of a split operation in Flow.
pub proof fn lemma_split_operation_in_flow(
    config: Config,
    project_config: ProjectConfig,
    typegen_operation: Option<Arc<OperationDefinition>>,
    rendered: Rendered,
    source_hash: Seq<char>,
)
    requires
        project_config.typegen_config.language == TypegenLanguage::Flow,
    ensures
        split_operation_text(
            config, project_config, typegen_operation, rendered, source_hash,
        ) == docblock(config, TypegenLanguage::Flow, None)
            + "/* eslint-disable */\n\n"@
            + "'use strict';\n\n"@
            + "/*::\n"@
            + ("import type { "@ + "NormalizationSplitOperation"@ + " } from '"@ + "relay-runtime"@ + "';\n"@)
            + "\n"@
            + (if typegen_operation is Some { rendered.type_exports@ + "\n"@ } else { Seq::empty() })
            + "*/\n\n"@
            + rendered.top_level_statements@
            + ("var "@ + "node"@ + "/*: "@ + "NormalizationSplitOperation"@ + "*/ = "@ + rendered.node@ + ";\n\n"@)
            + source_hash_section(config, TypegenLanguage::Flow, source_hash)
            + (if project_config.typegen_config.eager_es_modules {
            "export default "@ + "node"@ + ";\n"@
        } else {
            "module.exports = "@ + "node"@ + ";\n"@
        }),
{
    broadcast use lemma_concat_empty;

}

/// The module of a split operation in ReScript.
pub proof fn lemma_split_operation_in_rescript(
    config: Config,
    project_config: ProjectConfig,
    typegen_operation: Option<Arc<OperationDefinition>>,
    rendered: Rendered,
    source_hash: Seq<char>,
)
    requires
        project_config.typegen_config.language == TypegenLanguage::ReScript,
    ensures
        split_operation_text(
            config, project_config, typegen_operation, rendered, source_hash,
        ) == docblock(config, TypegenLanguage::ReScript, None)
            + "\n"@
            + (if typegen_operation is Some { rendered.type_exports@ + "\n"@ } else { Seq::empty() })
            + "\n"@
            + rendered.top_level_statements@
            + source_hash_section(config, TypegenLanguage::ReScript, source_hash)
            + (if project_config.typegen_config.eager_es_modules {
            "export default "@ + "node"@ + ";\n"@
        } else {
            Seq::empty()
        }),
{
    broadcast use lemma_concat_empty;

}

/// The module of an operation in JavaScript.
pub proof fn lemma_operation_in_javascript(
    config: Config,
    project_config: ProjectConfig,
    normalization_operation: OperationDefinition,
    reader_operation: OperationDefinition,
    generated_types: ArtifactGeneratedTypes,
    rendered: Rendered,
    source_hash: Seq<char>,
    id_and_text_hash: Option<QueryID>,
    skip_types: bool,
)
    requires
        project_config.typegen_config.language == TypegenLanguage::JavaScript,
    ensures
        operation_text(
            config, project_config, normalization_operation, reader_operation, generated_types,
            rendered, source_hash, id_and_text_hash, skip_types,
        ) == docblock(config, TypegenLanguage::JavaScript, id_and_text_hash)
            + "/* eslint-disable */\n\n"@
            + "'use strict';\n\n"@
            + request_id_comment(
                if id_and_text_hash is Some { id_and_text_hash } else { rendered.request_id },
            )
            + (if project_config.variable_names_comment {
                variables_comment(normalization_operation.variable_names@)
            } else {
                Seq::empty()
            })
            + data_driven_dependencies(reader_operation.directives.data_driven_dependency)
            + indirect_data_driven_dependencies(
                reader_operation.directives.indirect_data_driven_dependency,
            )
            + react_flight_server_dependencies(
                reader_operation.directives.react_flight_local_components,
            )
            + react_flight_client_dependencies(reader_operation.directives.relay_client_component)
            + (if id_and_text_hash is Some || rendered.request_id is Some
                || reader_operation.directives.data_driven_dependency is Some
                || reader_operation.directives.indirect_data_driven_dependency is Some {
                "\n"@
            } else {
                Seq::empty()
            })
            + (if skip_types { Seq::empty() } else { rendered.type_exports@ })
            + "\n"@
            + rendered.top_level_statements@
            + ("var "@ + "node"@ + " = "@ + rendered.node@ + ";\n\n"@)
            + source_hash_section(config, TypegenLanguage::JavaScript, source_hash)
            + (if normalization_operation.preloadable && id_and_text_hash is Some {
                "require('relay-runtime').PreloadableQueryRegistry.set(node.params.id, node);\n\n"@
            } else {
                Seq::empty()
            })
            + (if project_config.typegen_config.eager_es_modules {
            "export default "@ + "node"@ + ";\n"@
        } else {
            "module.exports = "@ + "node"@ + ";\n"@
        }),
{
    broadcast use lemma_concat_empty;

}

/// The module of an operation in TypeScript.
pub proof fn lemma_operation_in_typescript(
    config: Config,
    project_config: ProjectConfig,
    normalization_operation: OperationDefinition,
    reader_operation: OperationDefinition,
    generated_types: ArtifactGeneratedTypes,
    rendered: Rendered,
    source_hash: Seq<char>,
    id_and_text_hash: Option<QueryID>,
    skip_types: bool,
)
    requires
        project_config.typegen_config.language == TypegenLanguage::TypeScript,
    ensures
        operation_text(
            config, project_config, normalization_operation, reader_operation, generated_types,
            rendered, source_hash, id_and_text_hash, skip_types,
        ) == docblock(config, TypegenLanguage::TypeScript, id_and_text_hash)
            + "/* tslint:disable */\n/* eslint-disable */\n// @ts-nocheck\n\n"@
            + request_id_comment(
                if id_and_text_hash is Some { id_and_text_hash } else { rendered.request_id },
            )
            + (if project_config.variable_names_comment {
                variables_comment(normalization_operation.variable_names@)
            } else {
                Seq::empty()
            })
            + data_driven_dependencies(reader_operation.directives.data_driven_dependency)
            + indirect_data_driven_dependencies(
                reader_operation.directives.indirect_data_driven_dependency,
            )
            + react_flight_server_dependencies(
                reader_operation.directives.react_flight_local_components,
            )
            + react_flight_client_dependencies(reader_operation.directives.relay_client_component)
            + (if id_and_text_hash is Some || rendered.request_id is Some
                || reader_operation.directives.data_driven_dependency is Some
                || reader_operation.directives.indirect_data_driven_dependency is Some {
                "\n"@
            } else {
                Seq::empty()
            })
            + ("import { "@ + generated_types.imported_types@ + " } from '"@ + "relay-runtime"@ + "';\n"@)
            + (if skip_types { Seq::empty() } else { rendered.type_exports@ })
            + "\n"@
            + rendered.top_level_statements@
            + ("const "@ + "node"@ + ": "@ + generated_types.ast_type@ + " = "@ + rendered.node@ + ";\n\n"@)
            + source_hash_section(config, TypegenLanguage::TypeScript, source_hash)
            + (if normalization_operation.preloadable && id_and_text_hash is Some {
                "import { PreloadableQueryRegistry } from 'relay-runtime';\nPreloadableQueryRegistry.set(node.params.id, node);\n\n"@
            } else {
                Seq::empty()
            })
            + ("export default "@ + "node"@ + ";\n"@),
{
    broadcast use lemma_concat_empty;

}

/// The module of an operation in Flow.
pub proof fn lemma_operation_in_flow(
    config: Config,
    project_config: ProjectConfig,
    normalization_operation: OperationDefinition,
    reader_operation: OperationDefinition,
    generated_types: ArtifactGeneratedTypes,
    rendered: Rendered,
    source_hash: Seq<char>,
    id_and_text_hash: Option<QueryID>,
    skip_types: bool,
)
    requires
        project_config.typegen_config.language == TypegenLanguage::Flow,
    ensures
        operation_text(
            config, project_config, normalization_operation, reader_operation, generated_types,
            rendered, source_hash, id_and_text_hash, skip_types,
        ) == docblock(config, TypegenLanguage::Flow, id_and_text_hash)
            + "/* eslint-disable */\n\n"@
            + "'use strict';\n\n"@
            + request_id_comment(
                if id_and_text_hash is Some { id_and_text_hash } else { rendered.request_id },
            )
            + (if project_config.variable_names_comment {
                variables_comment(normalization_operation.variable_names@)
            } else {
                Seq::empty()
            })
            + data_driven_dependencies(reader_operation.directives.data_driven_dependency)
            + indirect_data_driven_dependencies(
                reader_operation.directives.indirect_data_driven_dependency,
            )
            + react_flight_server_dependencies(
                reader_operation.directives.react_flight_local_components,
            )
            + react_flight_client_dependencies(reader_operation.directives.relay_client_component)
            + (if id_and_text_hash is Some || rendered.request_id is Some
                || reader_operation.directives.data_driven_dependency is Some
                || reader_operation.directives.indirect_data_driven_dependency is Some {
                "\n"@
            } else {
                Seq::empty()
            })
            + "/*::\n"@
            + ("import type { "@ + generated_types.imported_types@ + " } from '"@ + "relay-runtime"@ + "';\n"@)
            + (if skip_types { Seq::empty() } else { rendered.type_exports@ })
            + "*/\n\n"@
            + rendered.top_level_statements@
            + ("var "@ + "node"@ + "/*: "@ + generated_types.ast_type@ + "*/ = "@ + rendered.node@ + ";\n\n"@)
            + source_hash_section(config, TypegenLanguage::Flow, source_hash)
            + (if normalization_operation.preloadable && id_and_text_hash is Some {
                "require('relay-runtime').PreloadableQueryRegistry.set((node.params/*: any*/).id, node);\n\n"@
            } else {
                Seq::empty()
            })
            + (if project_config.typegen_config.eager_es_modules {
            "export default "@ + "node"@ + ";\n"@
        } else {
            match generated_types.exported_type {
                Some(exported_type) => "module.exports = (("@ + "node"@ + "/*: any*/)/*: "@
                    + exported_type@ + "*/);\n"@,
                None => "module.exports = "@ + "node"@ + ";\n"@,
            }
        }),
{
    broadcast use lemma_concat_empty;

}

/// The module of an operation in ReScript.
pub proof fn lemma_operation_in_rescript(
    config: Config,
    project_config: ProjectConfig,
    normalization_operation: OperationDefinition,
    reader_operation: OperationDefinition,
    generated_types: ArtifactGeneratedTypes,
    rendered: Rendered,
    source_hash: Seq<char>,
    id_and_text_hash: Option<QueryID>,
    skip_types: bool,
)
    requires
        project_config.typegen_config.language == TypegenLanguage::ReScript,
    ensures
        operation_text(
            config, project_config, normalization_operation, reader_operation, generated_types,
            rendered, source_hash, id_and_text_hash, skip_types,
        ) == docblock(config, TypegenLanguage::ReScript, id_and_text_hash)
            + request_id_comment(
                if id_and_text_hash is Some { id_and_text_hash } else { rendered.request_id },
            )
            + (if project_config.variable_names_comment {
                variables_comment(normalization_operation.variable_names@)
            } else {
                Seq::empty()
            })
            + data_driven_dependencies(reader_operation.directives.data_driven_dependency)
            + indirect_data_driven_dependencies(
                reader_operation.directives.indirect_data_driven_dependency,
            )
            + react_flight_server_dependencies(
                reader_operation.directives.react_flight_local_components,
            )
            + react_flight_client_dependencies(reader_operation.directives.relay_client_component)
            + (if id_and_text_hash is Some || rendered.request_id is Some
                || reader_operation.directives.data_driven_dependency is Some
                || reader_operation.directives.indirect_data_driven_dependency is Some {
                "\n"@
            } else {
                Seq::empty()
            })
            + (if skip_types { Seq::empty() } else { rendered.type_exports@ })
            + "\n"@
            + rendered.top_level_statements@
            + source_hash_section(config, TypegenLanguage::ReScript, source_hash)
            + (if normalization_operation.preloadable && id_and_text_hash is Some {
                "\n\n"@
            } else {
                Seq::empty()
            })
            + (if project_config.typegen_config.eager_es_modules {
            "export default "@ + "node"@ + ";\n"@
        } else {
            Seq::empty()
        }),
{
    broadcast use lemma_concat_empty;

}

/// The module of a fragment that is read in JavaScript.
pub proof fn lemma_read_only_fragment_in_javascript(
    config: Config,
    project_config: ProjectConfig,
    reader_fragment: FragmentDefinition,
    generated_types: ArtifactGeneratedTypes,
    rendered: Rendered,
    source_hash: Seq<char>,
    skip_types: bool,
)
    requires
        project_config.typegen_config.language == TypegenLanguage::JavaScript,
    ensures
        read_only_fragment_text(
            config, project_config, reader_fragment, generated_types, rendered, source_hash,
            skip_types,
        ) == docblock(config, TypegenLanguage::JavaScript, None)
            + "/* eslint-disable */\n\n"@
            + data_driven_dependencies(reader_fragment.directives.data_driven_dependency)
            + (if reader_fragment.directives.data_driven_dependency is Some { "\n"@ } else { Seq::empty() })
            + react_flight_server_dependencies(
                reader_fragment.directives.react_flight_local_components,
            )
            + react_flight_client_dependencies(reader_fragment.directives.relay_client_component)
            + (if skip_types { Seq::empty() } else { rendered.type_exports@ })
            + "\n"@
            + rendered.top_level_statements@
            + ("var "@ + "node"@ + " = "@ + rendered.node@ + ";\n\n"@)
            + source_hash_section(config, TypegenLanguage::JavaScript, source_hash)
            + (if project_config.typegen_config.eager_es_modules {
            "export default "@ + "node"@ + ";\n"@
        } else {
            "module.exports = "@ + "node"@ + ";\n"@
        }),
{
    broadcast use lemma_concat_empty;

}

/// The module of a fragment that is read in TypeScript.
pub proof fn lemma_read_only_fragment_in_typescript(
    config: Config,
    project_config: ProjectConfig,
    reader_fragment: FragmentDefinition,
    generated_types: ArtifactGeneratedTypes,
    rendered: Rendered,
    source_hash: Seq<char>,
    skip_types: bool,
)
    requires
        project_config.typegen_config.language == TypegenLanguage::TypeScript,
    ensures
        read_only_fragment_text(
            config, project_config, reader_fragment, generated_types, rendered, source_hash,
            skip_types,
        ) == docblock(config, TypegenLanguage::TypeScript, None)
            + "/* tslint:disable */\n/* eslint-disable */\n// @ts-nocheck\n\n"@
            + data_driven_dependencies(reader_fragment.directives.data_driven_dependency)
            + (if reader_fragment.directives.data_driven_dependency is Some { "\n"@ } else { Seq::empty() })
            + react_flight_server_dependencies(
                reader_fragment.directives.react_flight_local_components,
            )
            + react_flight_client_dependencies(reader_fragment.directives.relay_client_component)
            + ("import { "@ + generated_types.imported_types@ + " } from '"@ + "relay-runtime"@ + "';\n"@)
            + (if skip_types { Seq::empty() } else { rendered.type_exports@ })
            + "\n"@
            + rendered.top_level_statements@
            + ("const "@ + "node"@ + ": "@ + generated_types.ast_type@ + " = "@ + rendered.node@ + ";\n\n"@)
            + source_hash_section(config, TypegenLanguage::TypeScript, source_hash)
            + ("export default "@ + "node"@ + ";\n"@),
{
    broadcast use lemma_concat_empty;

}

/// The module of a fragment that is read in Flow.
pub proof fn lemma_read_only_fragment_in_flow(
    config: Config,
    project_config: ProjectConfig,
    reader_fragment: FragmentDefinition,
    generated_types: ArtifactGeneratedTypes,
    rendered: Rendered,
    source_hash: Seq<char>,
    skip_types: bool,
)
    requires
        project_config.typegen_config.language == TypegenLanguage::Flow,
    ensures
        read_only_fragment_text(
            config, project_config, reader_fragment, generated_types, rendered, source_hash,
            skip_types,
        ) == docblock(config, TypegenLanguage::Flow, None)
            + "/* eslint-disable */\n\n"@
            + "'use strict';\n\n"@
            + data_driven_dependencies(reader_fragment.directives.data_driven_dependency)
            + (if reader_fragment.directives.data_driven_dependency is Some { "\n"@ } else { Seq::empty() })
            + react_flight_server_dependencies(
                reader_fragment.directives.react_flight_local_components,
            )
            + react_flight_client_dependencies(reader_fragment.directives.relay_client_component)
            + "/*::\n"@
            + ("import type { "@ + generated_types.imported_types@ + " } from '"@ + "relay-runtime"@ + "';\n"@)
            + (if skip_types { Seq::empty() } else { rendered.type_exports@ })
            + "*/\n\n"@
            + rendered.top_level_statements@
            + ("var "@ + "node"@ + "/*: "@ + generated_types.ast_type@ + "*/ = "@ + rendered.node@ + ";\n\n"@)
            + source_hash_section(config, TypegenLanguage::Flow, source_hash)
            + (if project_config.typegen_config.eager_es_modules {
            "export default "@ + "node"@ + ";\n"@
        } else {
            match generated_types.exported_type {
                Some(exported_type) => "module.exports = (("@ + "node"@ + "/*: any*/)/*: "@
                    + exported_type@ + "*/);\n"@,
                None => "module.exports = "@ + "node"@ + ";\n"@,
            }
        }),
{
    broadcast use lemma_concat_empty;

}

/// The module of a fragment that is read in ReScript.
pub proof fn lemma_read_only_fragment_in_rescript(
    config: Config,
    project_config: ProjectConfig,
    reader_fragment: FragmentDefinition,
    generated_types: ArtifactGeneratedTypes,
    rendered: Rendered,
    source_hash: Seq<char>,
    skip_types: bool,
)
    requires
        project_config.typegen_config.language == TypegenLanguage::ReScript,
    ensures
        read_only_fragment_text(
            config, project_config, reader_fragment, generated_types, rendered, source_hash,
            skip_types,
        ) == docblock(config, TypegenLanguage::ReScript, None)
            + data_driven_dependencies(reader_fragment.directives.data_driven_dependency)
            + (if reader_fragment.directives.data_driven_dependency is Some { "\n"@ } else { Seq::empty() })
            + react_flight_server_dependencies(
                reader_fragment.directives.react_flight_local_components,
            )
            + react_flight_client_dependencies(reader_fragment.directives.relay_client_component)
            + (if skip_types { Seq::empty() } else { rendered.type_exports@ })
            + "\n"@
            + rendered.top_level_statements@
            + source_hash_section(config, TypegenLanguage::ReScript, source_hash)
            + (if project_config.typegen_config.eager_es_modules {
            "export default "@ + "node"@ + ";\n"@
        } else {
            Seq::empty()
        }),
{
    broadcast use lemma_concat_empty;

}

/// The module of a fragment that is assigned in JavaScript.
pub proof fn lemma_assignable_fragment_in_javascript(
    config: Config,
    project_config: ProjectConfig,
    type_exports: Seq<char>,
    named_validator_export: Seq<char>,
    skip_types: bool,
)
    requires
        project_config.typegen_config.language == TypegenLanguage::JavaScript,
    ensures
        assignable_fragment_text(
            config, project_config, type_exports, named_validator_export, skip_types,
        ) == docblock(config, TypegenLanguage::JavaScript, None)
            + "/* eslint-disable */\n\n"@
            + (if skip_types { Seq::empty() } else { type_exports })
            + "\n"@
            + named_validator_export
            + "\n"@,
{
    broadcast use lemma_concat_empty;

}

/// The module of a fragment that is assigned in TypeScript.
pub proof fn lemma_assignable_fragment_in_typescript(
    config: Config,
    project_config: ProjectConfig,
    type_exports: Seq<char>,
    named_validator_export: Seq<char>,
    skip_types: bool,
)
    requires
        project_config.typegen_config.language == TypegenLanguage::TypeScript,
    ensures
        assignable_fragment_text(
            config, project_config, type_exports, named_validator_export, skip_types,
        ) == docblock(config, TypegenLanguage::TypeScript, None)
            + "/* tslint:disable */\n/* eslint-disable */\n// @ts-nocheck\n\n"@
            + (if skip_types { Seq::empty() } else { type_exports })
            + "\n"@
            + named_validator_export
            + "\n"@,
{
    broadcast use lemma_concat_empty;

}

/// The module of a fragment that is assigned in Flow.
pub proof fn lemma_assignable_fragment_in_flow(
    config: Config,
    project_config: ProjectConfig,
    type_exports: Seq<char>,
    named_validator_export: Seq<char>,
    skip_types: bool,
)
    requires
        project_config.typegen_config.language == TypegenLanguage::Flow,
    ensures
        assignable_fragment_text(
            config, project_config, type_exports, named_validator_export, skip_types,
        ) == docblock(config, TypegenLanguage::Flow, None)
            + "/* eslint-disable */\n\n"@
            + "'use strict';\n\n"@
            + "/*::\n"@
            + (if skip_types { Seq::empty() } else { type_exports })
            + "*/\n\n"@
            + named_validator_export
            + "\n"@,
{
    broadcast use lemma_concat_empty;

}

/// The module of a fragment that is assigned in ReScript.
pub proof fn lemma_assignable_fragment_in_rescript(
    config: Config,
    project_config: ProjectConfig,
    type_exports: Seq<char>,
    named_validator_export: Seq<char>,
    skip_types: bool,
)
    requires
        project_config.typegen_config.language == TypegenLanguage::ReScript,
    ensures
        assignable_fragment_text(
            config, project_config, type_exports, named_validator_export, skip_types,
        ) == docblock(config, TypegenLanguage::ReScript, None)
            + (if skip_types { Seq::empty() } else { type_exports })
            + "\n"@
            + named_validator_export
            + "\n"@,
{
    broadcast use lemma_concat_empty;

}

/// The module of a query in ReScript.
pub proof fn lemma_query_in_rescript(
    project_config: ProjectConfig,
    normalization_operation: OperationDefinition,
    reader_operation: OperationDefinition,
    typegen_operation: OperationDefinition,
    rendered: Rendered,
    id_and_text_hash: Option<QueryID>,
)
    requires
        typegen_operation.kind == OperationKind::Query,
    ensures
        operation_rescript_text(
            project_config, normalization_operation, reader_operation, typegen_operation,
            rendered, id_and_text_hash,
        ) == (match reader_operation.source_location_text {
                Some(location) => location@ + "\n"@,
                None => Seq::empty(),
            })
            + rendered.comments_for_generated@
            + "\n"@
            + (match id_and_text_hash {
                Some(QueryID::Persisted { id: _, text_hash }) => "/* @relayHash "@ + text_hash@
                    + " */\n\n"@,
                _ => Seq::empty(),
            })
            + request_id_comment(
                if id_and_text_hash is Some { id_and_text_hash } else { rendered.request_id },
            )
            + (if project_config.variable_names_comment {
                variables_comment(normalization_operation.variable_names@)
            } else {
                Seq::empty()
            })
            + data_driven_dependencies(reader_operation.directives.data_driven_dependency)
            + react_flight_server_dependencies(
                reader_operation.directives.react_flight_local_components,
            )
            + react_flight_client_dependencies(reader_operation.directives.relay_client_component)
            + (if id_and_text_hash is Some || rendered.request_id is Some
                || reader_operation.directives.data_driven_dependency is Some {
                "\n"@
            } else {
                Seq::empty()
            })
            + rendered.type_exports@
            + "\n"@
            + "type relayOperationNode\ntype operationType = RescriptRelay."@
            + "query"@
            + "Node<relayOperationNode>\n\n\n"@
            + rendered.node@
            + "\n"@
            + "include RescriptRelay.MakeLoadQuery({\n    type variables = Types.variables\n    type loadedQueryRef = queryRef\n    type response = Types.response\n    type node = relayOperationNode\n    let query = node\n    let convertVariables = Internal.convertVariables\n});"@
            + "\n"@
            + (if normalization_operation.preloadable && id_and_text_hash is Some {
                "type operationId\ntype operationTypeParams = {id: operationId}\n@get external getOperationTypeParams: operationType => operationTypeParams = \"params\"\n@module(\"relay-runtime\") @scope(\"PreloadableQueryRegistry\") external setPreloadQuery: (operationType, operationId) => unit = \"set\"\ngetOperationTypeParams(node).id->setPreloadQuery(node)\n"@
            } else {
                Seq::empty()
            }),
{
    broadcast use {lemma_concat_empty, lemma_empty_concat};

}

/// The module of a mutation in ReScript.
pub proof fn lemma_mutation_in_rescript(
    project_config: ProjectConfig,
    normalization_operation: OperationDefinition,
    reader_operation: OperationDefinition,
    typegen_operation: OperationDefinition,
    rendered: Rendered,
    id_and_text_hash: Option<QueryID>,
)
    requires
        typegen_operation.kind == OperationKind::Mutation,
    ensures
        operation_rescript_text(
            project_config, normalization_operation, reader_operation, typegen_operation,
            rendered, id_and_text_hash,
        ) == (match reader_operation.source_location_text {
                Some(location) => location@ + "\n"@,
                None => Seq::empty(),
            })
            + rendered.comments_for_generated@
            + "\n"@
            + (match id_and_text_hash {
                Some(QueryID::Persisted { id: _, text_hash }) => "/* @relayHash "@ + text_hash@
                    + " */\n\n"@,
                _ => Seq::empty(),
            })
            + request_id_comment(
                if id_and_text_hash is Some { id_and_text_hash } else { rendered.request_id },
            )
            + (if project_config.variable_names_comment {
                variables_comment(normalization_operation.variable_names@)
            } else {
                Seq::empty()
            })
            + data_driven_dependencies(reader_operation.directives.data_driven_dependency)
            + react_flight_server_dependencies(
                reader_operation.directives.react_flight_local_components,
            )
            + react_flight_client_dependencies(reader_operation.directives.relay_client_component)
            + (if id_and_text_hash is Some || rendered.request_id is Some
                || reader_operation.directives.data_driven_dependency is Some {
                "\n"@
            } else {
                Seq::empty()
            })
            + rendered.type_exports@
            + "\n"@
            + "type relayOperationNode\ntype operationType = RescriptRelay."@
            + "mutation"@
            + "Node<relayOperationNode>\n\n\n"@
            + rendered.node@
            + "\n"@
            + "\n"@
            + (if normalization_operation.preloadable && id_and_text_hash is Some {
                "type operationId\ntype operationTypeParams = {id: operationId}\n@get external getOperationTypeParams: operationType => operationTypeParams = \"params\"\n@module(\"relay-runtime\") @scope(\"PreloadableQueryRegistry\") external setPreloadQuery: (operationType, operationId) => unit = \"set\"\ngetOperationTypeParams(node).id->setPreloadQuery(node)\n"@
            } else {
                Seq::empty()
            }),
{
    broadcast use {lemma_concat_empty, lemma_empty_concat};

}

/// The module of a subscription in ReScript.
pub proof fn lemma_subscription_in_rescript(
    project_config: ProjectConfig,
    normalization_operation: OperationDefinition,
    reader_operation: OperationDefinition,
    typegen_operation: OperationDefinition,
    rendered: Rendered,
    id_and_text_hash: Option<QueryID>,
)
    requires
        typegen_operation.kind == OperationKind::Subscription,
    ensures
        operation_rescript_text(
            project_config, normalization_operation, reader_operation, typegen_operation,
            rendered, id_and_text_hash,
        ) == (match reader_operation.source_location_text {
                Some(location) => location@ + "\n"@,
                None => Seq::empty(),
            })
            + rendered.comments_for_generated@
            + "\n"@
            + (match id_and_text_hash {
                Some(QueryID::Persisted { id: _, text_hash }) => "/* @relayHash "@ + text_hash@
                    + " */\n\n"@,
                _ => Seq::empty(),
            })
            + request_id_comment(
                if id_and_text_hash is Some { id_and_text_hash } else { rendered.request_id },
            )
            + (if project_config.variable_names_comment {
                variables_comment(normalization_operation.variable_names@)
            } else {
                Seq::empty()
            })
            + data_driven_dependencies(reader_operation.directives.data_driven_dependency)
            + react_flight_server_dependencies(
                reader_operation.directives.react_flight_local_components,
            )
            + react_flight_client_dependencies(reader_operation.directives.relay_client_component)
            + (if id_and_text_hash is Some || rendered.request_id is Some
                || reader_operation.directives.data_driven_dependency is Some {
                "\n"@
            } else {
                Seq::empty()
            })
            + rendered.type_exports@
            + "\n"@
            + "type relayOperationNode\ntype operationType = RescriptRelay."@
            + "subscription"@
            + "Node<relayOperationNode>\n\n\n"@
            + rendered.node@
            + "\n"@
            + "\n"@
            + (if normalization_operation.preloadable && id_and_text_hash is Some {
                "type operationId\ntype operationTypeParams = {id: operationId}\n@get external getOperationTypeParams: operationType => operationTypeParams = \"params\"\n@module(\"relay-runtime\") @scope(\"PreloadableQueryRegistry\") external setPreloadQuery: (operationType, operationId) => unit = \"set\"\ngetOperationTypeParams(node).id->setPreloadQuery(node)\n"@
            } else {
                Seq::empty()
            }),
{
    broadcast use {lemma_concat_empty, lemma_empty_concat};

}

/// The module of a fragment in ReScript.
pub proof fn lemma_fragment_in_rescript(
    reader_fragment: FragmentDefinition,
    rendered: Rendered,
)
    ensures
        fragment_rescript_text(
            reader_fragment, rendered,
        ) == (match reader_fragment.source_location_text {
                Some(location) => location@ + "\n"@,
                None => Seq::empty(),
            })
            + rendered.comments_for_generated@
            + "\n"@
            + data_driven_dependencies(reader_fragment.directives.data_driven_dependency)
            + (if reader_fragment.directives.data_driven_dependency is Some { "\n"@ } else { Seq::empty() })
            + react_flight_server_dependencies(
                reader_fragment.directives.react_flight_local_components,
            )
            + react_flight_client_dependencies(reader_fragment.directives.relay_client_component)
            + rendered.type_exports@
            + "\n"@
            + "type relayOperationNode\ntype operationType = RescriptRelay.fragmentNode<relayOperationNode>\n\n\n"@
            + rendered.node@
            + "\n"@,
{
    broadcast use {lemma_concat_empty, lemma_empty_concat};

}

/// Every query can be loaded, whatever its id and whether or not it has one, and nothing
/// but a query can: right behind the node stands the functor that loads queries, exactly
/// where the operation is a query, and behind that at most the registration.
pub proof fn lemma_every_query_can_be_loaded(
    project_config: ProjectConfig,
    normalization_operation: OperationDefinition,
    reader_operation: OperationDefinition,
    typegen_operation: OperationDefinition,
    rendered: Rendered,
    id_and_text_hash: Option<QueryID>,
)
    ensures
        ends_with(
            operation_rescript_text(
                project_config, normalization_operation, reader_operation, typegen_operation,
                rendered, id_and_text_hash,
            ),
            rendered.node@ + "\n"@ + (if typegen_operation.kind == OperationKind::Query {
                "include RescriptRelay.MakeLoadQuery({\n    type variables = Types.variables\n    type loadedQueryRef = queryRef\n    type response = Types.response\n    type node = relayOperationNode\n    let query = node\n    let convertVariables = Internal.convertVariables\n});"@
            } else {
                Seq::empty()
            }) + "\n"@ + (if normalization_operation.preloadable && id_and_text_hash is Some {
                "type operationId\ntype operationTypeParams = {id: operationId}\n@get external getOperationTypeParams: operationType => operationTypeParams = \"params\"\n@module(\"relay-runtime\") @scope(\"PreloadableQueryRegistry\") external setPreloadQuery: (operationType, operationId) => unit = \"set\"\ngetOperationTypeParams(node).id->setPreloadQuery(node)\n"@
            } else {
                Seq::empty()
            }),
        ),
{
    broadcast use {lemma_ends_with_last, lemma_ends_with_more};

}

/// The types of a fragment in ReScript stand right in front of the declaration of its
/// node, wherever the fragment was found and whatever its directives.
pub proof fn lemma_fragment_types_stand_before_node(
    reader_fragment: FragmentDefinition,
    rendered: Rendered,
)
    ensures
        ends_with(
            fragment_rescript_text(reader_fragment, rendered),
            rendered.type_exports@ + "\n"@
                + "type relayOperationNode\ntype operationType = RescriptRelay.fragmentNode<relayOperationNode>\n\n\n"@
                + rendered.node@ + "\n"@,
        ),
{
    broadcast use {lemma_ends_with_last, lemma_ends_with_more};

}

} // verus!
