//! The modules of operations, in the languages other than ReScript.

use std::sync::Arc;
use vstd::prelude::*;
use crate::annotations::{
    data_driven_dependencies, has_text_arguments, indirect_data_driven_dependencies,
    react_flight_client_dependencies, react_flight_server_dependencies, request_id_comment,
    variables_comment, write_data_driven_dependencies, write_indirect_data_driven_dependencies,
    write_react_flight_dependencies, write_request_comments,
};
use crate::config::{Config, ProjectConfig, TypegenLanguage};
use crate::ir::{sent_id, Directives, OperationDefinition, QueryID, RequestParameters};
use crate::replace::lemma_contains_in_front;
use crate::rendered::{
    ArtifactGeneratedTypes, Node, Rendered, Rendering, TopLevelStatement, TypeExports,
};
use crate::sections::{
    disable_lint_header, docblock, export_generated_node, import_type_from,
    lemma_docblock_holds_placeholder, source_hash_section, types_end, types_start,
    variable_value_with_type, write_disable_lint_header, write_docblock,
    write_export_generated_node, write_import_type_from, write_source_hash, write_types_end,
    write_variable_value_with_type,
};
use crate::signing::{is_signed_file, signed_bytes};
use crate::text::{append_if, lemma_concat_associative, lemma_concat_empty, text_if, text_of};

verus! {

/// The statement that registers a query which can be sent before the code that needs it
/// has loaded.
pub open spec fn preloadable_query_registration(language: TypegenLanguage) -> Seq<char> {
    match language {
        TypegenLanguage::Flow =>
            "require('relay-runtime').PreloadableQueryRegistry.set((node.params/*: any*/).id, node);\n\n"@,
        TypegenLanguage::JavaScript =>
            "require('relay-runtime').PreloadableQueryRegistry.set(node.params.id, node);\n\n"@,
        TypegenLanguage::TypeScript =>
            "import { PreloadableQueryRegistry } from 'relay-runtime';\nPreloadableQueryRegistry.set(node.params.id, node);\n\n"@,
        TypegenLanguage::ReScript => "\n\n"@,
    }
}

/// The module of an operation, before it is signed.
pub open spec fn operation_text(
    config: Config,
    project_config: ProjectConfig,
    normalization_operation: OperationDefinition,
    reader_operation: OperationDefinition,
    generated_types: ArtifactGeneratedTypes,
    rendered: Rendered,
    source_hash: Seq<char>,
    id_and_text_hash: Option<QueryID>,
    skip_types: bool,
) -> Seq<char> {
    let language = project_config.typegen_config.language;
    let id = sent_id(rendered.request_id, id_and_text_hash);
    let directives = reader_operation.directives;
    docblock(config, language, id_and_text_hash) + disable_lint_header(language) + text_if(
        language == TypegenLanguage::Flow || language == TypegenLanguage::JavaScript,
        "'use strict';\n\n"@,
    ) + request_id_comment(id) + text_if(
        project_config.variable_names_comment,
        variables_comment(normalization_operation.variable_names@),
    ) + data_driven_dependencies(directives.data_driven_dependency)
        + indirect_data_driven_dependencies(directives.indirect_data_driven_dependency)
        + react_flight_server_dependencies(directives.react_flight_local_components)
        + react_flight_client_dependencies(directives.relay_client_component) + text_if(
        id is Some || directives.data_driven_dependency is Some
            || directives.indirect_data_driven_dependency is Some,
        "\n"@,
    ) + types_start(language) + import_type_from(
        language,
        generated_types.imported_types@,
        "relay-runtime"@,
    ) + text_if(!skip_types, rendered.type_exports@) + types_end(language)
        + rendered.top_level_statements@ + variable_value_with_type(
        language,
        "node"@,
        generated_types.ast_type@,
        rendered.node@,
    ) + source_hash_section(config, language, source_hash) + text_if(
        normalization_operation.preloadable && id_and_text_hash is Some,
        preloadable_query_registration(language),
    ) + export_generated_node(
        project_config.typegen_config,
        "node"@,
        text_of(generated_types.exported_type),
    )
}

/// Tells what has to be rendered before the module of an operation can be written.
pub fn operation_rendering(skip_types: bool) -> (result: Rendering)
    ensures
        result.type_exports == if skip_types {
            TypeExports::Nothing
        } else {
            TypeExports::OperationAndNormalization
        },
        result.node == Node::RequestAndProvidedVariables,
{
    Rendering {
        type_exports: if skip_types {
            TypeExports::Nothing
        } else {
            TypeExports::OperationAndNormalization
        },
        node: Node::RequestAndProvidedVariables,
    }
}

/// Writes the module of an operation and signs it.
pub fn generate_operation(
    config: &Config,
    project_config: &ProjectConfig,
    normalization_operation: &OperationDefinition,
    reader_operation: &OperationDefinition,
    generated_types: ArtifactGeneratedTypes,
    rendered: &Rendered,
    source_hash: String,
    text: &str,
    id_and_text_hash: &Option<QueryID>,
    skip_types: bool,
) -> (result: Result<Vec<u8>, std::fmt::Error>)
    requires
        has_text_arguments(reader_operation.directives.data_driven_dependency),
        has_text_arguments(reader_operation.directives.indirect_data_driven_dependency),
    ensures
        result matches Ok(bytes) && is_signed_file(
            operation_text(
                *config,
                *project_config,
                *normalization_operation,
                *reader_operation,
                generated_types,
                *rendered,
                source_hash@,
                *id_and_text_hash,
                skip_types,
            ),
            bytes@,
        ),
{
    broadcast use lemma_contains_in_front;

    let language: &TypegenLanguage = &project_config.typegen_config.language;
    let request_parameters: RequestParameters<QueryID> = RequestParameters {
        id: &rendered.request_id,
        text: None,
    }.with_query(id_and_text_hash, text);
    let directives: &Directives = &reader_operation.directives;

    let mut content: String = write_docblock(config, language, id_and_text_hash)?;
    write_disable_lint_header(language, &mut content)?;
    append_if(
        &mut content,
        *language == TypegenLanguage::Flow || *language == TypegenLanguage::JavaScript,
        "'use strict';\n\n",
    );

    write_request_comments(
        &mut content,
        request_parameters.id,
        project_config.variable_names_comment,
        &normalization_operation.variable_names,
    );
    write_data_driven_dependencies(&mut content, &directives.data_driven_dependency);
    write_indirect_data_driven_dependencies(
        &mut content,
        &directives.indirect_data_driven_dependency,
    );
    write_react_flight_dependencies(&mut content, directives);
    append_if(
        &mut content,
        request_parameters.id.is_some() || directives.data_driven_dependency.is_some()
            || directives.indirect_data_driven_dependency.is_some(),
        "\n",
    );

    append_if(&mut content, *language == TypegenLanguage::Flow, "/*::\n");
    write_import_type_from(
        language,
        &mut content,
        generated_types.imported_types,
        "relay-runtime",
    )?;
    append_if(&mut content, !skip_types, rendered.type_exports.as_str());
    write_types_end(language, &mut content);

    content.append(rendered.top_level_statements.as_str());
    write_variable_value_with_type(
        language,
        &mut content,
        "node",
        generated_types.ast_type,
        rendered.node.as_str(),
    )?;
    write_source_hash(config, language, &mut content, source_hash.as_str())?;
    write_preloadable_query_registration(
        language,
        &mut content,
        normalization_operation.preloadable && id_and_text_hash.is_some(),
    );
    write_export_generated_node(
        &project_config.typegen_config,
        &mut content,
        "node",
        generated_types.exported_type,
    )?;
    proof {
        lemma_docblock_holds_placeholder(*config, *language, *id_and_text_hash);
    }
    Ok(signed_bytes(content))
}

/// Writes the statement that registers a query, where `preloadable` holds.
fn write_preloadable_query_registration(
    language: &TypegenLanguage,
    content: &mut String,
    preloadable: bool,
)
    ensures
        final(content)@ == old(content)@ + text_if(
            preloadable,
            preloadable_query_registration(*language),
        ),
{
    broadcast use lemma_concat_empty;

    if preloadable {
        match language {
            TypegenLanguage::Flow => content.append(
                "require('relay-runtime').PreloadableQueryRegistry.set((node.params/*: any*/).id, node);\n\n",
            ),
            TypegenLanguage::JavaScript => content.append(
                "require('relay-runtime').PreloadableQueryRegistry.set(node.params.id, node);\n\n",
            ),
            TypegenLanguage::TypeScript => content.append(
                "import { PreloadableQueryRegistry } from 'relay-runtime';\nPreloadableQueryRegistry.set(node.params.id, node);\n\n",
            ),
            TypegenLanguage::ReScript => content.append("\n\n"),
        }
    }
}

/// The statement that defines the variables which the compiler provides, if there are
/// any.
pub fn provided_variables_statement(
    language: &TypegenLanguage,
    variable_name: &str,
    type_: &str,
    provided_variables: &Option<String>,
) -> (result: Option<TopLevelStatement>)
    ensures
        result is Some <==> provided_variables is Some,
        result matches Some(statement) ==> {
            &&& statement.name@ == variable_name@
            &&& statement.definition@ == variable_value_with_type(
                *language,
                variable_name@,
                type_@,
                provided_variables->0@,
            )
        },
{
    match provided_variables {
        Some(provided_variables) => {
            let mut definition: String = String::new();
            write_variable_value_with_type(
                language,
                &mut definition,
                variable_name,
                type_,
                provided_variables.as_str(),
            ).unwrap();
            assert(definition@ =~= variable_value_with_type(
                *language,
                variable_name@,
                type_@,
                provided_variables@,
            ));
            Some(TopLevelStatement { name: String::from_str(variable_name), definition })
        },
        None => None,
    }
}

/// The type that the module of an updatable query exports its node as.
pub open spec fn updatable_query_type(name: Seq<char>) -> Seq<char> {
    "UpdatableQuery<\n  "@ + name + "$variables,\n  "@ + name + "$data,\n>"@
}

/// The module of an updatable query, before it is signed.
pub open spec fn updatable_query_text(
    config: Config,
    project_config: ProjectConfig,
    reader_operation: OperationDefinition,
    rendered: Rendered,
    source_hash: Seq<char>,
    skip_types: bool,
) -> Seq<char> {
    let language = project_config.typegen_config.language;
    docblock(config, language, None) + disable_lint_header(language) + text_if(
        language == TypegenLanguage::Flow || language == TypegenLanguage::JavaScript,
        "'use strict';\n\n"@,
    ) + types_start(language) + import_type_from(
        language,
        "UpdatableQuery, ConcreteUpdatableQuery"@,
        "relay-runtime"@,
    ) + text_if(!skip_types, rendered.type_exports@) + types_end(language)
        + variable_value_with_type(
        language,
        "node"@,
        "ConcreteUpdatableQuery"@,
        rendered.node@,
    ) + source_hash_section(config, language, source_hash) + export_generated_node(
        project_config.typegen_config,
        "node"@,
        Some(updatable_query_type(reader_operation.name@)),
    )
}

/// Writes the module of an updatable query and signs it.
pub fn generate_updatable_query(
    config: &Config,
    project_config: &ProjectConfig,
    reader_operation: &OperationDefinition,
    rendered: &Rendered,
    source_hash: String,
    skip_types: bool,
) -> (result: Result<Vec<u8>, std::fmt::Error>)
    ensures
        result matches Ok(bytes) && is_signed_file(
            updatable_query_text(
                *config,
                *project_config,
                *reader_operation,
                *rendered,
                source_hash@,
                skip_types,
            ),
            bytes@,
        ),
{
    broadcast use lemma_contains_in_front;

    let language: &TypegenLanguage = &project_config.typegen_config.language;
    let mut content: String = write_docblock(config, language, &None)?;
    write_disable_lint_header(language, &mut content)?;
    append_if(
        &mut content,
        *language == TypegenLanguage::Flow || *language == TypegenLanguage::JavaScript,
        "'use strict';\n\n",
    );

    let generated_types = ArtifactGeneratedTypes {
        imported_types: "UpdatableQuery, ConcreteUpdatableQuery",
        ast_type: "ConcreteUpdatableQuery",
        exported_type: Some(
            String::from_str("UpdatableQuery<\n  ").concat(reader_operation.name.as_str()).concat(
                "$variables,\n  ",
            ).concat(reader_operation.name.as_str()).concat("$data,\n>"),
        ),
    };
    append_if(&mut content, *language == TypegenLanguage::Flow, "/*::\n");
    write_import_type_from(
        language,
        &mut content,
        generated_types.imported_types,
        "relay-runtime",
    )?;
    append_if(&mut content, !skip_types, rendered.type_exports.as_str());
    write_types_end(language, &mut content);

    write_variable_value_with_type(
        language,
        &mut content,
        "node",
        generated_types.ast_type,
        rendered.node.as_str(),
    )?;
    write_source_hash(config, language, &mut content, source_hash.as_str())?;
    write_export_generated_node(
        &project_config.typegen_config,
        &mut content,
        "node",
        generated_types.exported_type,
    )?;
    proof {
        lemma_docblock_holds_placeholder(*config, *language, None);
    }
    Ok(signed_bytes(content))
}

/// The module of a split operation, before it is signed.
pub open spec fn split_operation_text(
    config: Config,
    project_config: ProjectConfig,
    typegen_operation: Option<Arc<OperationDefinition>>,
    rendered: Rendered,
    source_hash: Seq<char>,
) -> Seq<char> {
    let language = project_config.typegen_config.language;
    docblock(config, language, None) + disable_lint_header(language) + text_if(
        language == TypegenLanguage::Flow,
        "'use strict';\n\n"@,
    ) + types_start(language) + import_type_from(
        language,
        "NormalizationSplitOperation"@,
        "relay-runtime"@,
    ) + "\n"@ + text_if(typegen_operation is Some, rendered.type_exports@ + "\n"@) + types_end(language)
        + rendered.top_level_statements@ + variable_value_with_type(
        language,
        "node"@,
        "NormalizationSplitOperation"@,
        rendered.node@,
    ) + source_hash_section(config, language, source_hash) + export_generated_node(
        project_config.typegen_config,
        "node"@,
        None,
    )
}

/// Writes the module of a split operation and signs it.
pub fn generate_split_operation(
    config: &Config,
    project_config: &ProjectConfig,
    typegen_operation: &Option<Arc<OperationDefinition>>,
    rendered: &Rendered,
    source_hash: &str,
) -> (result: Result<Vec<u8>, std::fmt::Error>)
    ensures
        result matches Ok(bytes) && is_signed_file(
            split_operation_text(
                *config,
                *project_config,
                *typegen_operation,
                *rendered,
                source_hash@,
            ),
            bytes@,
        ),
{
    broadcast use lemma_contains_in_front;

    let language: &TypegenLanguage = &project_config.typegen_config.language;
    let mut content: String = write_docblock(config, language, &None)?;
    write_disable_lint_header(language, &mut content)?;
    append_if(&mut content, *language == TypegenLanguage::Flow, "'use strict';\n\n");

    append_if(&mut content, *language == TypegenLanguage::Flow, "/*::\n");
    write_import_type_from(language, &mut content, "NormalizationSplitOperation", "relay-runtime")?;
    content.append("\n");
    write_split_operation_types(&mut content, typegen_operation.is_some(), rendered);
    write_types_end(language, &mut content);

    content.append(rendered.top_level_statements.as_str());
    write_variable_value_with_type(
        language,
        &mut content,
        "node",
        "NormalizationSplitOperation",
        rendered.node.as_str(),
    )?;
    write_source_hash(config, language, &mut content, source_hash)?;
    write_export_generated_node(&project_config.typegen_config, &mut content, "node", None)?;
    proof {
        lemma_docblock_holds_placeholder(*config, *language, None);
    }
    Ok(signed_bytes(content))
}

/// Writes the types of a split operation, where it has any.
fn write_split_operation_types(
    content: &mut String,
    has_typegen_operation: bool,
    rendered: &Rendered,
)
    ensures
        final(content)@ == old(content)@ + text_if(
            has_typegen_operation,
            rendered.type_exports@ + "\n"@,
        ),
{
    broadcast use {lemma_concat_associative, lemma_concat_empty};

    if has_typegen_operation {
        content.append(rendered.type_exports.as_str());
        content.append("\n");
    }
}

} // verus!
