//! The modules of fragments, in the languages other than ReScript.

use vstd::prelude::*;
use crate::annotations::{
    data_driven_dependencies, has_text_arguments, react_flight_client_dependencies,
    react_flight_server_dependencies, write_data_driven_dependencies,
    write_react_flight_dependencies,
};
use crate::config::{Config, ProjectConfig, TypegenLanguage};
use crate::ir::{Directives, FragmentDefinition};
use crate::rendered::{ArtifactGeneratedTypes, Node, Rendered, Rendering, TypeExports};
use crate::replace::lemma_contains_in_front;
use crate::sections::{
    disable_lint_header, docblock, export_generated_node, import_type_from,
    lemma_docblock_holds_placeholder, source_hash_section, types_end, types_start,
    variable_value_with_type, write_disable_lint_header, write_docblock,
    write_export_generated_node, write_import_type_from, write_source_hash, write_types_end,
    write_variable_value_with_type,
};
use crate::signing::{is_signed_file, signed_bytes};
use crate::text::{append_if, text_if, text_of};

verus! {

/// The module of a fragment that is read, before it is signed.
pub open spec fn read_only_fragment_text(
    config: Config,
    project_config: ProjectConfig,
    reader_fragment: FragmentDefinition,
    generated_types: ArtifactGeneratedTypes,
    rendered: Rendered,
    source_hash: Seq<char>,
    skip_types: bool,
) -> Seq<char> {
    let language = project_config.typegen_config.language;
    let directives = reader_fragment.directives;
    docblock(config, language, None) + disable_lint_header(language) + text_if(
        language == TypegenLanguage::Flow,
        "'use strict';\n\n"@,
    ) + data_driven_dependencies(directives.data_driven_dependency) + text_if(
        directives.data_driven_dependency is Some,
        "\n"@,
    ) + react_flight_server_dependencies(directives.react_flight_local_components)
        + react_flight_client_dependencies(directives.relay_client_component) + types_start(
        language,
    ) + import_type_from(language, generated_types.imported_types@, "relay-runtime"@) + text_if(
        !skip_types,
        rendered.type_exports@,
    ) + types_end(language) + rendered.top_level_statements@ + variable_value_with_type(
        language,
        "node"@,
        generated_types.ast_type@,
        rendered.node@,
    ) + source_hash_section(config, language, source_hash) + export_generated_node(
        project_config.typegen_config,
        "node"@,
        text_of(generated_types.exported_type),
    )
}

/// The module of a fragment that is assigned, before it is signed. Such a fragment is
/// never read, so its module has no node: it exports a validator alone.
pub open spec fn assignable_fragment_text(
    config: Config,
    project_config: ProjectConfig,
    type_exports: Seq<char>,
    named_validator_export: Seq<char>,
    skip_types: bool,
) -> Seq<char> {
    let language = project_config.typegen_config.language;
    docblock(config, language, None) + disable_lint_header(language) + text_if(
        language == TypegenLanguage::Flow,
        "'use strict';\n\n"@,
    ) + types_start(language) + text_if(!skip_types, type_exports) + types_end(language)
        + named_validator_export + "\n"@
}

/// The module of a fragment, before it is signed.
pub open spec fn fragment_text(
    config: Config,
    project_config: ProjectConfig,
    reader_fragment: FragmentDefinition,
    typegen_fragment: FragmentDefinition,
    generated_types: ArtifactGeneratedTypes,
    rendered: Rendered,
    named_validator_export: Seq<char>,
    source_hash: Seq<char>,
    skip_types: bool,
) -> Seq<char> {
    if typegen_fragment.directives.assignable {
        assignable_fragment_text(
            config,
            project_config,
            rendered.type_exports@,
            named_validator_export,
            skip_types,
        )
    } else {
        read_only_fragment_text(
            config,
            project_config,
            reader_fragment,
            generated_types,
            rendered,
            source_hash,
            skip_types,
        )
    }
}

/// Tells what has to be rendered before the module of a fragment can be written.
pub fn fragment_rendering(typegen_fragment: &FragmentDefinition, skip_types: bool) -> (result:
    Rendering)
    ensures
        result.type_exports == if skip_types {
            TypeExports::Nothing
        } else {
            TypeExports::Fragment
        },
        result.node == if typegen_fragment.directives.assignable {
            Node::NamedValidator
        } else {
            Node::Fragment
        },
{
    Rendering {
        type_exports: if skip_types {
            TypeExports::Nothing
        } else {
            TypeExports::Fragment
        },
        node: if typegen_fragment.directives.assignable {
            Node::NamedValidator
        } else {
            Node::Fragment
        },
    }
}

/// Writes the module of a fragment and signs it.
pub fn generate_fragment(
    config: &Config,
    project_config: &ProjectConfig,
    reader_fragment: &FragmentDefinition,
    typegen_fragment: &FragmentDefinition,
    generated_types: ArtifactGeneratedTypes,
    rendered: &Rendered,
    named_validator_export: &str,
    source_hash: &str,
    skip_types: bool,
) -> (result: Result<Vec<u8>, std::fmt::Error>)
    requires
        typegen_fragment.directives.assignable || has_text_arguments(
            reader_fragment.directives.data_driven_dependency,
        ),
    ensures
        result matches Ok(bytes) && is_signed_file(
            fragment_text(
                *config,
                *project_config,
                *reader_fragment,
                *typegen_fragment,
                generated_types,
                *rendered,
                named_validator_export@,
                source_hash@,
                skip_types,
            ),
            bytes@,
        ),
{
    let is_assignable_fragment: bool = typegen_fragment.directives.assignable;
    if is_assignable_fragment {
        generate_assignable_fragment(
            config,
            project_config,
            rendered.type_exports.as_str(),
            named_validator_export,
            skip_types,
        )
    } else {
        generate_read_only_fragment(
            config,
            project_config,
            reader_fragment,
            generated_types,
            rendered,
            source_hash,
            skip_types,
        )
    }
}

/// Writes the module of a fragment that is read and signs it.
pub fn generate_read_only_fragment(
    config: &Config,
    project_config: &ProjectConfig,
    reader_fragment: &FragmentDefinition,
    generated_types: ArtifactGeneratedTypes,
    rendered: &Rendered,
    source_hash: &str,
    skip_types: bool,
) -> (result: Result<Vec<u8>, std::fmt::Error>)
    requires
        has_text_arguments(reader_fragment.directives.data_driven_dependency),
    ensures
        result matches Ok(bytes) && is_signed_file(
            read_only_fragment_text(
                *config,
                *project_config,
                *reader_fragment,
                generated_types,
                *rendered,
                source_hash@,
                skip_types,
            ),
            bytes@,
        ),
{
    broadcast use lemma_contains_in_front;

    let language: &TypegenLanguage = &project_config.typegen_config.language;
    let directives: &Directives = &reader_fragment.directives;
    let mut content: String = write_docblock(config, language, &None)?;
    write_disable_lint_header(language, &mut content)?;
    append_if(&mut content, *language == TypegenLanguage::Flow, "'use strict';\n\n");

    write_data_driven_dependencies(&mut content, &directives.data_driven_dependency);
    append_if(&mut content, directives.data_driven_dependency.is_some(), "\n");
    write_react_flight_dependencies(&mut content, directives);

    append_if(&mut content, *language == TypegenLanguage::Flow, "/*::\n");
    write_import_type_from(
        language,
        &mut content,
        generated_types.imported_types,
        "relay-runtime",
    )?;
    append_if(&mut content, !skip_types, rendered.type_exports.as_str());
    write_types_end(language, &mut content);

    content.append(rendered.top_level_statements.as_str());
    write_variable_value_with_type(
        language,
        &mut content,
        "node",
        generated_types.ast_type,
        rendered.node.as_str(),
    )?;
    write_source_hash(config, language, &mut content, source_hash)?;
    write_export_generated_node(
        &project_config.typegen_config,
        &mut content,
        "node",
        generated_types.exported_type,
    )?;
    proof {
        lemma_docblock_holds_placeholder(*config, *language, None);
    }
    Ok(signed_bytes(content))
}

/// Writes the module of a fragment that is assigned and signs it.
pub fn generate_assignable_fragment(
    config: &Config,
    project_config: &ProjectConfig,
    type_exports: &str,
    named_validator_export: &str,
    skip_types: bool,
) -> (result: Result<Vec<u8>, std::fmt::Error>)
    ensures
        result matches Ok(bytes) && is_signed_file(
            assignable_fragment_text(
                *config,
                *project_config,
                type_exports@,
                named_validator_export@,
                skip_types,
            ),
            bytes@,
        ),
{
    broadcast use lemma_contains_in_front;

    let language: &TypegenLanguage = &project_config.typegen_config.language;
    let mut content: String = write_docblock(config, language, &None)?;
    write_disable_lint_header(language, &mut content)?;
    append_if(&mut content, *language == TypegenLanguage::Flow, "'use strict';\n\n");

    append_if(&mut content, *language == TypegenLanguage::Flow, "/*::\n");
    append_if(&mut content, !skip_types, type_exports);
    write_types_end(language, &mut content);

    content.append(named_validator_export);
    content.append("\n");
    proof {
        lemma_docblock_holds_placeholder(*config, *language, None);
    }
    Ok(signed_bytes(content))
}

} // verus!
