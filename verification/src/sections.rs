//! The sections that the modules of all artifacts are made of.

use vstd::prelude::*;
use crate::config::{Config, TypegenConfig, TypegenLanguage};
use crate::ir::QueryID;
use crate::replace::{contains_text, occurs_at};
use crate::signing::{lemma_token, placeholder, signing_token, token};
use crate::text::{
    append_each, append_if, append_optional, each, lemma_concat_associative, lemma_concat_empty,
    optional, text_if, text_of, texts,
};

verus! {

/// The beginning of a docblock: the lines of the header, and an empty line where there
/// are any.
pub open spec fn content_start(config: Config) -> Seq<char> {
    "/**\n"@ + each(" * "@, texts(config.header@), "\n"@) + text_if(
        config.header@.len() > 0,
        " *\n"@,
    )
}

/// The hash of a persisted query's text, with `before` in front of it and `after`
/// behind it.
pub open spec fn persisted_text_hash(
    before: Seq<char>,
    query: Option<QueryID>,
    after: Seq<char>,
) -> Seq<char> {
    match query {
        Some(QueryID::Persisted { id: _, text_hash }) => before + text_hash@ + after,
        _ => Seq::empty(),
    }
}

/// The lines of a docblock behind the signing token.
pub open spec fn docblock_end(
    config: Config,
    language: TypegenLanguage,
    query: Option<QueryID>,
) -> Seq<char> {
    "\n"@ + persisted_text_hash(" * @relayHash "@, query, "\n"@) + text_if(
        language == TypegenLanguage::Flow,
        " * @flow\n"@,
    ) + " * @lightSyntaxTransform\n * @nogrep\n"@ + optional(
        " * @codegen-command: "@,
        config.codegen_command,
        "\n"@,
    ) + " */\n\n"@
}

/// The docblock of a file that is to be signed.
pub open spec fn docblock(
    config: Config,
    language: TypegenLanguage,
    query: Option<QueryID>,
) -> Seq<char> {
    content_start(config) + " * "@ + token() + docblock_end(config, language, query)
}

/// The comments that keep linters away from generated code.
pub open spec fn disable_lint_header(language: TypegenLanguage) -> Seq<char> {
    match language {
        TypegenLanguage::TypeScript =>
            "/* tslint:disable */\n/* eslint-disable */\n// @ts-nocheck\n\n"@,
        TypegenLanguage::Flow | TypegenLanguage::JavaScript => "/* eslint-disable */\n\n"@,
        TypegenLanguage::ReScript => Seq::empty(),
    }
}

/// The import of types from a module.
pub open spec fn import_type_from(
    language: TypegenLanguage,
    type_: Seq<char>,
    from: Seq<char>,
) -> Seq<char> {
    match language {
        TypegenLanguage::Flow => "import type { "@ + type_ + " } from '"@ + from + "';\n"@,
        TypegenLanguage::TypeScript => "import { "@ + type_ + " } from '"@ + from + "';\n"@,
        TypegenLanguage::JavaScript | TypegenLanguage::ReScript => Seq::empty(),
    }
}

/// The line that opens the comment which holds Flow types.
pub open spec fn types_start(language: TypegenLanguage) -> Seq<char> {
    text_if(language == TypegenLanguage::Flow, "/*::\n"@)
}

/// What ends the types of a module.
pub open spec fn types_end(language: TypegenLanguage) -> Seq<char> {
    match language {
        TypegenLanguage::Flow => "*/\n\n"@,
        TypegenLanguage::TypeScript
        | TypegenLanguage::JavaScript
        | TypegenLanguage::ReScript => "\n"@,
    }
}

/// The definition of a variable.
pub open spec fn variable_value_with_type(
    language: TypegenLanguage,
    variable_name: Seq<char>,
    type_: Seq<char>,
    value: Seq<char>,
) -> Seq<char> {
    match language {
        TypegenLanguage::JavaScript => "var "@ + variable_name + " = "@ + value + ";\n\n"@,
        TypegenLanguage::Flow =>
            "var "@ + variable_name + "/*: "@ + type_ + "*/ = "@ + value + ";\n\n"@,
        TypegenLanguage::TypeScript =>
            "const "@ + variable_name + ": "@ + type_ + " = "@ + value + ";\n\n"@,
        TypegenLanguage::ReScript => Seq::empty(),
    }
}

/// The statement that gives the node its hash, in a module that runs it in every build.
pub open spec fn plain_source_hash(language: TypegenLanguage, hash: Seq<char>) -> Seq<char> {
    match language {
        TypegenLanguage::ReScript => "\n"@,
        TypegenLanguage::Flow => "(node/*: any*/).hash = \""@ + hash + "\";\n\n"@,
        TypegenLanguage::JavaScript => "node.hash = \""@ + hash + "\";\n"@,
        TypegenLanguage::TypeScript => "(node as any).hash = \""@ + hash + "\";\n\n"@,
    }
}

/// The statement that gives the node its hash, in a module that runs it in development
/// builds alone.
pub open spec fn guarded_source_hash(language: TypegenLanguage, hash: Seq<char>) -> Seq<char> {
    match language {
        TypegenLanguage::ReScript => "\n"@,
        TypegenLanguage::Flow => "  (node/*: any*/).hash = \""@ + hash + "\";\n"@,
        TypegenLanguage::JavaScript => "node.hash = \""@ + hash + "\";\n"@,
        TypegenLanguage::TypeScript => "  (node as any).hash = \""@ + hash + "\";\n"@,
    }
}

/// The statement that gives the node its hash.
pub open spec fn source_hash_section(
    config: Config,
    language: TypegenLanguage,
    hash: Seq<char>,
) -> Seq<char> {
    match config.is_dev_variable_name {
        Some(variable) => "if ("@ + variable@ + ") {\n"@ + guarded_source_hash(language, hash)
            + "}\n\n"@,
        None => plain_source_hash(language, hash),
    }
}

/// The export of a module's node.
pub open spec fn export_generated_node(
    typegen_config: TypegenConfig,
    variable_node: Seq<char>,
    forced_type: Option<Seq<char>>,
) -> Seq<char> {
    if typegen_config.eager_es_modules {
        "export default "@ + variable_node + ";\n"@
    } else {
        match (typegen_config.language, forced_type) {
            (TypegenLanguage::ReScript, _) => Seq::empty(),
            (TypegenLanguage::JavaScript, _) => "module.exports = "@ + variable_node + ";\n"@,
            (TypegenLanguage::Flow, None) => "module.exports = "@ + variable_node + ";\n"@,
            (TypegenLanguage::Flow, Some(forced_type)) => "module.exports = (("@ + variable_node
                + "/*: any*/)/*: "@ + forced_type + "*/);\n"@,
            (TypegenLanguage::TypeScript, _) => "export default "@ + variable_node + ";\n"@,
        }
    }
}

/// A docblock holds the placeholder of a signature.
pub proof fn lemma_docblock_holds_placeholder(
    config: Config,
    language: TypegenLanguage,
    query: Option<QueryID>,
)
    ensures
        contains_text(docblock(config, language, query), placeholder()),
{
    let text = docblock(config, language, query);
    let start = content_start(config) + " * "@ + "\x40generated "@;
    let i = start.len() as int;
    assert(text =~= start + placeholder() + docblock_end(config, language, query));
    assert(text.subrange(i, i + placeholder().len()) =~= placeholder());
    assert(occurs_at(text, placeholder(), i));
}

/// Begins a docblock with the lines of the header.
pub fn get_content_start(config: &Config) -> (result: Result<String, std::fmt::Error>)
    ensures
        result matches Ok(content) && content@ == content_start(*config),
{
    broadcast use {lemma_concat_associative, lemma_concat_empty};

    let mut content: String = String::from_str("/**\n");
    append_each(&mut content, " * ", &config.header, "\n");
    append_if(&mut content, config.header.len() > 0, " *\n");
    Ok(content)
}

/// Writes the docblock of a file that is to be signed.
pub(crate) fn write_docblock(
    config: &Config,
    language: &TypegenLanguage,
    query: &Option<QueryID>,
) -> (result: Result<String, std::fmt::Error>)
    ensures
        result matches Ok(content) && content@ == docblock(*config, *language, *query),
{
    broadcast use {lemma_concat_associative, lemma_concat_empty};

    let mut content: String = get_content_start(config)?;
    content.append(" * ");
    content.append(signing_token());
    proof {
        lemma_token();
    }
    content.append("\n");
    append_persisted_text_hash(&mut content, " * @relayHash ", query, "\n");
    append_if(&mut content, *language == TypegenLanguage::Flow, " * @flow\n");
    content.append(" * @lightSyntaxTransform\n * @nogrep\n");
    append_optional(&mut content, " * @codegen-command: ", &config.codegen_command, "\n");
    content.append(" */\n\n");
    Ok(content)
}

/// Appends the hash of a persisted query's text, with `before` in front of it and
/// `after` behind it.
pub(crate) fn append_persisted_text_hash(
    content: &mut String,
    before: &str,
    query: &Option<QueryID>,
    after: &str,
)
    ensures
        final(content)@ == old(content)@ + persisted_text_hash(before@, *query, after@),
{
    broadcast use {lemma_concat_associative, lemma_concat_empty};

    if let Some(QueryID::Persisted { id: _, text_hash }) = query {
        content.append(before);
        content.append(text_hash.as_str());
        content.append(after);
    }
}

/// Writes the comments that keep linters away from generated code.
pub fn write_disable_lint_header(language: &TypegenLanguage, content: &mut String) -> (result:
    Result<(), std::fmt::Error>)
    ensures
        result is Ok,
        final(content)@ == old(content)@ + disable_lint_header(*language),
{
    broadcast use lemma_concat_empty;

    match language {
        TypegenLanguage::TypeScript => content.append(
            "/* tslint:disable */\n/* eslint-disable */\n// @ts-nocheck\n\n",
        ),
        TypegenLanguage::Flow | TypegenLanguage::JavaScript => content.append(
            "/* eslint-disable */\n\n",
        ),
        TypegenLanguage::ReScript => {},
    }
    Ok(())
}

/// Writes the import of types from a module.
pub fn write_import_type_from(
    language: &TypegenLanguage,
    content: &mut String,
    type_: &str,
    from: &str,
) -> (result: Result<(), std::fmt::Error>)
    ensures
        result is Ok,
        final(content)@ == old(content)@ + import_type_from(*language, type_@, from@),
{
    broadcast use {lemma_concat_associative, lemma_concat_empty};

    match language {
        TypegenLanguage::JavaScript => return Ok(()),
        TypegenLanguage::Flow => content.append("import type { "),
        TypegenLanguage::TypeScript => content.append("import { "),
        TypegenLanguage::ReScript => return Ok(()),
    }
    content.append(type_);
    content.append(" } from '");
    content.append(from);
    content.append("';\n");
    Ok(())
}

/// Writes what ends the types of a module.
pub(crate) fn write_types_end(language: &TypegenLanguage, content: &mut String)
    ensures
        final(content)@ == old(content)@ + types_end(*language),
{
    match language {
        TypegenLanguage::Flow => content.append("*/\n\n"),
        TypegenLanguage::TypeScript
        | TypegenLanguage::JavaScript
        | TypegenLanguage::ReScript => content.append("\n"),
    }
}

/// Writes the definition of a variable.
pub fn write_variable_value_with_type(
    language: &TypegenLanguage,
    content: &mut String,
    variable_name: &str,
    type_: &str,
    value: &str,
) -> (result: Result<(), std::fmt::Error>)
    ensures
        result is Ok,
        final(content)@ == old(content)@ + variable_value_with_type(
            *language,
            variable_name@,
            type_@,
            value@,
        ),
{
    broadcast use {lemma_concat_associative, lemma_concat_empty};

    match language {
        TypegenLanguage::JavaScript => {
            content.append("var ");
            content.append(variable_name);
            content.append(" = ");
        },
        TypegenLanguage::Flow => {
            content.append("var ");
            content.append(variable_name);
            content.append("/*: ");
            content.append(type_);
            content.append("*/ = ");
        },
        TypegenLanguage::TypeScript => {
            content.append("const ");
            content.append(variable_name);
            content.append(": ");
            content.append(type_);
            content.append(" = ");
        },
        TypegenLanguage::ReScript => return Ok(()),
    }
    content.append(value);
    content.append(";\n\n");
    Ok(())
}

/// Writes the statement that gives the node its hash.
pub fn write_source_hash(
    config: &Config,
    language: &TypegenLanguage,
    content: &mut String,
    source_hash: &str,
) -> (result: Result<(), std::fmt::Error>)
    ensures
        result is Ok,
        final(content)@ == old(content)@ + source_hash_section(*config, *language, source_hash@),
{
    broadcast use {lemma_concat_associative, lemma_concat_empty};

    if let Some(is_dev_variable_name) = &config.is_dev_variable_name {
        content.append("if (");
        content.append(is_dev_variable_name.as_str());
        content.append(") {\n");
        match language {
            TypegenLanguage::ReScript => content.append("\n"),
            TypegenLanguage::Flow => {
                content.append("  (node/*: any*/).hash = \"");
                content.append(source_hash);
                content.append("\";\n");
            },
            TypegenLanguage::JavaScript => {
                content.append("node.hash = \"");
                content.append(source_hash);
                content.append("\";\n");
            },
            TypegenLanguage::TypeScript => {
                content.append("  (node as any).hash = \"");
                content.append(source_hash);
                content.append("\";\n");
            },
        }
        content.append("}\n\n");
    } else {
        match language {
            TypegenLanguage::ReScript => content.append("\n"),
            TypegenLanguage::Flow => {
                content.append("(node/*: any*/).hash = \"");
                content.append(source_hash);
                content.append("\";\n\n");
            },
            TypegenLanguage::JavaScript => {
                content.append("node.hash = \"");
                content.append(source_hash);
                content.append("\";\n");
            },
            TypegenLanguage::TypeScript => {
                content.append("(node as any).hash = \"");
                content.append(source_hash);
                content.append("\";\n\n");
            },
        }
    }
    Ok(())
}

/// Writes the export of a module's node.
pub fn write_export_generated_node(
    typegen_config: &TypegenConfig,
    content: &mut String,
    variable_node: &str,
    forced_type: Option<String>,
) -> (result: Result<(), std::fmt::Error>)
    ensures
        result is Ok,
        final(content)@ == old(content)@ + export_generated_node(
            *typegen_config,
            variable_node@,
            text_of(forced_type),
        ),
{
    broadcast use {lemma_concat_associative, lemma_concat_empty};

    if typegen_config.eager_es_modules {
        content.append("export default ");
        content.append(variable_node);
        content.append(";\n");
    } else {
        match (typegen_config.language, forced_type) {
            (TypegenLanguage::ReScript, _) => {},
            (TypegenLanguage::Flow, None) | (TypegenLanguage::JavaScript, _) => {
                content.append("module.exports = ");
                content.append(variable_node);
                content.append(";\n");
            },
            (TypegenLanguage::Flow, Some(forced_type)) => {
                content.append("module.exports = ((");
                content.append(variable_node);
                content.append("/*: any*/)/*: ");
                content.append(forced_type.as_str());
                content.append("*/);\n");
            },
            (TypegenLanguage::TypeScript, _) => {
                content.append("export default ");
                content.append(variable_node);
                content.append(";\n");
            },
        }
    }
    Ok(())
}

} // verus!
