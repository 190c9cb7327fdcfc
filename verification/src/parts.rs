//! What holds of the parts that all files are made of.

use vstd::prelude::*;
use crate::annotations::{
    data_driven_dependencies, has_text_arguments, indirect_data_driven_dependencies,
    named_arguments,
    react_flight_client_dependencies, react_flight_server_dependencies, request_id_comment,
    variables_comment,
};
use crate::config::{Config, TypegenConfig, TypegenLanguage};
use crate::differences::{group_same_but_for, same_but_for};
use crate::ir::{
    sent_id, Argument, ConstantValue, Directive, QueryID, ReactFlightLocalComponentsMetadata,
    RelayClientComponentMetadata, Value,
};
use crate::sections::{
    content_start, disable_lint_header, docblock, export_generated_node, import_type_from,
    source_hash_section, variable_value_with_type,
};
use crate::signing::placeholder;
use crate::text::{
    each, lemma_concat_associative, lemma_concat_empty, lemma_each_push, lemma_empty_concat, text_of,
    texts,
};

verus! {

/// No items, no text.
pub proof fn lemma_each_of_none(before: Seq<char>, after: Seq<char>)
    ensures
        each(before, Seq::empty(), after) == Seq::<char>::empty(),
{
}

/// A single item stands between what is put around it.
pub proof fn lemma_each_of_one(before: Seq<char>, item: Seq<char>, after: Seq<char>)
    ensures
        each(before, seq![item], after) == before + item + after,
{
    broadcast use lemma_empty_concat;

    assert(seq![item] =~= Seq::empty().push(item));
    lemma_each_push(before, Seq::empty(), item, after);
}

/// The text of two lists is the text of the one and then the text of the other.
pub proof fn lemma_each_of_two_lists(
    before: Seq<char>,
    items: Seq<Seq<char>>,
    more: Seq<Seq<char>>,
    after: Seq<char>,
)
    ensures
        each(before, items + more, after) == each(before, items, after) + each(before, more, after),
    decreases more.len(),
{
    broadcast use {lemma_concat_associative, lemma_concat_empty};

    if more.len() == 0 {
        assert(items + more =~= items);
    } else {
        assert((items + more).drop_last() =~= items + more.drop_last());
        lemma_each_of_two_lists(before, items, more.drop_last(), after);
    }
}

/// What an optional string holds.
pub proof fn lemma_text_of(string: String)
    ensures
        text_of(Some(string)) == Some(string@),
        text_of(None) == None::<Seq<char>>,
{
}

/// Every string is listed, in order.
pub proof fn lemma_texts(strings: Seq<String>, i: int)
    requires
        0 <= i < strings.len(),
    ensures
        texts(strings).len() == strings.len(),
        texts(strings)[i] == strings[i]@,
{
}

/// A directive without arguments lists no dependency, and neither does one that is not
/// there.
pub proof fn lemma_no_arguments_no_dependencies(directive: Directive)
    requires
        directive.arguments@.len() == 0,
    ensures
        data_driven_dependencies(Some(directive)) == Seq::<char>::empty(),
        indirect_data_driven_dependencies(Some(directive)) == Seq::<char>::empty(),
        data_driven_dependencies(None) == Seq::<char>::empty(),
        indirect_data_driven_dependencies(None) == Seq::<char>::empty(),
        directive.arguments_are_text(),
{
}

/// Dependencies can be written down exactly where every argument of the directive that
/// lists them is a constant string, and where there is no such directive.
pub proof fn lemma_what_can_be_listed(directive: Directive)
    ensures
        has_text_arguments(None),
        has_text_arguments(Some(directive)) <==> (forall|i: int|
            0 <= i < directive.arguments@.len() ==> ((
            #[trigger] directive.arguments@[i]).value matches Value::Constant(
                ConstantValue::Text(_),
            ))),
{
    if has_text_arguments(Some(directive)) {
        assert forall|i: int| 0 <= i < directive.arguments@.len() implies ((
        #[trigger] directive.arguments@[i]).value matches Value::Constant(
            ConstantValue::Text(_),
        )) by {
            assert(directive.arguments@[i].value.is_text());
        }
    }
}

/// One more argument adds one more line behind all others, with its name and its text.
pub proof fn lemma_argument_adds_line(directive: Directive, longer: Directive, argument: Argument)
    requires
        longer.arguments@ == directive.arguments@.push(argument),
    ensures
        argument.value matches Value::Constant(ConstantValue::Text(value)) ==> {
            &&& data_driven_dependencies(Some(longer)) == data_driven_dependencies(Some(directive))
                + "// @dataDrivenDependency "@ + (argument.name@ + " "@ + value@) + "\n"@
            &&& indirect_data_driven_dependencies(Some(longer))
                == indirect_data_driven_dependencies(Some(directive))
                + "// @indirectDataDrivenDependency "@ + (argument.name@ + " "@ + value@) + "\n"@
        },
        longer.arguments_are_text() <==> directive.arguments_are_text() && (
        argument.value matches Value::Constant(ConstantValue::Text(_))),
{
    let item = argument.name@ + " "@ + argument.value.text();
    let items = named_arguments(directive.arguments@);
    assert(named_arguments(longer.arguments@) =~= items.push(item));
    lemma_each_push("// @dataDrivenDependency "@, items, item, "\n"@);
    lemma_each_push("// @indirectDataDrivenDependency "@, items, item, "\n"@);
    if longer.arguments_are_text() {
        assert forall|i: int| 0 <= i < directive.arguments@.len() implies
            #[trigger] directive.arguments@[i].value.is_text() by {
            assert(longer.arguments@[i].value.is_text());
        }
        assert(longer.arguments@[directive.arguments@.len() as int].value.is_text());
    }
}

/// One more server component adds one more line in front of the empty line at the end.
pub proof fn lemma_server_component_adds_line(
    metadata: ReactFlightLocalComponentsMetadata,
    longer: ReactFlightLocalComponentsMetadata,
    component: String,
)
    requires
        longer.components@ == metadata.components@.push(component),
    ensures
        exists|lines: Seq<char>|
            react_flight_server_dependencies(Some(metadata)) == #[trigger] (lines + "\n"@)
                && react_flight_server_dependencies(Some(longer)) == lines
                + "// @ReactFlightServerDependency "@ + component@ + "\n"@ + "\n"@,
        metadata.components@.len() == 0 ==> react_flight_server_dependencies(Some(metadata))
            == "\n"@,
        react_flight_server_dependencies(None) == Seq::<char>::empty(),
{
    broadcast use lemma_empty_concat;

    let items = texts(metadata.components@);
    let lines = each("// @ReactFlightServerDependency "@, items, "\n"@);
    assert(texts(longer.components@) =~= items.push(component@));
    lemma_each_push("// @ReactFlightServerDependency "@, items, component@, "\n"@);
    assert(react_flight_server_dependencies(Some(metadata)) == lines + "\n"@);
}

/// One more client component adds one more line in front of the empty line at the end.
pub proof fn lemma_client_component_adds_line(
    metadata: RelayClientComponentMetadata,
    longer: RelayClientComponentMetadata,
    filename: String,
)
    requires
        longer.split_operation_filenames@ == metadata.split_operation_filenames@.push(filename),
    ensures
        exists|lines: Seq<char>|
            react_flight_client_dependencies(Some(metadata)) == #[trigger] (lines + "\n"@)
                && react_flight_client_dependencies(Some(longer)) == lines
                + "// @ReactFlightClientDependency "@ + filename@ + "\n"@ + "\n"@,
        metadata.split_operation_filenames@.len() == 0 ==> react_flight_client_dependencies(
            Some(metadata),
        ) == "\n"@,
        react_flight_client_dependencies(None) == Seq::<char>::empty(),
{
    broadcast use lemma_empty_concat;

    let items = texts(metadata.split_operation_filenames@);
    let lines = each("// @ReactFlightClientDependency "@, items, "\n"@);
    assert(texts(longer.split_operation_filenames@) =~= items.push(filename@));
    lemma_each_push("// @ReactFlightClientDependency "@, items, filename@, "\n"@);
    assert(react_flight_client_dependencies(Some(metadata)) == lines + "\n"@);
}

/// One more variable adds one more name behind all others, on the same line.
pub proof fn lemma_variable_adds_name(names: Seq<String>, name: String)
    ensures
        exists|line: Seq<char>|
            variables_comment(names) == #[trigger] (line + "\n"@) && variables_comment(
                names.push(name),
            ) == line + (" "@ + name@) + "\n"@,
        names.len() == 0 ==> variables_comment(names) == "// @relayVariables"@ + "\n"@,
{
    broadcast use {lemma_concat_associative, lemma_concat_empty};

    let items = texts(names);
    let line = "// @relayVariables"@ + each(" "@, items, Seq::empty());
    assert(texts(names.push(name)) =~= items.push(name@));
    lemma_each_push(" "@, items, name@, Seq::empty());
    assert(variables_comment(names) == line + "\n"@);
}

/// A comment names the id of a persisted query, and no other.
pub proof fn lemma_request_id_comment(id: Option<QueryID>)
    ensures
        id matches Some(QueryID::Persisted { id: name, text_hash: _ }) ==> request_id_comment(id)
            == "// @relayRequestID "@ + name@ + "\n"@,
        !(id matches Some(QueryID::Persisted { id: _, text_hash: _ })) ==> request_id_comment(id)
            == Seq::<char>::empty(),
{
}

/// A request sends the id of its query, and keeps its own only where the query has none.
pub proof fn lemma_sent_id<Q>(parameters_id: Option<Q>, id_and_text_hash: Option<Q>)
    ensures
        id_and_text_hash is Some ==> sent_id(parameters_id, id_and_text_hash) == id_and_text_hash,
        id_and_text_hash is None ==> sent_id(parameters_id, id_and_text_hash) == parameters_id,
{
}

/// One more line of the header stands behind all others, in front of the empty line that
/// ends a header.
pub proof fn lemma_header_line_is_shown(config: Config, longer: Config, line: String)
    requires
        longer.header@ == config.header@.push(line),
    ensures
        config.header@.len() == 0 ==> content_start(config) == "/**\n"@ && content_start(longer)
            == "/**\n"@ + (" * "@ + line@ + "\n"@) + " *\n"@,
        config.header@.len() > 0 ==> exists|lines: Seq<char>|
            content_start(config) == #[trigger] (lines + " *\n"@) && content_start(longer) == lines
                + (" * "@ + line@ + "\n"@) + " *\n"@,
{
    broadcast use {lemma_concat_associative, lemma_concat_empty, lemma_empty_concat};

    let items = texts(config.header@);
    let lines = "/**\n"@ + each(" * "@, items, "\n"@);
    assert(texts(longer.header@) =~= items.push(line@));
    lemma_each_push(" * "@, items, line@, "\n"@);
    if config.header@.len() > 0 {
        assert(content_start(config) == lines + " *\n"@);
    }
}

/// The docblock of a file that names no hash, is not in Flow and has no command: the
/// header, the token that signing replaces, and what is fixed.
pub proof fn lemma_plain_docblock(config: Config, language: TypegenLanguage, query: Option<QueryID>)
    requires
        language != TypegenLanguage::Flow,
        config.codegen_command is None,
        !(query matches Some(QueryID::Persisted { id: _, text_hash: _ })),
    ensures
        docblock(config, language, query) == content_start(config) + " * "@ + ("\x40generated "@
            + placeholder()) + ("\n"@ + " * @lightSyntaxTransform\n * @nogrep\n"@ + " */\n\n"@),
{
    broadcast use lemma_concat_empty;

}

/// A docblock marks Flow, and no other language, whatever else it holds.
pub proof fn lemma_docblock_marks_flow(
    config: Config,
    language: TypegenLanguage,
    other_language: TypegenLanguage,
    query: Option<QueryID>,
)
    ensures
        same_but_for(
            docblock(config, language, query),
            docblock(config, other_language, query),
            if language == TypegenLanguage::Flow { " * @flow\n"@ } else { Seq::empty() },
            if other_language == TypegenLanguage::Flow { " * @flow\n"@ } else { Seq::empty() },
        ),
{
    broadcast use group_same_but_for;

}

/// A docblock names the command where there is one, whatever else it holds.
pub proof fn lemma_docblock_names_command(
    config: Config,
    other_config: Config,
    language: TypegenLanguage,
    query: Option<QueryID>,
)
    requires
        config.header@ == other_config.header@,
    ensures
        same_but_for(
            docblock(config, language, query),
            docblock(other_config, language, query),
            match config.codegen_command {
                Some(command) => " * @codegen-command: "@ + command@ + "\n"@,
                None => Seq::empty(),
            },
            match other_config.codegen_command {
                Some(command) => " * @codegen-command: "@ + command@ + "\n"@,
                None => Seq::empty(),
            },
        ),
{
    broadcast use group_same_but_for;

}

/// A docblock names the hash of a persisted query's text, whatever else it holds.
pub proof fn lemma_docblock_names_hash(
    config: Config,
    language: TypegenLanguage,
    query: Option<QueryID>,
    other_query: Option<QueryID>,
)
    ensures
        same_but_for(
            docblock(config, language, query),
            docblock(config, language, other_query),
            match query {
                Some(QueryID::Persisted { id: _, text_hash }) => " * @relayHash "@ + text_hash@
                    + "\n"@,
                _ => Seq::empty(),
            },
            match other_query {
                Some(QueryID::Persisted { id: _, text_hash }) => " * @relayHash "@ + text_hash@
                    + "\n"@,
                _ => Seq::empty(),
            },
        ),
{
    broadcast use group_same_but_for;

}

/// A full docblock, from the token to the end: the hash, then Flow, then what is fixed,
/// then the command.
pub proof fn lemma_full_docblock(
    config: Config,
    command: String,
    id: String,
    text_hash: String,
)
    requires
        config.codegen_command == Some(command),
    ensures
        docblock(
            config,
            TypegenLanguage::Flow,
            Some(QueryID::Persisted { id, text_hash }),
        ) == content_start(config) + " * "@ + ("\x40generated "@ + placeholder()) + ("\n"@ + (
        " * @relayHash "@ + text_hash@ + "\n"@) + " * @flow\n"@
            + " * @lightSyntaxTransform\n * @nogrep\n"@ + (" * @codegen-command: "@ + command@
            + "\n"@) + " */\n\n"@),
{
}

/// Linters are turned off in every language that has any.
pub proof fn lemma_linters_are_off()
    ensures
        disable_lint_header(TypegenLanguage::JavaScript) == "/* eslint-disable */\n\n"@,
        disable_lint_header(TypegenLanguage::Flow) == "/* eslint-disable */\n\n"@,
        disable_lint_header(TypegenLanguage::TypeScript)
            == "/* tslint:disable */\n/* eslint-disable */\n// @ts-nocheck\n\n"@,
        disable_lint_header(TypegenLanguage::ReScript) == Seq::<char>::empty(),
{
}

/// Types are imported in the languages that have types, by name and from where they are.
pub proof fn lemma_imports(type_: Seq<char>, from: Seq<char>)
    ensures
        import_type_from(TypegenLanguage::Flow, type_, from) == "import type { "@ + type_
            + " } from '"@ + from + "';\n"@,
        import_type_from(TypegenLanguage::TypeScript, type_, from) == "import { "@ + type_
            + " } from '"@ + from + "';\n"@,
        import_type_from(TypegenLanguage::JavaScript, type_, from) == Seq::<char>::empty(),
        import_type_from(TypegenLanguage::ReScript, type_, from) == Seq::<char>::empty(),
{
}

/// A variable is defined by its name, its type where the language has types, and its
/// value.
pub proof fn lemma_definitions(name: Seq<char>, type_: Seq<char>, value: Seq<char>)
    ensures
        variable_value_with_type(TypegenLanguage::JavaScript, name, type_, value) == "var "@ + name
            + " = "@ + value + ";\n\n"@,
        variable_value_with_type(TypegenLanguage::Flow, name, type_, value) == "var "@ + name
            + "/*: "@ + type_ + "*/ = "@ + value + ";\n\n"@,
        variable_value_with_type(TypegenLanguage::TypeScript, name, type_, value) == "const "@
            + name + ": "@ + type_ + " = "@ + value + ";\n\n"@,
        variable_value_with_type(TypegenLanguage::ReScript, name, type_, value) == Seq::<
            char,
        >::empty(),
{
}

/// The node gets its hash in every build where no variable marks development builds.
pub proof fn lemma_hash_in_every_build(config: Config, hash: Seq<char>)
    requires
        config.is_dev_variable_name is None,
    ensures
        source_hash_section(config, TypegenLanguage::JavaScript, hash) == "node.hash = \""@ + hash
            + "\";\n"@,
        source_hash_section(config, TypegenLanguage::Flow, hash)
            == "(node/*: any*/).hash = \""@ + hash + "\";\n\n"@,
        source_hash_section(config, TypegenLanguage::TypeScript, hash)
            == "(node as any).hash = \""@ + hash + "\";\n\n"@,
        source_hash_section(config, TypegenLanguage::ReScript, hash) == "\n"@,
{
}

/// The node gets its hash in development builds alone where a variable marks them.
pub proof fn lemma_hash_in_development_builds(config: Config, variable: String, hash: Seq<char>)
    requires
        config.is_dev_variable_name == Some(variable),
    ensures
        source_hash_section(config, TypegenLanguage::JavaScript, hash) == "if ("@ + variable@
            + ") {\n"@ + ("node.hash = \""@ + hash + "\";\n"@) + "}\n\n"@,
        source_hash_section(config, TypegenLanguage::Flow, hash) == "if ("@ + variable@ + ") {\n"@
            + ("  (node/*: any*/).hash = \""@ + hash + "\";\n"@) + "}\n\n"@,
        source_hash_section(config, TypegenLanguage::TypeScript, hash) == "if ("@ + variable@
            + ") {\n"@ + ("  (node as any).hash = \""@ + hash + "\";\n"@) + "}\n\n"@,
        source_hash_section(config, TypegenLanguage::ReScript, hash) == "if ("@ + variable@
            + ") {\n"@ + "\n"@ + "}\n\n"@,
{
}

/// A node is exported by its name: eagerly in one way, and otherwise as its language
/// does, with a type in Flow alone.
pub proof fn lemma_exports(
    typegen_config: TypegenConfig,
    name: Seq<char>,
    forced_type: Option<Seq<char>>,
)
    ensures
        typegen_config.eager_es_modules || typegen_config.language == TypegenLanguage::TypeScript
            ==> export_generated_node(typegen_config, name, forced_type) == "export default "@
            + name + ";\n"@,
        !typegen_config.eager_es_modules && typegen_config.language == TypegenLanguage::JavaScript
            ==> export_generated_node(typegen_config, name, forced_type) == "module.exports = "@
            + name + ";\n"@,
        !typegen_config.eager_es_modules && typegen_config.language == TypegenLanguage::Flow
            && forced_type is None ==> export_generated_node(typegen_config, name, forced_type)
            == "module.exports = "@ + name + ";\n"@,
        !typegen_config.eager_es_modules && typegen_config.language == TypegenLanguage::Flow ==> (
        forced_type matches Some(type_) ==> export_generated_node(typegen_config, name, forced_type)
            == "module.exports = (("@ + name + "/*: any*/)/*: "@ + type_ + "*/);\n"@),
        !typegen_config.eager_es_modules && typegen_config.language == TypegenLanguage::ReScript
            ==> export_generated_node(typegen_config, name, forced_type) == Seq::<char>::empty(),
{
}

} // verus!
