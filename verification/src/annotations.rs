//! The comments that tell build tools what an artifact depends on.

use vstd::prelude::*;
use crate::ir::{
    Argument, ConstantValue, Directive, Directives, QueryID, ReactFlightLocalComponentsMetadata,
    RelayClientComponentMetadata, Value,
};
use crate::text::{
    append_each, each, lemma_concat_associative, lemma_concat_empty, lemma_each_push,
    lemma_empty_literal, text_if, texts,
};

verus! {

/// The arguments of a directive, each as its name, a space and its text.
pub open spec fn named_arguments(arguments: Seq<Argument>) -> Seq<Seq<char>> {
    arguments.map_values(|argument: Argument| argument.name@ + " "@ + argument.value.text())
}

/// One line for each data-driven dependency.
pub open spec fn data_driven_dependencies(directive: Option<Directive>) -> Seq<char> {
    match directive {
        Some(directive) => each(
            "// @dataDrivenDependency "@,
            named_arguments(directive.arguments@),
            "\n"@,
        ),
        None => Seq::empty(),
    }
}

/// One line for each indirect data-driven dependency.
pub open spec fn indirect_data_driven_dependencies(directive: Option<Directive>) -> Seq<char> {
    match directive {
        Some(directive) => each(
            "// @indirectDataDrivenDependency "@,
            named_arguments(directive.arguments@),
            "\n"@,
        ),
        None => Seq::empty(),
    }
}

/// One line for each server component, and an empty line.
pub open spec fn react_flight_server_dependencies(
    metadata: Option<ReactFlightLocalComponentsMetadata>,
) -> Seq<char> {
    match metadata {
        Some(metadata) => each(
            "// @ReactFlightServerDependency "@,
            texts(metadata.components@),
            "\n"@,
        ) + "\n"@,
        None => Seq::empty(),
    }
}

/// One line for each client component, and an empty line.
pub open spec fn react_flight_client_dependencies(
    metadata: Option<RelayClientComponentMetadata>,
) -> Seq<char> {
    match metadata {
        Some(metadata) => each(
            "// @ReactFlightClientDependency "@,
            texts(metadata.split_operation_filenames@),
            "\n"@,
        ) + "\n"@,
        None => Seq::empty(),
    }
}

/// The directive, if there is one, has constant strings alone as its arguments.
pub open spec fn has_text_arguments(directive: Option<Directive>) -> bool {
    directive matches Some(directive) ==> directive.arguments_are_text()
}

/// Appends a line for each argument of the directive.
fn append_named_arguments(content: &mut String, before: &str, directive: &Directive)
    requires
        directive.arguments_are_text(),
    ensures
        final(content)@ == old(content)@ + each(
            before@,
            named_arguments(directive.arguments@),
            "\n"@,
        ),
{
    broadcast use {lemma_concat_associative, lemma_concat_empty};

    let arguments: &Vec<Argument> = &directive.arguments;
    let mut i: usize = 0;
    assert(named_arguments(arguments@.take(0)) =~= Seq::empty());
    while i < arguments.len()
        invariant
            i <= arguments.len(),
            arguments@ == directive.arguments@,
            directive.arguments_are_text(),
            content@ == old(content)@ + each(
                before@,
                named_arguments(arguments@.take(i as int)),
                "\n"@,
            ),
        decreases arguments.len() - i,
    {
        let argument: &Argument = &arguments[i];
        assert(directive.arguments@[i as int].value.is_text());
        if let Value::Constant(ConstantValue::Text(value)) = &argument.value {
            content.append(before);
            content.append(argument.name.as_str());
            content.append(" ");
            content.append(value.as_str());
            content.append("\n");
        }
        proof {
            let item = argument.name@ + " "@ + argument.value.text();
            assert(named_arguments(arguments@.take(i + 1)) =~= named_arguments(
                arguments@.take(i as int),
            ).push(item));
            lemma_each_push(before@, named_arguments(arguments@.take(i as int)), item, "\n"@);
        }
        i = i + 1;
    }
    assert(arguments@.take(arguments@.len() as int) =~= arguments@);
}

/// Writes a line for each data-driven dependency.
pub fn write_data_driven_dependency_annotation(
    content: &mut String,
    data_driven_dependency_directive: &Directive,
) -> (result: Result<(), std::fmt::Error>)
    requires
        data_driven_dependency_directive.arguments_are_text(),
    ensures
        result is Ok,
        final(content)@ == old(content)@ + data_driven_dependencies(
            Some(*data_driven_dependency_directive),
        ),
{
    append_named_arguments(content, "// @dataDrivenDependency ", data_driven_dependency_directive);
    Ok(())
}

/// Writes a line for each indirect data-driven dependency.
pub fn write_indirect_data_driven_dependency_annotation(
    content: &mut String,
    indirect_data_driven_dependency_directive: &Directive,
) -> (result: Result<(), std::fmt::Error>)
    requires
        indirect_data_driven_dependency_directive.arguments_are_text(),
    ensures
        result is Ok,
        final(content)@ == old(content)@ + indirect_data_driven_dependencies(
            Some(*indirect_data_driven_dependency_directive),
        ),
{
    append_named_arguments(
        content,
        "// @indirectDataDrivenDependency ",
        indirect_data_driven_dependency_directive,
    );
    Ok(())
}

/// Writes a line for each server component, and an empty line.
pub fn write_react_flight_server_annotation(
    content: &mut String,
    flight_local_components_metadata: &ReactFlightLocalComponentsMetadata,
) -> (result: Result<(), std::fmt::Error>)
    ensures
        result is Ok,
        final(content)@ == old(content)@ + react_flight_server_dependencies(
            Some(*flight_local_components_metadata),
        ),
{
    broadcast use lemma_concat_associative;

    append_each(
        content,
        "// @ReactFlightServerDependency ",
        &flight_local_components_metadata.components,
        "\n",
    );
    content.append("\n");
    Ok(())
}

/// Writes a line for each client component, and an empty line.
pub fn write_react_flight_client_annotation(
    content: &mut String,
    relay_client_component_metadata: &RelayClientComponentMetadata,
) -> (result: Result<(), std::fmt::Error>)
    ensures
        result is Ok,
        final(content)@ == old(content)@ + react_flight_client_dependencies(
            Some(*relay_client_component_metadata),
        ),
{
    broadcast use lemma_concat_associative;

    append_each(
        content,
        "// @ReactFlightClientDependency ",
        &relay_client_component_metadata.split_operation_filenames,
        "\n",
    );
    content.append("\n");
    Ok(())
}

/// Writes the lines of the directive on data-driven dependencies, if there is one.
pub(crate) fn write_data_driven_dependencies(content: &mut String, directive: &Option<Directive>)
    requires
        has_text_arguments(*directive),
    ensures
        final(content)@ == old(content)@ + data_driven_dependencies(*directive),
{
    broadcast use lemma_concat_empty;

    if let Some(directive) = directive {
        write_data_driven_dependency_annotation(content, directive).unwrap();
    }
}

/// Writes the lines of the directive on indirect data-driven dependencies, if there is
/// one.
pub(crate) fn write_indirect_data_driven_dependencies(
    content: &mut String,
    directive: &Option<Directive>,
)
    requires
        has_text_arguments(*directive),
    ensures
        final(content)@ == old(content)@ + indirect_data_driven_dependencies(*directive),
{
    broadcast use lemma_concat_empty;

    if let Some(directive) = directive {
        write_indirect_data_driven_dependency_annotation(content, directive).unwrap();
    }
}

/// Writes the lines of the components that a definition depends on, if there are any:
/// those of the server, then those of the client.
pub(crate) fn write_react_flight_dependencies(content: &mut String, directives: &Directives)
    ensures
        final(content)@ == old(content)@ + react_flight_server_dependencies(
            directives.react_flight_local_components,
        ) + react_flight_client_dependencies(directives.relay_client_component),
{
    broadcast use lemma_concat_empty;

    if let Some(metadata) = &directives.react_flight_local_components {
        write_react_flight_server_annotation(content, metadata).unwrap();
    }
    if let Some(metadata) = &directives.relay_client_component {
        write_react_flight_client_annotation(content, metadata).unwrap();
    }
}

/// The comment that names the id of a persisted query.
pub open spec fn request_id_comment(id: Option<QueryID>) -> Seq<char> {
    match id {
        Some(QueryID::Persisted { id, text_hash: _ }) => "// @relayRequestID "@ + id@ + "\n"@,
        _ => Seq::empty(),
    }
}

/// The comment that lists the names of an operation's variables.
pub open spec fn variables_comment(names: Seq<String>) -> Seq<char> {
    "// @relayVariables"@ + each(" "@, texts(names), Seq::empty()) + "\n"@
}

/// Writes the comment that names the id of a persisted query, and the comment that lists
/// the names of the variables where it is asked for.
pub(crate) fn write_request_comments(
    content: &mut String,
    id: &Option<QueryID>,
    variable_names_comment: bool,
    names: &Vec<String>,
)
    ensures
        final(content)@ == old(content)@ + request_id_comment(*id) + text_if(
            variable_names_comment,
            variables_comment(names@),
        ),
{
    broadcast use {lemma_concat_associative, lemma_concat_empty};

    if let Some(QueryID::Persisted { id, text_hash: _ }) = id {
        content.append("// @relayRequestID ");
        content.append(id.as_str());
        content.append("\n");
    }
    if variable_names_comment {
        proof {
            lemma_empty_literal();
        }
        content.append("// @relayVariables");
        append_each(content, " ", names, "");
        content.append("\n");
    }
}

} // verus!
