//! The modules of operations and fragments in ReScript.

use vstd::prelude::*;
use vstd::utf8::encode_utf8;
use crate::annotations::{
    data_driven_dependencies, has_text_arguments, react_flight_client_dependencies,
    react_flight_server_dependencies, request_id_comment, variables_comment,
    write_data_driven_dependencies, write_react_flight_dependencies, write_request_comments,
};
use crate::config::ProjectConfig;
use crate::ir::{
    sent_id, Directives, FragmentDefinition, OperationDefinition, OperationKind, QueryID,
    RequestParameters,
};
use crate::rendered::Rendered;
use crate::sections::{append_persisted_text_hash, persisted_text_hash};
use crate::text::{append_if, append_optional, lemma_empty_literal, optional, text_if};

verus! {

/// The name of an operation's kind.
pub open spec fn kind_name(kind: OperationKind) -> Seq<char> {
    match kind {
        OperationKind::Query => "query"@,
        OperationKind::Mutation => "mutation"@,
        OperationKind::Subscription => "subscription"@,
    }
}

/// What a module holds for an operation of the given kind alone.
pub open spec fn kind_assets(kind: OperationKind) -> Seq<char> {
    match kind {
        OperationKind::Query =>
            "include RescriptRelay.MakeLoadQuery({\n    type variables = Types.variables\n    type loadedQueryRef = queryRef\n    type response = Types.response\n    type node = relayOperationNode\n    let query = node\n    let convertVariables = Internal.convertVariables\n});"@,
        OperationKind::Mutation | OperationKind::Subscription => Seq::empty(),
    }
}

/// The statements that register a query which can be sent before the code that needs it
/// has loaded.
pub open spec fn preload_registration() -> Seq<char> {
    "type operationId\ntype operationTypeParams = {id: operationId}\n@get external getOperationTypeParams: operationType => operationTypeParams = \"params\"\n@module(\"relay-runtime\") @scope(\"PreloadableQueryRegistry\") external setPreloadQuery: (operationType, operationId) => unit = \"set\"\ngetOperationTypeParams(node).id->setPreloadQuery(node)\n"@
}

/// The ReScript module of an operation.
pub open spec fn operation_rescript_text(
    project_config: ProjectConfig,
    normalization_operation: OperationDefinition,
    reader_operation: OperationDefinition,
    typegen_operation: OperationDefinition,
    rendered: Rendered,
    id_and_text_hash: Option<QueryID>,
) -> Seq<char> {
    let id = sent_id(rendered.request_id, id_and_text_hash);
    let directives = reader_operation.directives;
    optional(Seq::empty(), reader_operation.source_location_text, "\n"@) + rendered.comments_for_generated@
        + "\n"@ + persisted_text_hash("/* @relayHash "@, id_and_text_hash, " */\n\n"@)
        + request_id_comment(id) + text_if(
        project_config.variable_names_comment,
        variables_comment(normalization_operation.variable_names@),
    ) + data_driven_dependencies(directives.data_driven_dependency)
        + react_flight_server_dependencies(directives.react_flight_local_components)
        + react_flight_client_dependencies(directives.relay_client_component) + text_if(
        id is Some || directives.data_driven_dependency is Some,
        "\n"@,
    ) + rendered.type_exports@ + "\n"@
        + "type relayOperationNode\ntype operationType = RescriptRelay."@ + kind_name(
        typegen_operation.kind,
    ) + "Node<relayOperationNode>\n\n\n"@ + rendered.node@ + "\n"@ + kind_assets(
        typegen_operation.kind,
    ) + "\n"@ + text_if(
        normalization_operation.preloadable && id_and_text_hash is Some,
        preload_registration(),
    )
}

/// The ReScript module of a fragment.
pub open spec fn fragment_rescript_text(
    reader_fragment: FragmentDefinition,
    rendered: Rendered,
) -> Seq<char> {
    let directives = reader_fragment.directives;
    optional(Seq::empty(), reader_fragment.source_location_text, "\n"@) + rendered.comments_for_generated@
        + "\n"@ + data_driven_dependencies(directives.data_driven_dependency) + text_if(
        directives.data_driven_dependency is Some,
        "\n"@,
    ) + react_flight_server_dependencies(directives.react_flight_local_components)
        + react_flight_client_dependencies(directives.relay_client_component)
        + rendered.type_exports@ + "\n"@
        + "type relayOperationNode\ntype operationType = RescriptRelay.fragmentNode<relayOperationNode>\n\n\n"@
        + rendered.node@ + "\n"@
}

/// Writes the ReScript module of an operation.
pub fn generate_operation_rescript(
    project_config: &ProjectConfig,
    normalization_operation: &OperationDefinition,
    reader_operation: &OperationDefinition,
    typegen_operation: &OperationDefinition,
    rendered: &Rendered,
    text: &str,
    id_and_text_hash: &Option<QueryID>,
) -> (result: Vec<u8>)
    requires
        has_text_arguments(reader_operation.directives.data_driven_dependency),
    ensures
        result@ == encode_utf8(
            operation_rescript_text(
                *project_config,
                *normalization_operation,
                *reader_operation,
                *typegen_operation,
                *rendered,
                *id_and_text_hash,
            ),
        ),
{
    let request_parameters: RequestParameters<QueryID> = RequestParameters {
        id: &rendered.request_id,
        text: None,
    }.with_query(id_and_text_hash, text);
    let directives: &Directives = &reader_operation.directives;
    let mut content: String = String::new();
    proof {
        lemma_empty_literal();
    }

    append_optional(&mut content, "", &reader_operation.source_location_text, "\n");
    assert(content@ =~= optional(Seq::empty(), reader_operation.source_location_text, "\n"@));
    content.append(rendered.comments_for_generated.as_str());
    content.append("\n");

    append_persisted_text_hash(&mut content, "/* @relayHash ", id_and_text_hash, " */\n\n");
    write_request_comments(
        &mut content,
        request_parameters.id,
        project_config.variable_names_comment,
        &normalization_operation.variable_names,
    );
    write_data_driven_dependencies(&mut content, &directives.data_driven_dependency);
    write_react_flight_dependencies(&mut content, directives);
    append_if(
        &mut content,
        request_parameters.id.is_some() || directives.data_driven_dependency.is_some(),
        "\n",
    );

    content.append(rendered.type_exports.as_str());
    content.append("\n");

    content.append("type relayOperationNode\ntype operationType = RescriptRelay.");
    content.append(
        match typegen_operation.kind {
            OperationKind::Query => "query",
            OperationKind::Mutation => "mutation",
            OperationKind::Subscription => "subscription",
        },
    );
    content.append("Node<relayOperationNode>\n\n\n");

    content.append(rendered.node.as_str());
    content.append("\n");

    content.append(
        match typegen_operation.kind {
            OperationKind::Query =>
                "include RescriptRelay.MakeLoadQuery({\n    type variables = Types.variables\n    type loadedQueryRef = queryRef\n    type response = Types.response\n    type node = relayOperationNode\n    let query = node\n    let convertVariables = Internal.convertVariables\n});",
            OperationKind::Mutation | OperationKind::Subscription => "",
        },
    );
    content.append("\n");

    append_if(
        &mut content,
        normalization_operation.preloadable && id_and_text_hash.is_some(),
        "type operationId\ntype operationTypeParams = {id: operationId}\n@get external getOperationTypeParams: operationType => operationTypeParams = \"params\"\n@module(\"relay-runtime\") @scope(\"PreloadableQueryRegistry\") external setPreloadQuery: (operationType, operationId) => unit = \"set\"\ngetOperationTypeParams(node).id->setPreloadQuery(node)\n",
    );
    content.as_str().as_bytes_vec()
}

/// Writes the ReScript module of a fragment.
pub fn generate_fragment_rescript(
    reader_fragment: &FragmentDefinition,
    rendered: &Rendered,
) -> (result: Vec<u8>)
    requires
        has_text_arguments(reader_fragment.directives.data_driven_dependency),
    ensures
        result@ == encode_utf8(fragment_rescript_text(*reader_fragment, *rendered)),
{
    let directives: &Directives = &reader_fragment.directives;
    let mut content: String = String::new();
    proof {
        lemma_empty_literal();
    }

    append_optional(&mut content, "", &reader_fragment.source_location_text, "\n");
    assert(content@ =~= optional(Seq::empty(), reader_fragment.source_location_text, "\n"@));
    content.append(rendered.comments_for_generated.as_str());
    content.append("\n");

    write_data_driven_dependencies(&mut content, &directives.data_driven_dependency);
    append_if(&mut content, directives.data_driven_dependency.is_some(), "\n");
    write_react_flight_dependencies(&mut content, directives);

    content.append(rendered.type_exports.as_str());
    content.append("\n");

    content.append(
        "type relayOperationNode\ntype operationType = RescriptRelay.fragmentNode<relayOperationNode>\n\n\n",
    );

    content.append(rendered.node.as_str());
    content.append("\n");
    content.as_str().as_bytes_vec()
}

} // verus!
