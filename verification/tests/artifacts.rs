use artifact_content::artifact_content::ArtifactContent;
use artifact_content::config::{Config, ProjectConfig, TypegenConfig, TypegenLanguage};
use artifact_content::fragment::{
    fragment_rendering, generate_assignable_fragment, generate_fragment,
    generate_read_only_fragment,
};
use artifact_content::ir::{
    Argument, ConstantValue, Directive, Directives, FragmentDefinition, OperationDefinition,
    OperationKind, QueryID, ReactFlightLocalComponentsMetadata, RelayClientComponentMetadata,
    Value,
};
use artifact_content::operation::{
    generate_operation, generate_split_operation, generate_updatable_query, operation_rendering,
};
use artifact_content::rendered::{
    ArtifactGeneratedTypes, Node, Rendered, Rendering, TypeExports,
};
use artifact_content::rescript::{generate_fragment_rescript, generate_operation_rescript};
use std::sync::Arc;

fn config() -> Config {
    Config { header: vec![], codegen_command: None, is_dev_variable_name: None }
}

fn project(language: TypegenLanguage) -> ProjectConfig {
    ProjectConfig {
        typegen_config: TypegenConfig { language, eager_es_modules: false },
        variable_names_comment: false,
    }
}

fn rendered() -> Rendered {
    Rendered {
        comments_for_generated: "/* COMMENTS */".to_string(),
        type_exports: "TYPES".to_string(),
        top_level_statements: "STATEMENTS".to_string(),
        node: "NODE".to_string(),
        request_id: None,
    }
}

fn no_directives() -> Directives {
    Directives {
        data_driven_dependency: None,
        indirect_data_driven_dependency: None,
        react_flight_local_components: None,
        relay_client_component: None,
        assignable: false,
    }
}

fn argument(name: &str, value: &str) -> Argument {
    Argument {
        name: name.to_string(),
        value: Value::Constant(ConstantValue::Text(value.to_string())),
    }
}

fn all_directives() -> Directives {
    Directives {
        data_driven_dependency: Some(Directive {
            arguments: vec![argument("a", "x.js"), argument("b", "y.js")],
        }),
        indirect_data_driven_dependency: Some(Directive {
            arguments: vec![argument("c", "z.js")],
        }),
        react_flight_local_components: Some(ReactFlightLocalComponentsMetadata {
            components: vec!["S.server".to_string()],
        }),
        relay_client_component: Some(RelayClientComponentMetadata {
            split_operation_filenames: vec!["C$client.graphql".to_string()],
        }),
        assignable: false,
    }
}

fn operation(kind: OperationKind, directives: Directives) -> OperationDefinition {
    OperationDefinition {
        name: "MyQuery".to_string(),
        source_location_text: None,
        kind,
        variable_names: vec![],
        directives,
        preloadable: false,
    }
}

fn fragment(directives: Directives) -> FragmentDefinition {
    FragmentDefinition { source_location_text: None, directives }
}

fn persisted() -> Option<QueryID> {
    Some(QueryID::Persisted { id: "42".to_string(), text_hash: "th".to_string() })
}

fn request_types() -> ArtifactGeneratedTypes {
    ArtifactGeneratedTypes {
        imported_types: "ConcreteRequest, Query",
        ast_type: "ConcreteRequest",
        exported_type: Some("Query<V, D>".to_string()),
    }
}

fn fragment_types() -> ArtifactGeneratedTypes {
    ArtifactGeneratedTypes {
        imported_types: "ReaderFragment",
        ast_type: "ReaderFragment",
        exported_type: None,
    }
}

fn text(bytes: Vec<u8>) -> String {
    String::from_utf8(bytes).unwrap()
}

const UPDATABLE_FLOW: &str = "/**\n * Copyright\n * Line two\n *\n * \x40generated SignedSource<<24561f2457530ae8936c737dfbffc28e>>\n * @flow\n * @lightSyntaxTransform\n * @nogrep\n * @codegen-command: yarn relay\n */\n\n/* eslint-disable */\n\n'use strict';\n\n/*::\nimport type { UpdatableQuery, ConcreteUpdatableQuery } from 'relay-runtime';\nTYPES*/\n\nvar node/*: ConcreteUpdatableQuery*/ = NODE;\n\nif (__DEV__) {\n  (node/*: any*/).hash = \"abc\";\n}\n\nmodule.exports = ((node/*: any*/)/*: UpdatableQuery<\n  MyQuery$variables,\n  MyQuery$data,\n>*/);\n";

const UPDATABLE_JAVASCRIPT: &str = "/**\n * \x40generated SignedSource<<0f50a5160d39234d41e66888a2b4cd80>>\n * @lightSyntaxTransform\n * @nogrep\n */\n\n/* eslint-disable */\n\n'use strict';\n\n\nvar node = NODE;\n\nnode.hash = \"abc\";\nmodule.exports = node;\n";

fn full_config() -> Config {
    Config {
        header: vec!["Copyright".to_string(), "Line two".to_string()],
        codegen_command: Some("yarn relay".to_string()),
        is_dev_variable_name: Some("__DEV__".to_string()),
    }
}

#[test]
fn updatable_query_in_flow() {
    let bytes = generate_updatable_query(
        &full_config(),
        &project(TypegenLanguage::Flow),
        &operation(OperationKind::Query, no_directives()),
        &rendered(),
        "abc".to_string(),
        false,
    );
    assert_eq!(text(bytes.unwrap()), UPDATABLE_FLOW);
}

#[test]
fn updatable_query_as_artifact() {
    let content = ArtifactContent::UpdatableQuery {
        reader_operation: Arc::new(operation(OperationKind::Query, all_directives())),
        typegen_operation: Arc::new(operation(OperationKind::Query, no_directives())),
        source_hash: "abc".to_string(),
    };
    let flow = project(TypegenLanguage::Flow);
    for skip in [None, Some(false)] {
        assert_eq!(text(content.as_bytes(&full_config(), &flow, &rendered(), skip)), UPDATABLE_FLOW);
        assert_eq!(
            content.rendering(skip),
            Rendering { type_exports: TypeExports::OperationAndReader, node: Node::UpdatableQuery }
        );
    }
    let javascript = project(TypegenLanguage::JavaScript);
    assert_eq!(
        text(content.as_bytes(&config(), &javascript, &rendered(), Some(true))),
        UPDATABLE_JAVASCRIPT
    );
    assert_eq!(
        content.rendering(Some(true)),
        Rendering { type_exports: TypeExports::Nothing, node: Node::UpdatableQuery }
    );
}

#[test]
fn types_that_are_left_out_are_not_read() {
    let content = ArtifactContent::UpdatableQuery {
        reader_operation: Arc::new(operation(OperationKind::Query, no_directives())),
        typegen_operation: Arc::new(operation(OperationKind::Query, no_directives())),
        source_hash: "abc".to_string(),
    };
    let flow = project(TypegenLanguage::Flow);
    let mut other = rendered();
    other.type_exports = "OTHER".to_string();
    let bytes = content.as_bytes(&config(), &flow, &rendered(), Some(true));
    assert_eq!(bytes, content.as_bytes(&config(), &flow, &other, Some(true)));
    assert_ne!(
        content.as_bytes(&config(), &flow, &rendered(), None),
        content.as_bytes(&config(), &flow, &other, None)
    );
}

#[test]
fn split_operation_in_typescript() {
    let typegen_operation = Some(Arc::new(operation(OperationKind::Query, no_directives())));
    let expected = "/**\n * \x40generated SignedSource<<4276d15d6b37bce0b6c90d8e5d726c86>>\n * @lightSyntaxTransform\n * @nogrep\n */\n\n/* tslint:disable */\n/* eslint-disable */\n// @ts-nocheck\n\nimport { NormalizationSplitOperation } from 'relay-runtime';\n\nTYPES\n\nSTATEMENTSconst node: NormalizationSplitOperation = NODE;\n\n(node as any).hash = \"abc\";\n\nexport default node;\n";
    let bytes = generate_split_operation(
        &config(),
        &project(TypegenLanguage::TypeScript),
        &typegen_operation,
        &rendered(),
        "abc",
    );
    assert_eq!(text(bytes.unwrap()), expected);
    let content = ArtifactContent::SplitOperation {
        normalization_operation: Arc::new(operation(OperationKind::Query, no_directives())),
        typegen_operation,
        source_hash: "abc".to_string(),
    };
    for skip in [None, Some(false), Some(true)] {
        let bytes =
            content.as_bytes(&config(), &project(TypegenLanguage::TypeScript), &rendered(), skip);
        assert_eq!(text(bytes), expected);
        assert_eq!(
            content.rendering(skip),
            Rendering { type_exports: TypeExports::SplitOperation, node: Node::Operation }
        );
    }
}

#[test]
fn split_operation_without_types() {
    let content = ArtifactContent::SplitOperation {
        normalization_operation: Arc::new(operation(OperationKind::Query, no_directives())),
        typegen_operation: None,
        source_hash: "abc".to_string(),
    };
    assert_eq!(
        text(content.as_bytes(&config(), &project(TypegenLanguage::Flow), &rendered(), None)),
        "/**\n * \x40generated SignedSource<<d4ff256c03a1565f3c31b1a08ba29f24>>\n * @flow\n * @lightSyntaxTransform\n * @nogrep\n */\n\n/* eslint-disable */\n\n'use strict';\n\n/*::\nimport type { NormalizationSplitOperation } from 'relay-runtime';\n\n*/\n\nSTATEMENTSvar node/*: NormalizationSplitOperation*/ = NODE;\n\n(node/*: any*/).hash = \"abc\";\n\nmodule.exports = node;\n"
    );
    assert_eq!(
        text(content.as_bytes(&config(), &project(TypegenLanguage::ReScript), &rendered(), None)),
        "/**\n * \x40generated SignedSource<<ea34353ad88560f1f2c8c2f4c01ff6bf>>\n * @lightSyntaxTransform\n * @nogrep\n */\n\n\n\nSTATEMENTS\n"
    );
    assert_eq!(
        content.rendering(None),
        Rendering { type_exports: TypeExports::Nothing, node: Node::Operation }
    );
}

#[test]
fn persisted_operation_in_flow() {
    let mut normalization = operation(OperationKind::Query, no_directives());
    normalization.variable_names = vec!["first".to_string(), "after".to_string()];
    normalization.preloadable = true;
    let mut project_config = project(TypegenLanguage::Flow);
    project_config.variable_names_comment = true;
    let bytes = generate_operation(
        &config(),
        &project_config,
        &normalization,
        &operation(OperationKind::Query, all_directives()),
        request_types(),
        &rendered(),
        "abc".to_string(),
        "query MyQuery { me }",
        &persisted(),
        false,
    );
    assert_eq!(
        text(bytes.unwrap()),
        "/**\n * \x40generated SignedSource<<3a6ab65d20032289f70e26b25ec08342>>\n * @relayHash th\n * @flow\n * @lightSyntaxTransform\n * @nogrep\n */\n\n/* eslint-disable */\n\n'use strict';\n\n// @relayRequestID 42\n// @relayVariables first after\n// @dataDrivenDependency a x.js\n// @dataDrivenDependency b y.js\n// @indirectDataDrivenDependency c z.js\n// @ReactFlightServerDependency S.server\n\n// @ReactFlightClientDependency C$client.graphql\n\n\n/*::\nimport type { ConcreteRequest, Query } from 'relay-runtime';\nTYPES*/\n\nSTATEMENTSvar node/*: ConcreteRequest*/ = NODE;\n\n(node/*: any*/).hash = \"abc\";\n\nrequire('relay-runtime').PreloadableQueryRegistry.set((node.params/*: any*/).id, node);\n\nmodule.exports = ((node/*: any*/)/*: Query<V, D>*/);\n"
    );
}

#[test]
fn operation_by_text_in_typescript() {
    let mut normalization = operation(OperationKind::Query, no_directives());
    normalization.preloadable = true;
    let bytes = generate_operation(
        &config(),
        &project(TypegenLanguage::TypeScript),
        &normalization,
        &operation(OperationKind::Query, no_directives()),
        request_types(),
        &rendered(),
        "abc".to_string(),
        "query MyQuery { me }",
        &None,
        false,
    );
    assert_eq!(
        text(bytes.unwrap()),
        "/**\n * \x40generated SignedSource<<fced17f2c8f07b7b62beb24bf4a260ac>>\n * @lightSyntaxTransform\n * @nogrep\n */\n\n/* tslint:disable */\n/* eslint-disable */\n// @ts-nocheck\n\nimport { ConcreteRequest, Query } from 'relay-runtime';\nTYPES\nSTATEMENTSconst node: ConcreteRequest = NODE;\n\n(node as any).hash = \"abc\";\n\nexport default node;\n"
    );
}

#[test]
fn preloadable_operations_are_registered_in_every_language() {
    let mut normalization = operation(OperationKind::Query, no_directives());
    normalization.preloadable = true;
    let expected = [
        (TypegenLanguage::JavaScript, "node.hash = \"abc\";\nrequire('relay-runtime').PreloadableQueryRegistry.set(node.params.id, node);\n\nmodule.exports = node;\n"),
        (TypegenLanguage::TypeScript, "(node as any).hash = \"abc\";\n\nimport { PreloadableQueryRegistry } from 'relay-runtime';\nPreloadableQueryRegistry.set(node.params.id, node);\n\nexport default node;\n"),
        (TypegenLanguage::ReScript, "STATEMENTS\n\n\n"),
    ];
    for (language, end) in expected {
        let bytes = generate_operation(
            &config(),
            &project(language),
            &normalization,
            &operation(OperationKind::Query, no_directives()),
            request_types(),
            &rendered(),
            "abc".to_string(),
            "",
            &Some(QueryID::Other),
            true,
        );
        assert!(text(bytes.unwrap()).ends_with(end));
    }
    assert_eq!(
        operation_rendering(true),
        Rendering { type_exports: TypeExports::Nothing, node: Node::RequestAndProvidedVariables }
    );
    assert_eq!(
        operation_rendering(false).type_exports,
        TypeExports::OperationAndNormalization
    );
}

#[test]
fn read_only_fragment_in_flow() {
    let expected = "/**\n * \x40generated SignedSource<<0529dce701dd11d6695436ce42676434>>\n * @flow\n * @lightSyntaxTransform\n * @nogrep\n */\n\n/* eslint-disable */\n\n'use strict';\n\n// @dataDrivenDependency a x.js\n// @dataDrivenDependency b y.js\n\n// @ReactFlightServerDependency S.server\n\n// @ReactFlightClientDependency C$client.graphql\n\n/*::\nimport type { ReaderFragment } from 'relay-runtime';\nTYPES*/\n\nSTATEMENTSvar node/*: ReaderFragment*/ = NODE;\n\n(node/*: any*/).hash = \"abc\";\n\nmodule.exports = node;\n";
    let flow = project(TypegenLanguage::Flow);
    let reader = fragment(all_directives());
    let bytes = generate_read_only_fragment(
        &config(),
        &flow,
        &reader,
        fragment_types(),
        &rendered(),
        "abc",
        false,
    );
    assert_eq!(text(bytes.unwrap()), expected);
    let bytes = generate_fragment(
        &config(),
        &flow,
        &reader,
        &fragment(no_directives()),
        fragment_types(),
        &rendered(),
        "VALIDATOR",
        "abc",
        false,
    );
    assert_eq!(text(bytes.unwrap()), expected);
    assert_eq!(
        fragment_rendering(&fragment(no_directives()), false),
        Rendering { type_exports: TypeExports::Fragment, node: Node::Fragment }
    );
}

#[test]
fn assignable_fragment_shows_a_validator_alone() {
    let expected = "/**\n * \x40generated SignedSource<<21bf4e44c18092d684957946c6f0b523>>\n * @lightSyntaxTransform\n * @nogrep\n */\n\n/* tslint:disable */\n/* eslint-disable */\n// @ts-nocheck\n\nTYPES\nVALIDATOR\n";
    let typescript = project(TypegenLanguage::TypeScript);
    let bytes =
        generate_assignable_fragment(&config(), &typescript, "TYPES", "VALIDATOR", false);
    assert_eq!(text(bytes.unwrap()), expected);
    let mut directives = no_directives();
    directives.assignable = true;
    let typegen_fragment = fragment(directives);
    for (reader, hash) in [(no_directives(), "abc"), (all_directives(), "def")] {
        let bytes = generate_fragment(
            &config(),
            &typescript,
            &fragment(reader),
            &typegen_fragment,
            fragment_types(),
            &rendered(),
            "VALIDATOR",
            hash,
            false,
        );
        assert_eq!(text(bytes.unwrap()), expected);
    }
    assert_eq!(
        fragment_rendering(&typegen_fragment, true),
        Rendering { type_exports: TypeExports::Nothing, node: Node::NamedValidator }
    );
}

#[test]
fn every_placeholder_is_signed() {
    let placeholder = "<<SignedSource::*O*zOeWoEQle#+L!plEphiEmie\x40IsG>>";
    let mut settings = config();
    settings.header = vec![format!("x {}", placeholder)];
    let bytes = generate_assignable_fragment(
        &settings,
        &project(TypegenLanguage::JavaScript),
        "",
        "VALIDATOR",
        true,
    );
    let file = text(bytes.unwrap());
    assert_eq!(
        file,
        "/**\n * x SignedSource<<fb85d3875305e0e8b156dbb41cd9dca0>>\n *\n * \x40generated SignedSource<<fb85d3875305e0e8b156dbb41cd9dca0>>\n * @lightSyntaxTransform\n * @nogrep\n */\n\n/* eslint-disable */\n\n\nVALIDATOR\n"
    );
    assert!(!file.contains(placeholder));
}

#[test]
fn signed_files_verify() {
    let content = ArtifactContent::SplitOperation {
        normalization_operation: Arc::new(operation(OperationKind::Query, no_directives())),
        typegen_operation: None,
        source_hash: "abc".to_string(),
    };
    let file =
        text(content.as_bytes(&config(), &project(TypegenLanguage::Flow), &rendered(), None));
    assert!(signedsource::is_signed(&file));
    assert!(signedsource::is_valid_signature(&file));
}

const QUERY_MODULE: &str = "/* SOURCE */\n/* COMMENTS */\n/* @relayHash th */\n\n// @relayRequestID 42\n// @relayVariables first\n// @dataDrivenDependency a x.js\n// @dataDrivenDependency b y.js\n// @ReactFlightServerDependency S.server\n\n// @ReactFlightClientDependency C$client.graphql\n\n\nTYPES\ntype relayOperationNode\ntype operationType = RescriptRelay.queryNode<relayOperationNode>\n\n\nNODE\ninclude RescriptRelay.MakeLoadQuery({\n    type variables = Types.variables\n    type loadedQueryRef = queryRef\n    type response = Types.response\n    type node = relayOperationNode\n    let query = node\n    let convertVariables = Internal.convertVariables\n});\ntype operationId\ntype operationTypeParams = {id: operationId}\n@get external getOperationTypeParams: operationType => operationTypeParams = \"params\"\n@module(\"relay-runtime\") @scope(\"PreloadableQueryRegistry\") external setPreloadQuery: (operationType, operationId) => unit = \"set\"\ngetOperationTypeParams(node).id->setPreloadQuery(node)\n";

#[test]
fn query_in_rescript() {
    let mut normalization = operation(OperationKind::Mutation, no_directives());
    normalization.variable_names = vec!["first".to_string()];
    normalization.preloadable = true;
    let mut reader = operation(OperationKind::Mutation, all_directives());
    reader.source_location_text = Some("/* SOURCE */".to_string());
    let typegen = operation(OperationKind::Query, no_directives());
    let mut project_config = project(TypegenLanguage::ReScript);
    project_config.variable_names_comment = true;
    let bytes = generate_operation_rescript(
        &project_config,
        &normalization,
        &reader,
        &typegen,
        &rendered(),
        "query MyQuery { me }",
        &persisted(),
    );
    assert_eq!(text(bytes), QUERY_MODULE);
    let content = ArtifactContent::Operation {
        normalization_operation: Arc::new(normalization),
        reader_operation: Arc::new(reader),
        typegen_operation: Arc::new(typegen),
        source_hash: "abc".to_string(),
        text: "query MyQuery { me }".to_string(),
        id_and_text_hash: persisted(),
    };
    assert!(content.is_writable());
    for skip in [None, Some(false), Some(true)] {
        for settings in [config(), full_config()] {
            let bytes = content.as_bytes(&settings, &project_config, &rendered(), skip);
            assert_eq!(text(bytes), QUERY_MODULE);
        }
        assert_eq!(
            content.rendering(skip),
            Rendering { type_exports: TypeExports::OperationAndNormalization, node: Node::Request }
        );
    }
}

#[test]
fn operation_in_rescript_whatever_the_language() {
    for (kind, name) in
        [(OperationKind::Mutation, "mutation"), (OperationKind::Subscription, "subscription")]
    {
        let content = ArtifactContent::Operation {
            normalization_operation: Arc::new(operation(kind, no_directives())),
            reader_operation: Arc::new(operation(kind, no_directives())),
            typegen_operation: Arc::new(operation(kind, no_directives())),
            source_hash: "abc".to_string(),
            text: "mutation M { do }".to_string(),
            id_and_text_hash: None,
        };
        for language in [TypegenLanguage::Flow, TypegenLanguage::ReScript] {
            let bytes = content.as_bytes(&full_config(), &project(language), &rendered(), None);
            assert_eq!(
                text(bytes),
                format!("/* COMMENTS */\nTYPES\ntype relayOperationNode\ntype operationType = RescriptRelay.{}Node<relayOperationNode>\n\n\nNODE\n\n", name)
            );
        }
    }
}

#[test]
fn request_parameters_that_come_with_an_id_keep_it() {
    let mut with_id = rendered();
    with_id.request_id = persisted();
    let bytes = generate_operation_rescript(
        &project(TypegenLanguage::ReScript),
        &operation(OperationKind::Mutation, no_directives()),
        &operation(OperationKind::Mutation, no_directives()),
        &operation(OperationKind::Mutation, no_directives()),
        &with_id,
        "",
        &None,
    );
    assert!(text(bytes).starts_with("/* COMMENTS */\n// @relayRequestID 42\n\nTYPES\n"));
}

#[test]
fn fragment_in_rescript() {
    let expected = "/* SOURCE */\n/* COMMENTS */\n// @dataDrivenDependency a x.js\n// @dataDrivenDependency b y.js\n\n// @ReactFlightServerDependency S.server\n\n// @ReactFlightClientDependency C$client.graphql\n\nTYPES\ntype relayOperationNode\ntype operationType = RescriptRelay.fragmentNode<relayOperationNode>\n\n\nNODE\n";
    let mut reader = fragment(all_directives());
    reader.source_location_text = Some("/* SOURCE */".to_string());
    assert_eq!(text(generate_fragment_rescript(&reader, &rendered())), expected);
    let content = ArtifactContent::Fragment {
        reader_fragment: Arc::new(reader),
        typegen_fragment: Arc::new(fragment(no_directives())),
        source_hash: "abc".to_string(),
    };
    for language in [TypegenLanguage::Flow, TypegenLanguage::ReScript] {
        let bytes = content.as_bytes(&full_config(), &project(language), &rendered(), Some(true));
        assert_eq!(text(bytes), expected);
    }
    assert_eq!(
        content.rendering(Some(true)),
        Rendering { type_exports: TypeExports::Fragment, node: Node::Fragment }
    );
}

#[test]
fn plain_fragment_in_rescript() {
    assert_eq!(
        text(generate_fragment_rescript(&fragment(no_directives()), &rendered())),
        "/* COMMENTS */\nTYPES\ntype relayOperationNode\ntype operationType = RescriptRelay.fragmentNode<relayOperationNode>\n\n\nNODE\n"
    );
}

#[test]
fn generic_artifact_is_taken_as_it_is() {
    let content = ArtifactContent::Generic { content: vec![0, 255, 10] };
    let copy = content.clone();
    for artifact in [content, copy] {
        assert!(artifact.is_writable());
        assert_eq!(
            artifact.as_bytes(&full_config(), &project(TypegenLanguage::Flow), &rendered(), None),
            vec![0, 255, 10]
        );
        assert_eq!(
            artifact.rendering(None),
            Rendering { type_exports: TypeExports::Nothing, node: Node::Nothing }
        );
    }
}

#[test]
fn dependencies_that_are_no_text_cannot_be_written() {
    let mut directives = no_directives();
    directives.data_driven_dependency = Some(Directive {
        arguments: vec![Argument { name: "a".to_string(), value: Value::Other }],
    });
    let content = ArtifactContent::Fragment {
        reader_fragment: Arc::new(fragment(directives)),
        typegen_fragment: Arc::new(fragment(no_directives())),
        source_hash: "abc".to_string(),
    };
    assert!(!content.is_writable());
}

#[test]
fn files_are_utf8() {
    let mut other = rendered();
    other.node = "\u{e9}\u{20ac}\u{1f600}".to_string();
    let bytes = generate_fragment_rescript(&fragment(no_directives()), &other);
    assert!(text(bytes).ends_with("\n\u{e9}\u{20ac}\u{1f600}\n"));
}
