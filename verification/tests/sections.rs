use artifact_content::annotations::{
    write_data_driven_dependency_annotation, write_indirect_data_driven_dependency_annotation,
    write_react_flight_client_annotation, write_react_flight_server_annotation,
};
use artifact_content::config::{Config, TypegenConfig, TypegenLanguage};
use artifact_content::ir::{
    Argument, ConstantValue, Directive, QueryID, ReactFlightLocalComponentsMetadata,
    RelayClientComponentMetadata, RequestParameters, Value,
};
use artifact_content::operation::provided_variables_statement;
use artifact_content::sections::{
    get_content_start, write_disable_lint_header, write_export_generated_node,
    write_import_type_from, write_source_hash, write_variable_value_with_type,
};

const LANGUAGES: [TypegenLanguage; 4] = [
    TypegenLanguage::JavaScript,
    TypegenLanguage::TypeScript,
    TypegenLanguage::Flow,
    TypegenLanguage::ReScript,
];

fn config(header: &[&str], is_dev_variable_name: Option<&str>) -> Config {
    Config {
        header: header.iter().map(|line| line.to_string()).collect(),
        codegen_command: None,
        is_dev_variable_name: is_dev_variable_name.map(|name| name.to_string()),
    }
}

fn argument(name: &str, value: &str) -> Argument {
    Argument {
        name: name.to_string(),
        value: Value::Constant(ConstantValue::Text(value.to_string())),
    }
}

#[test]
fn content_start_without_header() {
    assert_eq!(get_content_start(&config(&[], None)).unwrap(), "/**\n");
}

#[test]
fn content_start_with_header() {
    assert_eq!(
        get_content_start(&config(&["Copyright", "All rights reserved"], None)).unwrap(),
        "/**\n * Copyright\n * All rights reserved\n *\n"
    );
}

#[test]
fn data_driven_dependencies_are_listed_in_order() {
    let directive = Directive {
        arguments: vec![argument("b", "B.js"), argument("a", "A.js")],
    };
    let mut content = String::from("x\n");
    write_data_driven_dependency_annotation(&mut content, &directive).unwrap();
    assert_eq!(content, "x\n// @dataDrivenDependency b B.js\n// @dataDrivenDependency a A.js\n");
    let mut content = String::new();
    write_indirect_data_driven_dependency_annotation(&mut content, &directive).unwrap();
    assert_eq!(
        content,
        "// @indirectDataDrivenDependency b B.js\n// @indirectDataDrivenDependency a A.js\n"
    );
}

#[test]
fn directive_without_arguments_lists_nothing() {
    let mut content = String::new();
    write_data_driven_dependency_annotation(&mut content, &Directive { arguments: vec![] })
        .unwrap();
    assert_eq!(content, "");
}

#[test]
fn component_annotations_end_with_an_empty_line() {
    let mut content = String::new();
    write_react_flight_server_annotation(
        &mut content,
        &ReactFlightLocalComponentsMetadata {
            components: vec!["A.server".to_string(), "B.server".to_string()],
        },
    )
    .unwrap();
    assert_eq!(
        content,
        "// @ReactFlightServerDependency A.server\n// @ReactFlightServerDependency B.server\n\n"
    );
    let mut content = String::new();
    write_react_flight_client_annotation(
        &mut content,
        &RelayClientComponentMetadata { split_operation_filenames: vec![] },
    )
    .unwrap();
    assert_eq!(content, "\n");
    write_react_flight_client_annotation(
        &mut content,
        &RelayClientComponentMetadata {
            split_operation_filenames: vec!["C.graphql".to_string()],
        },
    )
    .unwrap();
    assert_eq!(content, "\n// @ReactFlightClientDependency C.graphql\n\n");
}

#[test]
fn text_arguments_are_told_from_others() {
    let mut directive = Directive { arguments: vec![argument("a", "A.js")] };
    assert!(directive.has_text_arguments());
    directive
        .arguments
        .push(Argument { name: "b".to_string(), value: Value::Constant(ConstantValue::Other) });
    assert!(!directive.has_text_arguments());
    directive.arguments.pop();
    directive.arguments.push(Argument { name: "c".to_string(), value: Value::Other });
    assert!(!directive.has_text_arguments());
    assert!(Directive { arguments: vec![] }.has_text_arguments());
}

#[test]
fn lint_headers() {
    let expected = [
        "/* eslint-disable */\n\n",
        "/* tslint:disable */\n/* eslint-disable */\n// @ts-nocheck\n\n",
        "/* eslint-disable */\n\n",
        "",
    ];
    for (language, expected) in LANGUAGES.iter().zip(expected) {
        let mut content = String::new();
        write_disable_lint_header(language, &mut content).unwrap();
        assert_eq!(content, expected);
    }
}

#[test]
fn type_imports() {
    let expected = [
        "",
        "import { A, B } from 'module';\n",
        "import type { A, B } from 'module';\n",
        "",
    ];
    for (language, expected) in LANGUAGES.iter().zip(expected) {
        let mut content = String::new();
        write_import_type_from(language, &mut content, "A, B", "module").unwrap();
        assert_eq!(content, expected);
    }
}

#[test]
fn variable_definitions() {
    let expected = ["var n = {};\n\n", "const n: T = {};\n\n", "var n/*: T*/ = {};\n\n", ""];
    for (language, expected) in LANGUAGES.iter().zip(expected) {
        let mut content = String::new();
        write_variable_value_with_type(language, &mut content, "n", "T", "{}").unwrap();
        assert_eq!(content, expected);
        let provided = Some("{}".to_string());
        let statement = provided_variables_statement(language, "n", "T", &provided).unwrap();
        assert_eq!(statement.name, "n");
        assert_eq!(statement.definition, expected);
        assert!(provided_variables_statement(language, "n", "T", &None).is_none());
    }
}

#[test]
fn javascript_definitions_name_no_type() {
    let mut content = String::new();
    let mut other = String::new();
    write_variable_value_with_type(&TypegenLanguage::JavaScript, &mut content, "n", "T", "1")
        .unwrap();
    write_variable_value_with_type(&TypegenLanguage::JavaScript, &mut other, "n", "U", "1")
        .unwrap();
    assert_eq!(content, other);
}

#[test]
fn source_hashes_in_every_build() {
    let expected = [
        "node.hash = \"h\";\n",
        "(node as any).hash = \"h\";\n\n",
        "(node/*: any*/).hash = \"h\";\n\n",
        "\n",
    ];
    for (language, expected) in LANGUAGES.iter().zip(expected) {
        let mut content = String::new();
        write_source_hash(&config(&[], None), language, &mut content, "h").unwrap();
        assert_eq!(content, expected);
    }
}

#[test]
fn source_hashes_in_development_builds() {
    let expected = [
        "if (__DEV__) {\nnode.hash = \"h\";\n}\n\n",
        "if (__DEV__) {\n  (node as any).hash = \"h\";\n}\n\n",
        "if (__DEV__) {\n  (node/*: any*/).hash = \"h\";\n}\n\n",
        "if (__DEV__) {\n\n}\n\n",
    ];
    for (language, expected) in LANGUAGES.iter().zip(expected) {
        let mut content = String::new();
        write_source_hash(&config(&[], Some("__DEV__")), language, &mut content, "h").unwrap();
        assert_eq!(content, expected);
    }
}

#[test]
fn node_exports() {
    let untyped = ["module.exports = n;\n", "export default n;\n", "module.exports = n;\n", ""];
    let typed = [
        "module.exports = n;\n",
        "export default n;\n",
        "module.exports = ((n/*: any*/)/*: T*/);\n",
        "",
    ];
    for (i, language) in LANGUAGES.iter().enumerate() {
        let typegen_config = TypegenConfig { language: *language, eager_es_modules: false };
        let mut content = String::new();
        write_export_generated_node(&typegen_config, &mut content, "n", None).unwrap();
        assert_eq!(content, untyped[i]);
        let mut content = String::new();
        write_export_generated_node(&typegen_config, &mut content, "n", Some("T".to_string()))
            .unwrap();
        assert_eq!(content, typed[i]);
    }
}

#[test]
fn eager_modules_export_alike() {
    for language in LANGUAGES {
        for forced_type in [None, Some("T".to_string())] {
            let typegen_config = TypegenConfig { language, eager_es_modules: true };
            let mut content = String::new();
            write_export_generated_node(&typegen_config, &mut content, "n", forced_type).unwrap();
            assert_eq!(content, "export default n;\n");
        }
    }
}

#[test]
fn request_by_id_or_by_text() {
    let query = Some(QueryID::Persisted { id: "1".to_string(), text_hash: "h".to_string() });
    let by_id = RequestParameters { id: &None, text: None }.with_query(&query, "query Q { a }");
    assert!(matches!(by_id.id, Some(QueryID::Persisted { id, text_hash }) if id == "1" && text_hash == "h"));
    assert_eq!(by_id.text, None);
    let by_other = RequestParameters { id: &query, text: Some("t".to_string()) }
        .with_query(&Some(QueryID::Other), "query Q { a }");
    assert!(matches!(by_other.id, Some(QueryID::Other)));
    assert_eq!(by_other.text, Some("t".to_string()));
    let by_text = RequestParameters { id: &None::<QueryID>, text: None }
        .with_query(&None, "query Q { a }");
    assert!(by_text.id.is_none());
    assert_eq!(by_text.text, Some("query Q { a }".to_string()));
}
