use openai::classify::{classify, is_excluded};
use openai::emit::{doc_comment_text, generate, generate_client, route_format};
use openai::loader::decode_schema;
use openai::model::{
    Component, Document, GenError, Group, Parameter, ParameterLocation, SchemaKind, SchemaNode,
};
use openai::resolve::resolve_type;
use openai::text::{contains_text, last_path_segment};
use openai::yaml::Yaml;

fn text(s: &str) -> Yaml {
    Yaml::Str(s.to_string())
}

fn map(entries: Vec<(&str, Yaml)>) -> Yaml {
    let keys = entries.iter().map(|(k, _)| k.to_string()).collect();
    let values = entries.into_iter().map(|(_, v)| v).collect();
    Yaml::Mapping(keys, values)
}

fn reference(name: &str) -> Yaml {
    map(vec![("$ref", text(&format!("#/components/schemas/{}", name)))])
}

fn tagged(kind: &str) -> Yaml {
    map(vec![("type", text(kind))])
}

fn ok_response(schema: Yaml) -> Yaml {
    map(vec![(
        "200",
        map(vec![("content", map(vec![("application/json", map(vec![("schema", schema)]))]))]),
    )])
}

fn operation(id: &str, group: &str, params: Vec<Yaml>, schema: Yaml, deprecated: bool) -> Yaml {
    map(vec![
        ("operationId", text(id)),
        ("summary", text(&format!("Runs {}.", id))),
        ("deprecated", Yaml::Bool(deprecated)),
        ("parameters", Yaml::List(params)),
        ("responses", ok_response(schema)),
        ("x-oaiMeta", map(vec![("group", text(group))])),
    ])
}

fn path_parameter(name: &str) -> Yaml {
    map(vec![
        ("name", text(name)),
        ("in", text("path")),
        ("description", text("The model to use.")),
        ("required", Yaml::Bool(true)),
        ("schema", tagged("string")),
    ])
}

fn group(id: &str, description: &str, warning: Option<&str>) -> Yaml {
    let mut entries = vec![("id", text(id)), ("description", text(description))];
    if let Some(w) = warning {
        entries.push(("warning", map(vec![("title", text(w))])));
    }
    map(entries)
}

fn document(paths: Vec<(&str, Yaml)>, components: Vec<&str>, groups: Vec<Yaml>) -> Yaml {
    map(vec![
        ("servers", Yaml::List(vec![map(vec![("url", text("https://api.openai.com/v1"))])])),
        ("paths", map(paths)),
        (
            "components",
            map(vec![(
                "schemas",
                map(components.into_iter().map(|c| (c, tagged("object"))).collect()),
            )]),
        ),
        ("x-oaiMeta", map(vec![("groups", Yaml::List(groups))])),
    ])
}

fn count(hay: &str, needle: &str) -> usize {
    hay.matches(needle).count()
}

#[test]
fn models_group_with_one_listing_operation() {
    let doc = document(
        vec![(
            "/models",
            map(vec![("get", operation("listModels", "models", vec![], reference("ListModelsResponse"), false))]),
        )],
        vec!["ListModelsResponse"],
        vec![group("models", "Model ops", None)],
    );
    let out = generate_client(&doc).unwrap();
    assert!(out.contains("/// Model ops\npub mod models {"));
    assert!(out.contains(
        "pub async fn list_models() -> crate::ApiResponseOrError<ListModelsResponse> {"
    ));
    assert!(out.contains("reqwest::Method::GET, format!(\"https://api.openai.com/v1/models\"))"));
    assert!(out.contains("pub mod components {"));
    assert!(out.contains("pub struct ListModelsResponse {}"));
    assert_eq!(count(&out, "pub async fn"), 1);
}

#[test]
fn path_parameter_is_typed_and_substituted() {
    let doc = document(
        vec![(
            "/models/{model}",
            map(vec![(
                "get",
                operation("retrieveModel", "models", vec![path_parameter("model")], reference("Model"), false),
            )]),
        )],
        vec!["Model"],
        vec![group("models", "Model ops", None)],
    );
    let out = generate_client(&doc).unwrap();
    assert!(out.contains("pub async fn retrieve_model(model: String, ) -> crate::ApiResponseOrError<Model>"));
    assert!(out.contains("format!(\"https://api.openai.com/v1/models/{}\", model)"));
    assert!(!out.contains("{model}"));
}

#[test]
fn missing_success_response_is_malformed() {
    let op = map(vec![
        ("operationId", text("listModels")),
        ("summary", text("Lists models.")),
        ("responses", map(vec![("404", map(vec![]))])),
        ("x-oaiMeta", map(vec![("group", text("models"))])),
    ]);
    let doc = document(
        vec![("/models", map(vec![("get", op)]))],
        vec![],
        vec![group("models", "Model ops", None)],
    );
    assert_eq!(generate_client(&doc), Err(GenError::DocumentMalformed));
}

#[test]
fn deprecated_group_gets_no_module() {
    let doc = document(
        vec![
            ("/models", map(vec![("get", operation("listModels", "models", vec![], tagged("string"), false))])),
            ("/engines", map(vec![("get", operation("listEngines", "engines", vec![], tagged("string"), false))])),
        ],
        vec![],
        vec![
            group("models", "Model ops", None),
            group("engines", "Engine ops", Some("Deprecated in favor of models")),
        ],
    );
    let out = generate_client(&doc).unwrap();
    assert!(!out.contains("pub mod engines"));
    assert!(!out.contains("list_engines"));
    assert!(out.contains("pub mod models"));
    assert_eq!(count(&out, "pub async fn"), 1);
}

#[test]
fn deprecated_operation_is_not_emitted() {
    let doc = document(
        vec![
            ("/models", map(vec![("get", operation("listModels", "models", vec![], tagged("string"), false))])),
            ("/old", map(vec![("get", operation("oldModels", "models", vec![], tagged("string"), true))])),
        ],
        vec![],
        vec![group("models", "Model ops", None)],
    );
    let out = generate_client(&doc).unwrap();
    assert!(!out.contains("old_models"));
    assert_eq!(count(&out, "pub async fn"), 1);
}

#[test]
fn duplicate_method_and_path_collapse_to_the_later_one() {
    let doc = document(
        vec![
            ("/models", map(vec![("get", operation("firstListing", "models", vec![], tagged("string"), false))])),
            ("/models", map(vec![("get", operation("secondListing", "models", vec![], tagged("string"), false))])),
        ],
        vec![],
        vec![group("models", "Model ops", None)],
    );
    let out = generate_client(&doc).unwrap();
    assert_eq!(count(&out, "pub async fn"), 1);
    assert!(out.contains("second_listing"));
    assert!(!out.contains("first_listing"));
}

#[test]
fn function_count_matches_live_operations() {
    let doc = document(
        vec![
            (
                "/files",
                map(vec![
                    ("get", operation("listFiles", "files", vec![], tagged("array"), false)),
                    ("post", operation("createFile", "files", vec![], tagged("object"), false)),
                ]),
            ),
            (
                "/files/{file_id}",
                map(vec![
                    ("get", operation("retrieveFile", "files", vec![path_parameter("file_id")], tagged("object"), false)),
                    ("delete", operation("deleteFile", "files", vec![path_parameter("file_id")], tagged("boolean"), false)),
                ]),
            ),
            ("/models", map(vec![("get", operation("listModels", "models", vec![], tagged("string"), false))])),
        ],
        vec![],
        vec![group("files", "File ops", None), group("models", "Model ops", None)],
    );
    let out = generate_client(&doc).unwrap();
    assert_eq!(count(&out, "pub async fn"), 5);
    assert!(out.contains("reqwest::Method::DELETE, format!(\"https://api.openai.com/v1/files/{}\", file_id)"));
    assert!(out.contains("reqwest::Method::POST"));
    let files = out.find("pub mod files").unwrap();
    let models = out.find("pub mod models").unwrap();
    assert!(files < models);
}

#[test]
fn generation_is_reproducible() {
    let make = || {
        document(
            vec![("/models", map(vec![("get", operation("listModels", "models", vec![], reference("Foo"), false))]))],
            vec!["Foo", "Bar"],
            vec![group("models", "Model ops", None)],
        )
    };
    assert_eq!(generate_client(&make()).unwrap(), generate_client(&make()).unwrap());
}

#[test]
fn reference_resolves_to_component_name() {
    let comps = vec![Component { name: "Foo".to_string(), schema: SchemaNode::Opaque }];
    let node = SchemaNode::Reference { pointer: "#/components/schemas/Foo".to_string() };
    assert_eq!(resolve_type(&node, &comps), Ok("Foo".to_string()));
    let missing = SchemaNode::Reference { pointer: "#/components/schemas/Bar".to_string() };
    assert_eq!(resolve_type(&missing, &comps), Err(GenError::UnresolvableReference));
}

#[test]
fn tags_map_to_target_types() {
    let comps: Vec<Component> = vec![];
    let resolve = |kind| resolve_type(&SchemaNode::Tagged { kind, object: None }, &comps);
    assert_eq!(resolve(SchemaKind::Boolean), Ok("bool".to_string()));
    assert_eq!(
        resolve(SchemaKind::Object),
        Ok("std::collections::HashMap<String, serde_json::Value>".to_string())
    );
    assert_eq!(resolve(SchemaKind::Array), Ok("Vec<serde_json::Value>".to_string()));
    assert_eq!(resolve(SchemaKind::Number), Ok("f64".to_string()));
    assert_eq!(resolve(SchemaKind::String), Ok("String".to_string()));
    assert_eq!(resolve(SchemaKind::Integer), Ok("i64".to_string()));
    assert_eq!(resolve(SchemaKind::Null), Err(GenError::UnsupportedSchemaShape));
    assert_eq!(resolve_type(&SchemaNode::Opaque, &comps), Err(GenError::UnsupportedSchemaShape));
}

#[test]
fn unsupported_return_type_fails_generation() {
    let doc = document(
        vec![("/models", map(vec![("get", operation("listModels", "models", vec![], tagged("null"), false))]))],
        vec![],
        vec![group("models", "Model ops", None)],
    );
    assert_eq!(generate_client(&doc), Err(GenError::UnsupportedSchemaShape));
    let doc = document(
        vec![("/models", map(vec![("get", operation("listModels", "models", vec![], reference("Nope"), false))]))],
        vec![],
        vec![group("models", "Model ops", None)],
    );
    assert_eq!(generate_client(&doc), Err(GenError::UnresolvableReference));
}

#[test]
fn schema_shapes_are_told_apart_in_order() {
    let both = map(vec![("type", text("string")), ("$ref", text("#/components/schemas/Foo"))]);
    assert!(matches!(decode_schema(&both), SchemaNode::Tagged { kind: SchemaKind::String, object: None }));
    let inline = map(vec![
        ("properties", map(vec![("id", tagged("string")), ("size", tagged("integer"))])),
        ("required", Yaml::List(vec![text("id")])),
    ]);
    match decode_schema(&inline) {
        SchemaNode::InlineObject(o) => {
            assert_eq!(o.properties, vec!["id".to_string(), "size".to_string()]);
            assert_eq!(o.required, vec!["id".to_string()]);
        },
        _ => panic!("expected an inline object"),
    }
    let object = map(vec![("type", text("object")), ("properties", map(vec![("id", tagged("string"))]))]);
    assert!(matches!(
        decode_schema(&object),
        SchemaNode::Tagged { kind: SchemaKind::Object, object: Some(_) }
    ));
    match decode_schema(&reference("Foo")) {
        SchemaNode::Reference { pointer } => assert_eq!(pointer, "#/components/schemas/Foo"),
        _ => panic!("expected a reference"),
    }
    assert!(matches!(decode_schema(&map(vec![("oneOf", Yaml::List(vec![]))])), SchemaNode::Opaque));
    assert!(matches!(decode_schema(&tagged("mystery")), SchemaNode::Opaque));
}

#[test]
fn unbound_or_unclosed_placeholders_are_malformed() {
    let params = vec![Parameter {
        name: "model".to_string(),
        location: ParameterLocation::Path,
        description: String::new(),
        required: true,
        deprecated: false,
        schema: SchemaNode::Opaque,
    }];
    assert_eq!(
        route_format("/models/{model}/x", &params),
        Ok(("/models/{}/x".to_string(), ", model".to_string()))
    );
    assert_eq!(route_format("/models/{engine}", &params), Err(GenError::DocumentMalformed));
    assert_eq!(route_format("/models/{model", &params), Err(GenError::DocumentMalformed));
    assert_eq!(route_format("/models/}", &params), Err(GenError::DocumentMalformed));
    let query = vec![Parameter { location: ParameterLocation::Query, ..params[0].clone() }];
    assert_eq!(route_format("/models/{model}", &query), Err(GenError::DocumentMalformed));
}

#[test]
fn doc_comments_continue_across_lines() {
    assert_eq!(doc_comment_text("one\ntwo"), "one\n/// two");
    assert_eq!(doc_comment_text(""), "");
}

#[test]
fn text_helpers() {
    assert!(contains_text("Deprecated in favor of X", "favor"));
    assert!(!contains_text("abc", "abd"));
    assert!(contains_text("abc", ""));
    assert_eq!(last_path_segment("#/components/schemas/Foo"), "Foo");
    assert_eq!(last_path_segment("Foo"), "Foo");
    assert_eq!(last_path_segment("a/"), "");
}

#[test]
fn deprecation_warning_is_case_insensitive() {
    let g = |title: Option<&str>| Group {
        id: "g".to_string(),
        description: String::new(),
        warning_title: title.map(|t| t.to_string()),
    };
    assert!(is_excluded(&g(Some("Deprecated in favor of X"))));
    assert!(is_excluded(&g(Some("THIS IS DEPRECATED"))));
    assert!(!is_excluded(&g(Some("Beta"))));
    assert!(!is_excluded(&g(None)));
}

#[test]
fn classification_keeps_group_order() {
    let groups = vec![
        Group { id: "b".to_string(), description: String::new(), warning_title: None },
        Group { id: "a".to_string(), description: String::new(), warning_title: Some("deprecated".to_string()) },
        Group { id: "c".to_string(), description: String::new(), warning_title: None },
    ];
    let doc = Document { servers: vec!["https://x".to_string()], paths: vec![], components: vec![], groups };
    let plans = classify(&doc);
    let order: Vec<usize> = plans.iter().map(|p| p.group).collect();
    assert_eq!(order, vec![0, 2]);
    assert!(plans.iter().all(|p| p.operations.is_empty()));
    let out = generate(&doc).unwrap();
    assert!(out.contains("pub mod b {"));
    assert!(out.contains("pub mod c {"));
}

#[test]
fn document_without_servers_is_malformed() {
    let doc = Document { servers: vec![], paths: vec![], components: vec![], groups: vec![] };
    assert_eq!(generate(&doc), Err(GenError::DocumentMalformed));
}

#[test]
fn malformed_shapes_are_rejected() {
    assert_eq!(generate_client(&text("not a document")), Err(GenError::DocumentMalformed));
    let bad_group = document(vec![], vec![], vec![map(vec![("id", text("models"))])]);
    assert_eq!(generate_client(&bad_group), Err(GenError::DocumentMalformed));
    let bad_param = map(vec![("name", text("model")), ("in", text("body"))]);
    let doc = document(
        vec![("/models", map(vec![("get", operation("listModels", "models", vec![bad_param], tagged("string"), false))]))],
        vec![],
        vec![group("models", "Model ops", None)],
    );
    assert_eq!(generate_client(&doc), Err(GenError::DocumentMalformed));
}

#[test]
fn collisions_are_reported_for_the_replaced_operation() {
    let doc = document(
        vec![
            (
                "/models",
                map(vec![
                    ("get", operation("firstListing", "models", vec![], tagged("string"), false)),
                    ("post", operation("createModel", "models", vec![], tagged("string"), false)),
                ]),
            ),
            ("/other", map(vec![("get", operation("other", "models", vec![], tagged("string"), false))])),
            ("/models", map(vec![("get", operation("secondListing", "models", vec![], tagged("string"), false))])),
        ],
        vec![],
        vec![group("models", "Model ops", None)],
    );
    let decoded = openai::loader::decode_document(&doc).unwrap();
    let collisions = openai::classify::key_collisions(&decoded);
    assert_eq!(
        collisions,
        vec![openai::classify::OpRef { path: 0, method: openai::model::HttpMethod::Get }]
    );
}

#[test]
fn function_and_module_layout() {
    let f = openai::emit::function_from_parts(
        "Gets a model.\nWith details.",
        "retrieve_model",
        "model: String, ",
        "Model",
        "GET",
        "https://h/models/{}",
        ", model",
    );
    assert_eq!(
        f,
        "    /// Gets a model.\n/// With details.\n    pub async fn retrieve_model(model: String, ) -> crate::ApiResponseOrError<Model> {\n        crate::openai_call(reqwest::Method::GET, format!(\"https://h/models/{}\", model)).await\n    }\n\n"
    );
    let m = openai::emit::module_from_parts("Model ops", "models", "");
    assert_eq!(
        m,
        "/// Model ops\npub mod models {\n    #[allow(unused_imports)]\n    use crate::components::*;\n\n}\n\n"
    );
}
