//! Bodies, metadata, resources and answers.

use bytes::Bytes;
use http::HeaderMap;
use http::StatusCode;
use mcp_ext_authz::answer::ExtAuthzDeniedInfo;
use mcp_ext_authz::answer::RequestId;
use mcp_ext_authz::body::extract_body;
use mcp_ext_authz::body::BodyOptions;
use mcp_ext_authz::body::BufferedBody;
use mcp_ext_authz::config::Expression;
use mcp_ext_authz::config::ExtAuthz;
use mcp_ext_authz::config::FailureMode;
use mcp_ext_authz::ext_authz::McpExtAuthz;
use mcp_ext_authz::ext_authz::McpExtAuthzDenied;
use mcp_ext_authz::json::json_to_struct;
use mcp_ext_authz::json::Field;
use mcp_ext_authz::json::Json;
use mcp_ext_authz::json::NotAnObject;
use mcp_ext_authz::metadata::build_metadata_from_snapshot;
use mcp_ext_authz::metadata::Evaluation;
use mcp_ext_authz::metadata::ExtAuthzDynamicMetadata;
use mcp_ext_authz::metadata::Metadata;
use mcp_ext_authz::resource::ResourceId;
use mcp_ext_authz::resource::ResourceType;
use mcp_ext_authz::snapshot::Claims;
use mcp_ext_authz::snapshot::RequestSnapshot;
use mcp_ext_authz::snapshot::RequestTarget;
use mcp_ext_authz::table::Table;
use serde_json::Value;

fn value_of(json: &Json) -> Value {
    match json {
        Json::Null => Value::Null,
        Json::Bool(b) => Value::Bool(*b),
        Json::Number(n) => serde_json::from_str(n).unwrap(),
        Json::Text(t) => Value::String(t.clone()),
        Json::Array(items) => Value::Array(items.iter().map(value_of).collect()),
        Json::Object(fields) => object_of(fields),
    }
}

fn object_of(fields: &Vec<Field>) -> Value {
    Value::Object(fields.iter().map(|f| (f.key.clone(), value_of(&f.value))).collect())
}

fn parse(text: &str) -> Value {
    serde_json::from_str(text).unwrap()
}

fn text(t: &str) -> Json {
    Json::Text(t.to_string())
}

fn field(key: &str, value: Json) -> Field {
    Field { key: key.to_string(), value }
}

fn test_snapshot() -> RequestSnapshot {
    RequestSnapshot {
        method: "POST".to_string(),
        path: RequestTarget {
            path_and_query: Some("/mcp".to_string()),
            path: "/mcp".to_string(),
        },
        host: None,
        scheme: None,
        headers: HeaderMap::new(),
        body: None,
        jwt: None,
        extauthz: None,
    }
}

fn never(_: &Expression, _: &RequestSnapshot, _: Option<&ResourceType>) -> Evaluation {
    panic!("no expression is configured")
}

fn standard(snapshot: &RequestSnapshot, mcp: Option<&ResourceType>) -> Option<Metadata> {
    build_metadata_from_snapshot(&None, snapshot, mcp, never)
}

// Metadata for the service.

#[test]
fn test_build_metadata_from_snapshot_mcp_fallback_tool() {
    let snapshot = test_snapshot();
    let resource =
        ResourceType::Tool(ResourceId::new("my_server".to_string(), "my_tool".to_string()));

    let metadata = standard(&snapshot, Some(&resource));

    let meta = metadata.expect("should produce metadata for MCP resource");
    assert!(
        meta.filter_metadata.contains_key("agentgateway.filters.mcp"),
        "should contain agentgateway.filters.mcp key"
    );
    assert!(
        !meta.filter_metadata.contains_key("envoy.filters.http.jwt_authn"),
        "should not contain JWT key when no JWT claims"
    );

    let mcp_struct = meta.filter_metadata.get("agentgateway.filters.mcp").unwrap();
    let mcp_json = object_of(&mcp_struct.fields);
    assert_eq!(mcp_json["tool"]["target"], "my_server");
    assert_eq!(mcp_json["tool"]["name"], "my_tool");
}

#[test]
fn test_build_metadata_from_snapshot_mcp_fallback_prompt() {
    let snapshot = test_snapshot();
    let resource =
        ResourceType::Prompt(ResourceId::new("backend".to_string(), "summarize".to_string()));

    let metadata = standard(&snapshot, Some(&resource));

    let meta = metadata.unwrap();
    let mcp_struct = meta.filter_metadata.get("agentgateway.filters.mcp").unwrap();
    let mcp_json = object_of(&mcp_struct.fields);
    assert_eq!(mcp_json["prompt"]["target"], "backend");
    assert_eq!(mcp_json["prompt"]["name"], "summarize");
}

#[test]
fn test_build_metadata_from_snapshot_mcp_fallback_resource() {
    let snapshot = test_snapshot();
    let resource = ResourceType::Resource(ResourceId::new(
        "default".to_string(),
        "memo://insights".to_string(),
    ));

    let metadata = standard(&snapshot, Some(&resource));

    let meta = metadata.unwrap();
    let mcp_struct = meta.filter_metadata.get("agentgateway.filters.mcp").unwrap();
    let mcp_json = object_of(&mcp_struct.fields);
    assert_eq!(mcp_json["resource"]["target"], "default");
    assert_eq!(mcp_json["resource"]["name"], "memo://insights");
}

#[test]
fn test_build_metadata_no_mcp_no_jwt_returns_none() {
    let snapshot = test_snapshot();
    let metadata = standard(&snapshot, None);
    assert!(metadata.is_none(), "should return None when no MCP resource and no JWT");
}

#[test]
fn test_build_metadata_from_snapshot_jwt_and_mcp_both_present() {
    let mut snapshot = test_snapshot();
    snapshot.jwt = Some(Claims {
        inner: vec![
            field("sub", text("user@example.com")),
            field("iss", text("https://auth.example.com")),
        ],
    });
    let resource =
        ResourceType::Tool(ResourceId::new("server".to_string(), "my_tool".to_string()));

    let metadata = standard(&snapshot, Some(&resource));

    let meta = metadata.unwrap();
    assert!(
        meta.filter_metadata.contains_key("envoy.filters.http.jwt_authn"),
        "should contain JWT metadata"
    );
    assert!(
        meta.filter_metadata.contains_key("agentgateway.filters.mcp"),
        "should contain MCP metadata"
    );

    let jwt_struct = meta.filter_metadata.get("envoy.filters.http.jwt_authn").unwrap();
    let jwt_json = object_of(&jwt_struct.fields);
    assert_eq!(jwt_json["jwt_payload"]["sub"], "user@example.com");

    let mcp_struct = meta.filter_metadata.get("agentgateway.filters.mcp").unwrap();
    let mcp_json = object_of(&mcp_struct.fields);
    assert_eq!(mcp_json["tool"]["name"], "my_tool");
}

#[test]
fn standard_metadata_tells_nested_claims_alone() {
    let mut snapshot = test_snapshot();
    snapshot.jwt = Some(Claims {
        inner: vec![
            field("aud", Json::Array(vec![text("a"), Json::Null, Json::Bool(true)])),
            field("act", Json::Object(vec![field("exp", Json::Number("12.5".to_string()))])),
        ],
    });
    let meta = standard(&snapshot, None).unwrap();
    assert_eq!(meta.filter_metadata.entries().len(), 1);
    let sent = meta.filter_metadata.get("envoy.filters.http.jwt_authn").unwrap();
    assert_eq!(
        object_of(&sent.fields),
        parse(r#"{"jwt_payload":{"aud":["a",null,true],"act":{"exp":12.5}}}"#)
    );
}

#[test]
fn expressions_with_object_values_are_sent_and_others_not() {
    let mut expressions = Table::new();
    for source in ["object", "array", "text", "null", "number", "bool", "failed", "not json"] {
        expressions.insert(source.to_string(), Expression::new(source));
    }
    let eval = |e: &Expression, _: &RequestSnapshot, _: Option<&ResourceType>| {
        match e.source.as_str() {
            "object" => Evaluation::Value(Json::Object(vec![field("a", text("b"))])),
            "array" => Evaluation::Value(Json::Array(vec![])),
            "text" => Evaluation::Value(text("t")),
            "null" => Evaluation::Value(Json::Null),
            "number" => Evaluation::Value(Json::Number("1".to_string())),
            "bool" => Evaluation::Value(Json::Bool(false)),
            "failed" => Evaluation::Failed,
            _ => Evaluation::NotJson,
        }
    };
    let meta =
        build_metadata_from_snapshot(&Some(expressions), &test_snapshot(), None, eval).unwrap();
    assert_eq!(meta.filter_metadata.entries().len(), 1);
    assert_eq!(meta.filter_metadata.get("object").unwrap().fields, vec![field("a", text("b"))]);
}

#[test]
fn expressions_without_object_values_give_empty_metadata() {
    let expressions: Table<Expression> = Table::new();
    let resource = ResourceType::Tool(ResourceId::new("s".to_string(), "t".to_string()));
    let meta = build_metadata_from_snapshot(
        &Some(expressions),
        &test_snapshot(),
        Some(&resource),
        never,
    );
    assert!(meta.unwrap().filter_metadata.is_empty());
}

#[test]
fn only_objects_have_a_struct_form() {
    let pb = json_to_struct(Json::Object(vec![field("a", Json::Null)])).unwrap();
    assert_eq!(pb.fields, vec![field("a", Json::Null)]);
    assert_eq!(json_to_struct(Json::Array(vec![])), Err(NotAnObject));
    assert_eq!(json_to_struct(text("production")), Err(NotAnObject));
}

#[test]
fn duplicate_is_equal() {
    let value = Json::Array(vec![
        Json::Object(vec![field("a", Json::Number("1".to_string())), field("b", Json::Bool(true))]),
        text("t"),
        Json::Null,
    ]);
    assert_eq!(value.duplicate(), value);
}

// Metadata from the service.

fn metadata(entries: Vec<(&str, &str)>) -> ExtAuthzDynamicMetadata {
    let mut table = Table::new();
    for (key, value) in entries {
        table.insert(key.to_string(), text(value));
    }
    ExtAuthzDynamicMetadata(table)
}

fn metadata_value(dm: &ExtAuthzDynamicMetadata) -> Value {
    Value::Object(dm.0.entries().iter().map(|(k, v)| (k.clone(), value_of(v))).collect())
}

#[test]
fn cel_exec_wrapper_stores_extauthz_dynamic_metadata() {
    let dm = metadata(vec![("role", "admin")]);
    let stored = ExtAuthzDynamicMetadata::merge_levels(None, &dm);
    assert_eq!(metadata_value(&stored), parse(r#"{"role": "admin"}"#));
}

#[test]
fn set_extauthz_without_snapshot_extauthz_stores_mcp_only() {
    let snapshot = test_snapshot();
    let mcp_dm = metadata(vec![("role", "admin")]);
    let stored = ExtAuthzDynamicMetadata::merge_levels(snapshot.extauthz.as_ref(), &mcp_dm);
    assert_eq!(
        metadata_value(&stored),
        parse(r#"{"role": "admin"}"#),
        "should store MCP-only metadata when snapshot has no extauthz"
    );
}

#[test]
fn extauthz_dynamic_metadata_merges_route_and_mcp_levels() {
    let mut snapshot = test_snapshot();
    snapshot.extauthz = Some(metadata(vec![("tenant", "acme"), ("tier", "basic")]));
    let mcp_dm = metadata(vec![("tier", "premium"), ("role", "admin")]);
    let merged = ExtAuthzDynamicMetadata::merge_levels(snapshot.extauthz.as_ref(), &mcp_dm);
    assert_eq!(
        metadata_value(&merged),
        parse(r#"{"tenant": "acme", "tier": "premium", "role": "admin"}"#),
        "should merge route-level and MCP-level metadata with MCP taking precedence"
    );

    // A rule that requires both the route's "tenant" and the backend's "role".
    let says = |name: &str, value: &str| merged.0.get(name) == Some(&text(value));
    assert!(
        says("tenant", "acme") && says("role", "admin"),
        "should allow when merged metadata satisfies rule referencing keys from both levels"
    );
}

// Bodies.

#[test]
fn test_extract_body_no_opts_returns_empty() {
    let (body, raw, size) = extract_body(&None, None);
    assert!(body.is_empty());
    assert!(raw.is_empty());
    assert_eq!(size, 0);
}

#[test]
fn test_extract_body_no_buffered_body_returns_empty() {
    let opts = Some(BodyOptions {
        max_request_bytes: 1024,
        allow_partial_message: false,
        pack_as_bytes: false,
    });
    let (body, raw, size) = extract_body(&opts, None);
    assert!(body.is_empty());
    assert!(raw.is_empty());
    assert_eq!(size, 0);
}

#[test]
fn test_extract_body_as_string() {
    let opts = Some(BodyOptions {
        max_request_bytes: 1024,
        allow_partial_message: false,
        pack_as_bytes: false,
    });
    let payload = r#"{"jsonrpc":"2.0","method":"tools/call"}"#;
    let buffered = BufferedBody(Bytes::from(payload));
    let (body, raw, size) = extract_body(&opts, Some(&buffered));
    assert_eq!(body, payload);
    assert!(raw.is_empty(), "raw_body should be empty when pack_as_bytes=false");
    assert_eq!(size, payload.len() as i64);
}

#[test]
fn test_extract_body_as_raw_bytes() {
    let opts = Some(BodyOptions {
        max_request_bytes: 1024,
        allow_partial_message: false,
        pack_as_bytes: true,
    });
    let payload = b"binary-payload";
    let buffered = BufferedBody(Bytes::from(&payload[..]));
    let (body, raw, size) = extract_body(&opts, Some(&buffered));
    assert!(body.is_empty(), "body string should be empty when pack_as_bytes=true");
    assert_eq!(raw, payload.to_vec());
    assert_eq!(size, payload.len() as i64);
}

#[test]
fn test_extract_body_truncated_with_allow_partial() {
    let opts = Some(BodyOptions {
        max_request_bytes: 5,
        allow_partial_message: true,
        pack_as_bytes: false,
    });
    let payload = "hello world";
    let buffered = BufferedBody(Bytes::from(payload));
    let (body, raw, size) = extract_body(&opts, Some(&buffered));
    assert_eq!(body, "hello", "body should be truncated to max_request_bytes");
    assert!(raw.is_empty());
    assert_eq!(size, payload.len() as i64, "size should report original body length");
}

#[test]
fn test_extract_body_truncated_without_allow_partial_returns_empty() {
    let opts = Some(BodyOptions {
        max_request_bytes: 5,
        allow_partial_message: false,
        pack_as_bytes: false,
    });
    let payload = "hello world";
    let buffered = BufferedBody(Bytes::from(payload));
    let (body, raw, size) = extract_body(&opts, Some(&buffered));
    assert!(body.is_empty(), "body should be empty when too large and allow_partial=false");
    assert!(raw.is_empty());
    assert_eq!(size, payload.len() as i64, "size should still report original body length");
}

#[test]
fn test_extract_body_exact_limit_not_truncated() {
    let opts = Some(BodyOptions {
        max_request_bytes: 5,
        allow_partial_message: false,
        pack_as_bytes: false,
    });
    let payload = "hello";
    let buffered = BufferedBody(Bytes::from(payload));
    let (body, _, size) = extract_body(&opts, Some(&buffered));
    assert_eq!(body, "hello", "body at exact limit should not be truncated");
    assert_eq!(size, 5);
}

#[test]
fn body_cut_inside_a_character_is_marked() {
    let opts = Some(BodyOptions {
        max_request_bytes: 2,
        allow_partial_message: true,
        pack_as_bytes: false,
    });
    let buffered = BufferedBody(Bytes::from("a\u{e9}b"));
    let (body, _, size) = extract_body(&opts, Some(&buffered));
    assert_eq!(body, "a\u{fffd}");
    assert_eq!(size, 4);
}

#[test]
fn raw_body_is_cut_or_left_out() {
    let buffered = BufferedBody(Bytes::from(vec![0u8, 159, 146, 150]));
    for (allow_partial_message, expected) in [(true, vec![0u8, 159]), (false, vec![])] {
        let opts = Some(BodyOptions {
            max_request_bytes: 2,
            allow_partial_message,
            pack_as_bytes: true,
        });
        let (body, raw, size) = extract_body(&opts, Some(&buffered));
        assert_eq!(body, "");
        assert_eq!(raw, expected);
        assert_eq!(size, 4);
    }
}

// Resources.

#[test]
fn resource_type_serialization_all_variants() {
    let tool = ResourceType::Tool(ResourceId::new("srv".to_string(), "my_tool".to_string()));
    assert_eq!(
        value_of(&tool.to_json()),
        parse(r#"{"tool": {"target": "srv", "name": "my_tool"}}"#)
    );

    let prompt = ResourceType::Prompt(ResourceId::new("srv".to_string(), "summarize".to_string()));
    assert_eq!(
        value_of(&prompt.to_json()),
        parse(r#"{"prompt": {"target": "srv", "name": "summarize"}}"#)
    );

    let resource = ResourceType::Resource(ResourceId::new(
        "default".to_string(),
        "memo://insights".to_string(),
    ));
    assert_eq!(
        value_of(&resource.to_json()),
        parse(r#"{"resource": {"target": "default", "name": "memo://insights"}}"#)
    );
}

#[test]
fn resources_of_different_kinds_have_different_json() {
    let id = || ResourceId::new("srv".to_string(), "x".to_string());
    let a = ResourceType::Tool(id()).to_json();
    let b = ResourceType::Prompt(id()).to_json();
    let c = ResourceType::Resource(id()).to_json();
    assert_ne!(a, b);
    assert_ne!(a, c);
    assert_ne!(b, c);
}

// Answers to refused requests.

#[test]
fn denied_tool_is_answered_as_unknown() {
    let id = |name: &str| ResourceId::new("server".to_string(), name.to_string());
    let error = ResourceType::Tool(id("echo")).denied_error();
    assert_eq!(error.code, -32602);
    assert_eq!(error.message, "Unknown tool: echo");
    assert!(error.data.is_none());
    let error = ResourceType::Prompt(id("example_prompt")).denied_error();
    assert_eq!(error.code, -32602);
    assert_eq!(error.message, "Unknown prompt: example_prompt");
    let error = ResourceType::Resource(id("memo://insights")).denied_error();
    assert_eq!(error.code, -32602);
    assert_eq!(error.message, "Unknown resource: memo://insights");
}

#[test]
fn ext_authz_denied_error_produces_json_rpc_response() {
    let mut headers = HeaderMap::new();
    headers.insert("x-custom", "test-value".parse().unwrap());

    let info = ExtAuthzDeniedInfo {
        req_id: RequestId::Number(42),
        response_headers: headers,
        status_code: StatusCode::UNAUTHORIZED.as_u16(),
        body: "insufficient permissions".to_string(),
    };
    let resp = info.into_response();
    assert_eq!(
        resp.status,
        StatusCode::UNAUTHORIZED.as_u16(),
        "should propagate status_code from ext_authz DeniedResponse"
    );
    assert_eq!(resp.headers.get("x-custom").unwrap().to_str().unwrap(), "test-value");
    assert_eq!(resp.content_type, "application/json");

    let json = value_of(&resp.body);
    assert_eq!(json["jsonrpc"], "2.0");
    assert_eq!(json["id"], 42);
    assert_eq!(json["error"]["code"], rmcp::model::ErrorCode::INTERNAL_ERROR.0);
    assert_eq!(json["error"]["message"], "insufficient permissions");
}

#[test]
fn denial_keeps_the_refusal_and_the_identifier() {
    let info = ExtAuthzDeniedInfo::new(
        RequestId::Text("req-1".to_string()),
        McpExtAuthzDenied::default(),
    );
    assert_eq!(info.status_code, 403);
    let resp = info.into_response();
    assert_eq!(resp.status, 403);
    assert!(resp.headers.is_empty());
    assert_eq!(
        value_of(&resp.body),
        parse(r#"{"jsonrpc":"2.0","id":"req-1","error":{"code":-32603,"message":""}}"#)
    );
}

#[test]
fn refused_caller_is_told_what_the_failure_mode_says() {
    let mut config = ExtAuthz::default();
    config.failure_mode = FailureMode::DenyWithStatus(503);
    let denied = McpExtAuthz(config).handle_auth_failure("no answer").unwrap_err();
    let resp = ExtAuthzDeniedInfo::new(RequestId::Number(-7), denied).into_response();
    assert_eq!(resp.status, 503);
    assert_eq!(
        value_of(&resp.body),
        parse(
            r#"{"jsonrpc":"2.0","id":-7,
                "error":{"code":-32603,"message":"external authorization denied"}}"#
        )
    );
}

#[test]
fn answers_to_different_requests_differ() {
    let answer = |id: RequestId| {
        ExtAuthzDeniedInfo::new(id, McpExtAuthzDenied::default()).into_response().body
    };
    assert_ne!(answer(RequestId::Number(1)), answer(RequestId::Number(10)));
    assert_ne!(answer(RequestId::Number(1)), answer(RequestId::Number(-1)));
    assert_ne!(answer(RequestId::Number(1)), answer(RequestId::Text("1".to_string())));
}
