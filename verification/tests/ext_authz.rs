//! Checking requests: what is asked, what follows, and what is refused.

use bytes::Bytes;
use http::HeaderMap;
use http::HeaderValue;
use http::StatusCode;
use mcp_ext_authz::body::BodyOptions;
use mcp_ext_authz::body::BufferedBody;
use mcp_ext_authz::config::Expression;
use mcp_ext_authz::config::ExtAuthz;
use mcp_ext_authz::config::FailureMode;
use mcp_ext_authz::config::Protocol;
use mcp_ext_authz::ext_authz::McpExtAuthz;
use mcp_ext_authz::ext_authz::McpExtAuthzDenied;
use mcp_ext_authz::ext_authz::McpExtAuthzOkResponse;
use mcp_ext_authz::ext_authz::Verdict;
use mcp_ext_authz::headers::HeaderOrPseudo;
use mcp_ext_authz::json::Field;
use mcp_ext_authz::json::Json;
use mcp_ext_authz::metadata::DynamicField;
use mcp_ext_authz::metadata::Evaluation;
use mcp_ext_authz::metadata::ExtAuthzDynamicMetadata;
use mcp_ext_authz::resource::ResourceId;
use mcp_ext_authz::resource::ResourceType;
use mcp_ext_authz::service::CheckRequest;
use mcp_ext_authz::service::CheckResponse;
use mcp_ext_authz::service::DeniedHttpResponse;
use mcp_ext_authz::service::HttpResponse;
use mcp_ext_authz::service::OkHttpResponse;
use mcp_ext_authz::service::Timestamp;
use mcp_ext_authz::snapshot::Claims;
use mcp_ext_authz::snapshot::RequestSnapshot;
use mcp_ext_authz::snapshot::RequestTarget;
use mcp_ext_authz::status::valid_status;
use mcp_ext_authz::status::wire_status;
use mcp_ext_authz::table::Table;

type Named = (String, String);

fn make_test_snapshot() -> RequestSnapshot {
    RequestSnapshot {
        method: "POST".to_string(),
        path: RequestTarget {
            path_and_query: Some("/mcp".to_string()),
            path: "/mcp".to_string(),
        },
        host: None,
        scheme: None,
        headers: HeaderMap::new(),
        body: None,
        jwt: None,
        extauthz: None,
    }
}

fn http_protocol() -> Protocol {
    Protocol::Http {
        path: None,
        redirect: None,
        include_response_headers: Vec::new(),
        add_request_headers: Default::default(),
        metadata: Default::default(),
    }
}

fn collect(headers: &HeaderMap<HeaderValue>, name: &String) -> Option<String> {
    let values: Vec<&str> = headers
        .get_all(name.as_str())
        .iter()
        .filter_map(|value| value.to_str().ok())
        .collect();
    if values.is_empty() {
        None
    } else {
        Some(values.join(","))
    }
}

fn eval(
    expression: &Expression,
    snapshot: &RequestSnapshot,
    mcp: Option<&ResourceType>,
) -> Evaluation {
    match expression.source.as_str() {
        "method" => Evaluation::Value(Json::Object(vec![Field {
            key: "method".to_string(),
            value: Json::Text(snapshot.method.clone()),
        }])),
        "mcp" => match mcp {
            Some(resource) => Evaluation::Value(resource.to_json()),
            None => Evaluation::Failed,
        },
        "'production'" => Evaluation::Value(Json::Text("production".to_string())),
        "bytes" => Evaluation::NotJson,
        _ => Evaluation::Failed,
    }
}

fn process(named: Vec<Named>) -> HeaderMap<HeaderValue> {
    let mut map = HeaderMap::new();
    for (name, value) in named {
        let name = http::HeaderName::from_bytes(name.as_bytes()).unwrap();
        map.append(name, HeaderValue::from_str(&value).unwrap());
    }
    map
}

fn unreachable_service(_: CheckRequest) -> Result<CheckResponse<Named>, String> {
    Err("connection refused".to_string())
}

fn named(name: &str, value: &str) -> Named {
    (name.to_string(), value.to_string())
}

fn answer(status: Option<i32>) -> CheckResponse<Named> {
    CheckResponse { status, dynamic_metadata: None, http_response: None }
}

fn conclude(mode: FailureMode, reply: Result<CheckResponse<Named>, String>) -> Verdict {
    let ea = McpExtAuthz(ExtAuthz { failure_mode: mode, ..Default::default() });
    ea.conclude(reply, process)
}

// What the configuration says.

fn make_grpc_ext_authz() -> ExtAuthz {
    let mut context = Table::new();
    context.insert("x-source".to_string(), "test".to_string());
    let mut metadata = Table::new();
    metadata.insert("env".to_string(), Expression::new("'production'"));
    ExtAuthz {
        target: "ext-authz-server".to_string(),
        protocol: Protocol::Grpc { context: Some(context), metadata: Some(metadata) },
        failure_mode: FailureMode::Deny,
        include_request_headers: vec![
            HeaderOrPseudo::Header("authorization".to_string()),
            HeaderOrPseudo::Header("x-request-id".to_string()),
        ],
        include_request_body: Some(BodyOptions {
            max_request_bytes: 4096,
            allow_partial_message: true,
            pack_as_bytes: false,
        }),
    }
}

fn make_http_ext_authz() -> ExtAuthz {
    let mut add_request_headers = Table::new();
    add_request_headers.insert("x-custom".to_string(), Expression::new("'value'"));
    let mut metadata = Table::new();
    metadata.insert("tenant".to_string(), Expression::new("'default'"));
    ExtAuthz {
        target: "ext-authz-http".to_string(),
        protocol: Protocol::Http {
            path: Some(Expression::new("'/check'")),
            redirect: None,
            include_response_headers: vec!["x-auth-user".to_string()],
            add_request_headers,
            metadata: Some(metadata),
        },
        failure_mode: FailureMode::Allow,
        include_request_headers: vec![],
        include_request_body: None,
    }
}

fn sources(ea: &McpExtAuthz) -> Vec<String> {
    ea.expressions().iter().map(|e| e.source.clone()).collect()
}

#[test]
fn expressions_of_each_protocol() {
    let grpc = McpExtAuthz(make_grpc_ext_authz());
    assert_eq!(sources(&grpc), vec!["'production'".to_string()]);
    let http = McpExtAuthz(make_http_ext_authz());
    assert_eq!(
        sources(&http),
        vec!["'/check'".to_string(), "'value'".to_string(), "'default'".to_string()]
    );
    assert!(sources(&McpExtAuthz(ExtAuthz::default())).is_empty());
}

#[test]
fn failure_mode_is_the_configured_one() {
    assert_eq!(*McpExtAuthz(make_grpc_ext_authz()).failure_mode(), FailureMode::Deny);
    assert_eq!(*McpExtAuthz(make_http_ext_authz()).failure_mode(), FailureMode::Allow);
}

// Defaults.

#[test]
fn mcp_ext_authz_denied_error_default() {
    let denied = McpExtAuthzDenied::default();
    assert!(denied.response_headers.is_empty());
    assert_eq!(denied.status_code, StatusCode::FORBIDDEN.as_u16());
    assert!(denied.body.is_empty());
}

#[test]
fn denied_error_has_a_description() {
    assert_eq!(McpExtAuthzDenied::default().description(), "mcp ext_authz denied");
}

#[test]
fn mcp_ok_response_carries_dynamic_metadata() {
    let mut table = Table::new();
    table.insert("request_id".to_string(), Json::Text("abc-123".to_string()));
    table.insert(
        "tags".to_string(),
        Json::Array(vec![Json::Text("audit".to_string()), Json::Text("trace".to_string())]),
    );
    let ok_resp = McpExtAuthzOkResponse {
        dynamic_metadata: Some(ExtAuthzDynamicMetadata(table)),
        ..Default::default()
    };

    let meta = &ok_resp.dynamic_metadata.as_ref().unwrap().0;
    assert_eq!(meta.get("request_id"), Some(&Json::Text("abc-123".to_string())));
    assert_eq!(
        meta.get("tags"),
        Some(&Json::Array(vec![
            Json::Text("audit".to_string()),
            Json::Text("trace".to_string())
        ]))
    );
    assert!(ok_resp.request_headers_to_add.is_empty());
    assert!(ok_resp.request_headers_to_remove.is_empty());
    assert!(ok_resp.response_headers_to_add.is_empty());
}

// Failure modes.

#[test]
fn handle_auth_failure_allow_returns_ok() {
    let ea = McpExtAuthz(ExtAuthz { failure_mode: FailureMode::Allow, ..Default::default() });
    let result = ea.handle_auth_failure("test unavailable");
    assert!(result.is_ok(), "FailureMode::Allow should return Ok");
    let ok = result.unwrap();
    assert!(ok.request_headers_to_add.is_empty());
    assert!(ok.request_headers_to_remove.is_empty());
    assert!(ok.response_headers_to_add.is_empty());
    assert!(ok.dynamic_metadata.is_none());
}

#[test]
fn handle_auth_failure_deny_returns_403() {
    let ea = McpExtAuthz(ExtAuthz { failure_mode: FailureMode::Deny, ..Default::default() });
    let result = ea.handle_auth_failure("test unavailable");
    assert!(result.is_err(), "FailureMode::Deny should return Err");
    let denied = result.unwrap_err();
    assert_eq!(denied.status_code, StatusCode::FORBIDDEN.as_u16());
    assert_eq!(denied.body, "external authorization denied");
    assert!(denied.response_headers.is_empty());
}

#[test]
fn handle_auth_failure_deny_with_status_returns_custom_code() {
    let ea = McpExtAuthz(ExtAuthz {
        failure_mode: FailureMode::DenyWithStatus(503),
        ..Default::default()
    });
    let result = ea.handle_auth_failure("test unavailable");
    assert!(result.is_err(), "FailureMode::DenyWithStatus should return Err");
    let denied = result.unwrap_err();
    assert_eq!(
        denied.status_code,
        StatusCode::SERVICE_UNAVAILABLE.as_u16(),
        "should use the configured 503 status"
    );
    assert_eq!(denied.body, "external authorization denied");
}

#[test]
fn handle_auth_failure_deny_with_invalid_status_falls_back_to_403() {
    let ea = McpExtAuthz(ExtAuthz {
        failure_mode: FailureMode::DenyWithStatus(9999),
        ..Default::default()
    });
    let result = ea.handle_auth_failure("bad status");
    assert!(result.is_err());
    let denied = result.unwrap_err();
    assert_eq!(
        denied.status_code,
        StatusCode::FORBIDDEN.as_u16(),
        "invalid status code should fall back to 403"
    );
}

#[test]
fn failure_mode_alone_decides_whatever_the_message() {
    let ea = McpExtAuthz(ExtAuthz {
        failure_mode: FailureMode::DenyWithStatus(429),
        ..Default::default()
    });
    let a = ea.handle_auth_failure("one thing").unwrap_err();
    let b = ea.handle_auth_failure("another").unwrap_err();
    assert_eq!(a.status_code, 429);
    assert_eq!(a.status_code, b.status_code);
    assert_eq!(a.body, b.body);
}

// Status codes.

#[test]
fn status_codes_have_three_digits() {
    assert_eq!(valid_status(99), 403);
    assert_eq!(valid_status(100), 100);
    assert_eq!(valid_status(999), 999);
    assert_eq!(valid_status(1000), 403);
}

#[test]
fn wire_status_counts_sixteen_bits() {
    assert_eq!(wire_status(401), 401);
    assert_eq!(wire_status(0), 403);
    assert_eq!(wire_status(0x1_0000 + 404), 404);
    assert_eq!(wire_status(-0x1_0000 + 418), 418);
    assert_eq!(wire_status(-1), 403);
}

// Whole checks.

#[test]
fn check_with_http_protocol_returns_internal_server_error() {
    let ea = McpExtAuthz(ExtAuthz { protocol: http_protocol(), ..Default::default() });
    let snapshot = make_test_snapshot();
    let result = ea.check(unreachable_service, &snapshot, None, collect, eval, process);
    assert!(result.is_err(), "HTTP protocol should be rejected");
    let denied = result.unwrap_err();
    assert_eq!(denied.status_code, StatusCode::INTERNAL_SERVER_ERROR.as_u16());
    assert!(
        denied.body.contains("only supports gRPC"),
        "error should mention gRPC requirement, got: {}",
        denied.body
    );
    assert!(denied.response_headers.is_empty());
}

#[test]
fn check_with_unreachable_server_respects_failure_mode_allow() {
    let ea = McpExtAuthz(ExtAuthz { failure_mode: FailureMode::Allow, ..Default::default() });
    let snapshot = make_test_snapshot();
    let result = ea.check(unreachable_service, &snapshot, None, collect, eval, process);
    assert!(
        result.is_ok(),
        "FailureMode::Allow should let request through on transport failure, got: {:?}",
        result.unwrap_err()
    );
}

#[test]
fn check_with_unreachable_server_respects_failure_mode_deny() {
    let ea = McpExtAuthz(ExtAuthz { failure_mode: FailureMode::Deny, ..Default::default() });
    let snapshot = make_test_snapshot();
    let result = ea.check(unreachable_service, &snapshot, None, collect, eval, process);
    assert!(result.is_err(), "FailureMode::Deny should reject on transport failure");
    let denied = result.unwrap_err();
    assert_eq!(denied.status_code, StatusCode::FORBIDDEN.as_u16());
}

#[test]
fn check_with_http_protocol_sends_nothing() {
    let ea = McpExtAuthz(make_http_ext_authz());
    let snapshot = make_test_snapshot();
    let mut sent = false;
    let send = |_: CheckRequest| -> Result<CheckResponse<Named>, String> {
        sent = true;
        Ok(answer(None))
    };
    assert!(ea.check(send, &snapshot, None, collect, eval, process).is_err());
    assert!(!sent);
}

#[test]
fn check_with_http_protocol_is_refused_under_any_failure_mode() {
    let snapshot = make_test_snapshot();
    let allow = |_: CheckRequest| -> Result<CheckResponse<Named>, String> { Ok(answer(None)) };
    for mode in [FailureMode::Allow, FailureMode::Deny, FailureMode::DenyWithStatus(503)] {
        let ea = McpExtAuthz(ExtAuthz { failure_mode: mode, ..make_http_ext_authz() });
        let denied = ea.check(allow, &snapshot, None, collect, eval, process).unwrap_err();
        assert_eq!(denied.status_code, 500);
    }
}

#[test]
fn allowing_service_has_every_request_let_through() {
    let snapshot = make_test_snapshot();
    let allow = |_: CheckRequest| -> Result<CheckResponse<Named>, String> { Ok(answer(Some(0))) };
    for mode in [FailureMode::Allow, FailureMode::Deny, FailureMode::DenyWithStatus(503)] {
        let ea = McpExtAuthz(ExtAuthz { failure_mode: mode, ..Default::default() });
        assert!(ea.check(allow, &snapshot, None, collect, eval, process).is_ok());
    }
}

#[test]
fn refusing_service_has_every_request_refused() {
    let snapshot = make_test_snapshot();
    let refuse =
        |_: CheckRequest| -> Result<CheckResponse<Named>, String> { Ok(answer(Some(7))) };
    for mode in [FailureMode::Allow, FailureMode::Deny, FailureMode::DenyWithStatus(503)] {
        let ea = McpExtAuthz(ExtAuthz { failure_mode: mode, ..Default::default() });
        let denied = ea.check(refuse, &snapshot, None, collect, eval, process).unwrap_err();
        assert_eq!(denied.status_code, 403);
        assert_eq!(denied.body, "external authorization denied");
    }
}

// What is asked.

fn full_snapshot() -> RequestSnapshot {
    let mut headers = HeaderMap::new();
    headers.insert("authorization", HeaderValue::from_static("Bearer my-key"));
    headers.append("accept", HeaderValue::from_static("application/json"));
    headers.append("accept", HeaderValue::from_static("text/event-stream"));
    headers.insert("x-agent-name", HeaderValue::from_static("agent-one"));
    RequestSnapshot {
        method: "POST".to_string(),
        path: RequestTarget {
            path_and_query: Some("/mcp?session=1".to_string()),
            path: "/mcp".to_string(),
        },
        host: Some("gateway.example.com".to_string()),
        scheme: Some("https".to_string()),
        headers,
        body: Some(BufferedBody(Bytes::from("hello world"))),
        jwt: Some(Claims {
            inner: vec![Field {
                key: "sub".to_string(),
                value: Json::Text("user@example.com".to_string()),
            }],
        }),
        extauthz: None,
    }
}

#[test]
fn request_describes_the_snapshot() {
    let ea = McpExtAuthz(make_grpc_ext_authz());
    let time = Timestamp { seconds: 1_700_000_000, nanos: 5 };
    let request =
        ea.check_request_at(time, &full_snapshot(), None, collect, eval).unwrap();
    assert_eq!(request.time, time);
    let http = &request.http;
    assert_eq!(http.id, "");
    assert_eq!(http.method, "POST");
    assert_eq!(http.path, "/mcp?session=1");
    assert_eq!(http.host, "gateway.example.com");
    assert_eq!(http.scheme, "https");
    assert_eq!(http.protocol, "HTTP/1.1");
    assert_eq!(http.query, "");
    assert_eq!(http.fragment, "");
    assert_eq!(http.body, "hello world");
    assert!(http.raw_body.is_empty());
    assert_eq!(http.size, 11);
    assert_eq!(http.headers.get("authorization"), Some(&"Bearer my-key".to_string()));
    assert_eq!(http.headers.entries().len(), 1, "the other listed header is not in the request");
    assert_eq!(request.context_extensions.get("x-source"), Some(&"test".to_string()));
    let metadata = request.metadata_context.unwrap();
    assert!(metadata.filter_metadata.is_empty(), "a text is no Struct");
}

#[test]
fn request_fills_in_what_the_snapshot_lacks() {
    let ea = McpExtAuthz(ExtAuthz::default());
    let mut snapshot = make_test_snapshot();
    snapshot.path = RequestTarget { path_and_query: None, path: "".to_string() };
    let request = ea.check_request(&snapshot, None, collect, eval).unwrap();
    assert!(0 <= request.time.nanos && request.time.nanos < 1_000_000_000);
    assert!(request.time.seconds > 1_600_000_000);
    assert_eq!(request.http.path, "");
    assert_eq!(request.http.host, "");
    assert_eq!(request.http.scheme, "http");
    assert_eq!(request.http.size, 0);
    assert!(request.http.headers.is_empty());
    assert!(request.metadata_context.is_none());
    assert!(request.context_extensions.is_empty());
}

#[test]
fn all_headers_are_shown_where_none_is_listed() {
    let ea = McpExtAuthz(ExtAuthz::default());
    let request = ea.check_request(&full_snapshot(), None, collect, eval).unwrap();
    let headers = &request.http.headers;
    assert_eq!(headers.entries().len(), 3);
    assert_eq!(
        headers.get("accept"),
        Some(&"application/json,text/event-stream".to_string())
    );
    assert_eq!(headers.get("x-agent-name"), Some(&"agent-one".to_string()));
}

#[test]
fn pseudo_headers_alone_show_nothing() {
    let ea = McpExtAuthz(ExtAuthz {
        include_request_headers: vec![HeaderOrPseudo::Pseudo(":path".to_string())],
        ..Default::default()
    });
    let request = ea.check_request(&full_snapshot(), None, collect, eval).unwrap();
    assert!(request.http.headers.is_empty());
}

#[test]
fn only_listed_headers_are_shown() {
    let ea = McpExtAuthz(ExtAuthz {
        include_request_headers: vec![
            HeaderOrPseudo::Pseudo(":method".to_string()),
            HeaderOrPseudo::Header("x-agent-name".to_string()),
        ],
        ..Default::default()
    });
    let request = ea.check_request(&full_snapshot(), None, collect, eval).unwrap();
    assert_eq!(request.http.headers.entries().len(), 1);
    assert!(request.http.headers.contains_key("x-agent-name"));
}

#[test]
fn expression_metadata_replaces_the_standard_one() {
    let mut metadata = Table::new();
    metadata.insert("env".to_string(), Expression::new("'production'"));
    metadata.insert("request".to_string(), Expression::new("method"));
    metadata.insert("broken".to_string(), Expression::new("no such thing"));
    metadata.insert("raw".to_string(), Expression::new("bytes"));
    metadata.insert("asked".to_string(), Expression::new("mcp"));
    let ea = McpExtAuthz(ExtAuthz {
        protocol: Protocol::Grpc { context: None, metadata: Some(metadata) },
        ..Default::default()
    });
    let resource =
        ResourceType::Tool(ResourceId::new("server".to_string(), "echo".to_string()));
    let request =
        ea.check_request(&full_snapshot(), Some(&resource), collect, eval).unwrap();
    let sent = request.metadata_context.unwrap().filter_metadata;
    assert_eq!(sent.entries().len(), 2);
    assert_eq!(sent.get("request").unwrap().fields[0].value, Json::Text("POST".to_string()));
    assert_eq!(sent.get("asked").unwrap().fields[0].key, "tool");
    assert!(!sent.contains_key("envoy.filters.http.jwt_authn"));
}

// What follows from the answer.

#[test]
fn code_zero_or_none_lets_the_request_through() {
    assert!(conclude(FailureMode::Deny, Ok(answer(None))).is_ok());
    let ok = conclude(FailureMode::Deny, Ok(answer(Some(0)))).unwrap();
    assert!(ok.request_headers_to_add.is_empty());
    assert!(ok.request_headers_to_remove.is_empty());
    assert!(ok.response_headers_to_add.is_empty());
    assert!(ok.dynamic_metadata.is_none());
}

#[test]
fn other_codes_refuse_even_with_failure_mode_allow() {
    for code in [1, 7, 16, -1, i32::MIN, i32::MAX] {
        let denied = conclude(FailureMode::Allow, Ok(answer(Some(code)))).unwrap_err();
        assert_eq!(denied.status_code, 403);
        assert_eq!(denied.body, "external authorization denied");
        assert!(denied.response_headers.is_empty());
    }
}

#[test]
fn refusal_is_in_the_words_of_the_service() {
    let reply = CheckResponse {
        status: Some(16),
        dynamic_metadata: None,
        http_response: Some(HttpResponse::DeniedResponse(DeniedHttpResponse {
            status: Some(401),
            headers: vec![named("www-authenticate", "Bearer"), named("x-a", "1"), named("x-a", "2")],
            body: "who are you".to_string(),
        })),
    };
    let denied = conclude(FailureMode::Allow, Ok(reply)).unwrap_err();
    assert_eq!(denied.status_code, 401);
    assert_eq!(denied.body, "who are you");
    assert_eq!(denied.response_headers.get("www-authenticate").unwrap(), "Bearer");
    assert_eq!(denied.response_headers.get_all("x-a").iter().count(), 2);
}

#[test]
fn refusal_without_a_usable_status_is_forbidden() {
    for status in [None, Some(0), Some(99), Some(1000), Some(-1)] {
        let reply = CheckResponse {
            status: Some(7),
            dynamic_metadata: None,
            http_response: Some(HttpResponse::DeniedResponse(DeniedHttpResponse {
                status,
                headers: vec![],
                body: "no".to_string(),
            })),
        };
        let denied = conclude(FailureMode::Deny, Ok(reply)).unwrap_err();
        assert_eq!(denied.status_code, 403);
        assert_eq!(denied.body, "no");
        assert!(denied.response_headers.is_empty());
    }
}

#[test]
fn refusal_ignores_words_meant_for_a_pass() {
    let reply = CheckResponse {
        status: Some(7),
        dynamic_metadata: None,
        http_response: Some(HttpResponse::OkResponse(OkHttpResponse {
            headers: vec![named("x-user", "admin")],
            headers_to_remove: vec![],
            response_headers_to_add: vec![],
        })),
    };
    let denied = conclude(FailureMode::Deny, Ok(reply)).unwrap_err();
    assert_eq!(denied.status_code, 403);
    assert_eq!(denied.body, "external authorization denied");
    assert!(denied.response_headers.is_empty());
}

#[test]
fn pass_carries_the_wanted_changes() {
    let reply = CheckResponse {
        status: Some(0),
        dynamic_metadata: Some(vec![
            DynamicField {
                key: "role".to_string(),
                value: Some(Json::Text("admin".to_string())),
            },
            DynamicField { key: "unreadable".to_string(), value: None },
        ]),
        http_response: Some(HttpResponse::OkResponse(OkHttpResponse {
            headers: vec![named("x-user", "admin")],
            headers_to_remove: vec!["authorization".to_string()],
            response_headers_to_add: vec![named("x-audit", "yes")],
        })),
    };
    let ok = conclude(FailureMode::Deny, Ok(reply)).unwrap();
    assert_eq!(ok.request_headers_to_add.get("x-user").unwrap(), "admin");
    assert_eq!(ok.request_headers_to_remove, vec!["authorization".to_string()]);
    assert_eq!(ok.response_headers_to_add.get("x-audit").unwrap(), "yes");
    let metadata = ok.dynamic_metadata.unwrap().0;
    assert_eq!(metadata.entries().len(), 1);
    assert_eq!(metadata.get("role"), Some(&Json::Text("admin".to_string())));
}

#[test]
fn pass_without_readable_metadata_carries_none() {
    for fields in [vec![], vec![DynamicField { key: "k".to_string(), value: None }]] {
        let reply: CheckResponse<Named> = CheckResponse {
            status: None,
            dynamic_metadata: Some(fields),
            http_response: None,
        };
        assert!(conclude(FailureMode::Deny, Ok(reply)).unwrap().dynamic_metadata.is_none());
    }
}

#[test]
fn pass_ignores_words_meant_for_a_refusal() {
    let reply = CheckResponse {
        status: None,
        dynamic_metadata: None,
        http_response: Some(HttpResponse::DeniedResponse(DeniedHttpResponse {
            status: Some(401),
            headers: vec![named("x-a", "1")],
            body: "no".to_string(),
        })),
    };
    let ok = conclude(FailureMode::Deny, Ok(reply)).unwrap();
    assert!(ok.response_headers_to_add.is_empty());
    assert!(ok.request_headers_to_add.is_empty());
}
