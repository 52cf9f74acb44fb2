//! The counter server, and tables and texts.

use http::HeaderMap;
use http::HeaderValue;
use mcp_ext_authz::answer::RESOURCE_NOT_FOUND;
use mcp_ext_authz::counter::CallToolResult;
use mcp_ext_authz::counter::Counter;
use mcp_ext_authz::counter::CounterAnalysisArgs;
use mcp_ext_authz::counter::ExamplePromptArgs;
use mcp_ext_authz::counter::PromptMessageRole;
use mcp_ext_authz::counter::StructRequest;
use mcp_ext_authz::json::Field;
use mcp_ext_authz::json::Json;
use mcp_ext_authz::table::Table;
use mcp_ext_authz::text::decimal_text;
use serde_json::Value;

fn says(text: &str) -> CallToolResult {
    CallToolResult { content: vec![text.to_string()] }
}

#[test]
fn counter_counts_up_and_down() {
    let mut server = Counter::new();
    assert_eq!(server.get_value(), says("0"));
    assert_eq!(server.increment(), says("1"));
    assert_eq!(server.increment(), says("2"));
    assert_eq!(server.decrement(), says("1"));
    assert_eq!(server.decrement(), says("0"));
    assert_eq!(server.decrement(), says("-1"));
    assert_eq!(server.get_value(), says("-1"));
}

#[test]
fn echo_gives_back_compact_json() {
    let server = Counter::new();
    let mut object = serde_json::Map::new();
    object.insert("hi".to_string(), Value::String("world".to_string()));
    assert_eq!(server.echo(object), says(r#"{"hi":"world"}"#));
    assert_eq!(server.echo(serde_json::Map::new()), says("{}"));
}

#[test]
fn sum_and_hello() {
    let server = Counter::new();
    assert_eq!(server.sum(StructRequest { a: 2, b: -5 }), says("-3"));
    assert_eq!(server.sum(StructRequest { a: i32::MAX, b: 0 }), says("2147483647"));
    assert_eq!(server.say_hello(), says("hello"));
}

#[test]
fn echo_http_tells_the_authorization_header() {
    let server = Counter::new();
    let mut headers = HeaderMap::new();
    assert_eq!(server.echo_http(&headers), says(""));
    headers.append("authorization", HeaderValue::from_static("Bearer my-key"));
    headers.append("authorization", HeaderValue::from_static("Basic other"));
    assert_eq!(server.echo_http(&headers), says("Bearer my-key"));
    headers.insert("authorization", HeaderValue::from_bytes(b"a\xff").unwrap());
    assert_eq!(server.echo_http(&headers), says("a\u{fffd}"));
}

#[test]
fn example_prompt_repeats_the_message() {
    let server = Counter::new();
    let messages = server.example_prompt(ExamplePromptArgs { message: "hey".to_string() });
    assert_eq!(messages.len(), 1);
    assert_eq!(messages[0].role, PromptMessageRole::User);
    assert_eq!(messages[0].text, "This is an example prompt with your message here: 'hey'");
}

#[test]
fn counter_analysis_tells_the_difference() {
    let mut server = Counter::new();
    server.increment();
    server.increment();
    let result = server.counter_analysis(CounterAnalysisArgs { goal: -10, strategy: None });
    assert_eq!(result.description, Some("Counter analysis for reaching -10 from 2".to_string()));
    assert_eq!(result.messages.len(), 2);
    assert_eq!(result.messages[0].role, PromptMessageRole::Assistant);
    assert_eq!(
        result.messages[0].text,
        "I'll analyze the counter situation and suggest the best approach."
    );
    assert_eq!(result.messages[1].role, PromptMessageRole::User);
    assert_eq!(
        result.messages[1].text,
        "Current counter value: 2\nGoal value: -10\nDifference: -12\nStrategy preference: careful\n\nPlease analyze the situation and suggest the best approach to reach the goal."
    );
    let fast = server.counter_analysis(CounterAnalysisArgs {
        goal: 3,
        strategy: Some("fast".to_string()),
    });
    assert!(fast.messages[1].text.contains("Difference: 1\nStrategy preference: fast\n"));
}

#[test]
fn server_tells_what_it_can_do() {
    let server = Counter::new();
    let info = server.get_info();
    assert_eq!(info.protocol_version, "2025-06-18");
    assert!(info.prompts && info.resources && info.tools);
    assert_eq!(
        info.instructions,
        Some("This server provides counter tools and prompts.".to_string())
    );
    assert_eq!(server.initialize(), info);
    assert!(server.list_resource_templates().is_empty());
}

#[test]
fn offered_resources_can_be_read() {
    let server = Counter::new();
    let resources = server.list_resources();
    assert_eq!(resources.len(), 2);
    assert_eq!(resources[0].name, "cwd");
    assert_eq!(resources[1].name, "memo-name");
    for resource in &resources {
        assert_eq!(server.read_resource(resource.uri.clone()).unwrap().uri, resource.uri);
    }
    assert_eq!(
        server.read_resource("str:////Users/to/some/path/".to_string()).unwrap().text,
        "/Users/to/some/path/"
    );
    assert_eq!(
        server.read_resource("memo://insights".to_string()).unwrap().text,
        "Business Intelligence Memo\n\nAnalysis has revealed 5 key insights ..."
    );
}

#[test]
fn other_resources_cannot_be_read() {
    let error = Counter::new().read_resource("memo://other".to_string()).unwrap_err();
    assert_eq!(error.code, RESOURCE_NOT_FOUND);
    assert_eq!(error.code, rmcp::model::ErrorCode::RESOURCE_NOT_FOUND.0);
    assert_eq!(error.message, "resource_not_found");
    assert_eq!(
        error.data,
        Some(Json::Object(vec![Field {
            key: "uri".to_string(),
            value: Json::Text("memo://other".to_string()),
        }]))
    );
}

#[test]
fn table_keeps_one_value_for_each_name() {
    let mut table = Table::new();
    assert!(table.is_empty());
    table.insert("a".to_string(), "1".to_string());
    table.insert("b".to_string(), "2".to_string());
    table.insert("a".to_string(), "3".to_string());
    assert!(!table.is_empty());
    assert_eq!(table.get("a"), Some(&"3".to_string()));
    assert_eq!(table.get("b"), Some(&"2".to_string()));
    assert_eq!(table.get("c"), None);
    assert!(table.contains_key("b") && !table.contains_key(""));
    assert_eq!(
        table.entries(),
        &vec![("a".to_string(), "3".to_string()), ("b".to_string(), "2".to_string())]
    );
    assert_eq!(table.duplicate().entries(), table.entries());
}

#[test]
fn numbers_in_decimal_notation() {
    assert_eq!(decimal_text(0), "0");
    assert_eq!(decimal_text(7), "7");
    assert_eq!(decimal_text(-32603), "-32603");
    assert_eq!(decimal_text(1_020_300), "1020300");
    assert_eq!(decimal_text(i64::MAX), i64::MAX.to_string());
    assert_eq!(decimal_text(i64::MIN), i64::MIN.to_string());
}

#[test]
fn increment_and_decrement_undo_each_other() {
    let mut server = Counter::new();
    server.decrement();
    assert_eq!(server.value(), -1);
    server.increment();
    assert_eq!(server.value(), 0);
}
