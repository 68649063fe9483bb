//! Checking tool arguments against JSON Schemas.

use oh_my_agentloop::validate::{inspect, refuse, show_path, validate_tool_arguments, SchemaFindings};
use oh_my_agentloop::{AgentTool, HookId};
use serde_json::Value;

fn json(text: &str) -> Value {
    serde_json::from_str(text).expect("json")
}

fn tool(parameters: &str) -> AgentTool {
    AgentTool {
        handle: HookId { id: 1 },
        name: "nope".into(),
        label: "nope".into(),
        description: "no".into(),
        parameters: json(parameters),
    }
}

fn rejecting_tool() -> AgentTool {
    tool(
        r#"{"type":"object","properties":{"x":{"type":"integer"}},"required":["x"],
            "additionalProperties":false}"#,
    )
}

#[test]
fn validate_tool_arguments_accepts_valid() {
    let ok = validate_tool_arguments(&rejecting_tool(), &json(r#"{"x":42}"#));
    assert_eq!(ok.unwrap(), json(r#"{"x":42}"#));
}

#[test]
fn validate_tool_arguments_rejects_missing_required_field() {
    let err = validate_tool_arguments(&rejecting_tool(), &json("{}")).unwrap_err();
    assert!(
        err.contains("Validation failed for tool \"nope\"") && err.contains("required property"),
        "unexpected error: {err}"
    );
    assert_eq!(
        err,
        "Validation failed for tool \"nope\":\n  - root: \"x\" is a required property\n\nReceived arguments:\n{}"
    );
}

#[test]
fn nested_errors_show_their_path() {
    let schema = r#"{"type":"object","properties":{"a":{"type":"object","properties":{"b":{"type":"string"}}}}}"#;
    let err = validate_tool_arguments(&tool(schema), &json(r#"{"a":{"b":1}}"#)).unwrap_err();
    assert!(err.contains("\n  - a/b: 1 is not of type \"string\"\n"), "{err}");
    assert!(
        err.ends_with("Received arguments:\n{\n  \"a\": {\n    \"b\": 1\n  }\n}"),
        "{err}"
    );
}

#[test]
fn invalid_schema_is_reported() {
    let err = validate_tool_arguments(&tool(r#"{"type":"nonsense"}"#), &json("{}")).unwrap_err();
    assert!(err.starts_with("Invalid JSON Schema for tool \"nope\": "), "{err}");
    assert!(matches!(
        inspect(&json(r#"{"type":"nonsense"}"#), &json("{}")),
        SchemaFindings::InvalidSchema(_)
    ));
}

#[test]
fn complaint_tells_of_one_of_the_references_that_do_not_resolve() {
    let schema = r#"{"properties":{"a":{"$ref":"https://a.example/x"},"b":{"$ref":"https://b.example/y"}}}"#;
    let err = validate_tool_arguments(&tool(schema), &json("{}")).unwrap_err();
    assert!(err.starts_with("Invalid JSON Schema for tool \"nope\": "), "{err}");
    assert!(err.contains("https://a.example/x") || err.contains("https://b.example/y"), "{err}");
}

#[test]
fn refusals_are_built_from_findings() {
    assert_eq!(refuse("t", &SchemaFindings::Accepted), None);
    assert_eq!(
        refuse("t", &SchemaFindings::InvalidSchema("why".into())).as_deref(),
        Some("Invalid JSON Schema for tool \"t\": why")
    );
    assert_eq!(
        refuse("t", &SchemaFindings::Rejected { errors: vec![], received: "1".into() }).as_deref(),
        Some("Validation failed for tool \"t\":\nUnknown validation error\n\nReceived arguments:\n1")
    );
    let errors = vec![
        ("/a".to_string(), "first".to_string()),
        (String::new(), "second".to_string()),
    ];
    assert_eq!(
        refuse("t", &SchemaFindings::Rejected { errors, received: "{}".into() }).as_deref(),
        Some("Validation failed for tool \"t\":\n  - a: first\n  - root: second\n\nReceived arguments:\n{}")
    );
}

#[test]
fn paths_lose_one_leading_slash() {
    assert_eq!(show_path(""), "root");
    assert_eq!(show_path("/"), "root");
    assert_eq!(show_path("/a/0"), "a/0");
    assert_eq!(show_path("a"), "a");
    assert_eq!(show_path("//a"), "/a");
}
