use agent_engine::completion::{
    AIProtocol, AIProviderConfig, CompletionError, HttpPost, HttpResponse, fetch_ai_completion,
    interpret_http_outcome,
};
use agent_engine::json_out::build_request_body;
use agent_engine::messages::{Message, Role};

struct ScriptedTransport {
    responses: Vec<Result<HttpResponse, String>>,
    requests: Vec<(String, String, String)>,
}

impl ScriptedTransport {
    fn new(mut responses: Vec<Result<HttpResponse, String>>) -> Self {
        responses.reverse();
        ScriptedTransport { responses, requests: Vec::new() }
    }
}

impl HttpPost for ScriptedTransport {
    fn post_json(&mut self, url: &str, bearer: &str, body: &str) -> Result<HttpResponse, String> {
        self.requests.push((url.to_string(), bearer.to_string(), body.to_string()));
        self.responses.pop().expect("unscripted transport call")
    }
}

fn ok(status: u16, body: &str) -> Result<HttpResponse, String> {
    Ok(HttpResponse { status, body: body.to_string() })
}

fn config(protocol: AIProtocol, models: Vec<&str>) -> AIProviderConfig {
    AIProviderConfig {
        protocol,
        base_url: "https://provider.example/v1/chat".to_string(),
        api_key: "SECRET-REDACTED".to_string(),
        models: models.into_iter().map(|m| m.to_string()).collect(),
    }
}

fn user(text: &str) -> Message {
    Message { role: Role::User, content: text.to_string(), tool_calls: None, tool_call_id: None }
}

#[test]
fn unsupported_protocol_is_configuration_failure_without_a_call() {
    let mut t = ScriptedTransport::new(vec![]);
    let r = fetch_ai_completion(&mut t, &config(AIProtocol::Anthropic, vec!["m"]), vec![user("hi")], None);
    match r {
        Err(CompletionError::Configuration(m)) => {
            assert_eq!(m, "Agent System currently only supports OpenAI/DeepSeek protocols")
        }
        other => panic!("expected a configuration failure, got {:?}", other),
    }
    assert_eq!(t.requests.len(), 0);
}

#[test]
fn empty_model_list_is_configuration_failure() {
    let mut t = ScriptedTransport::new(vec![]);
    let r = fetch_ai_completion(&mut t, &config(AIProtocol::OpenAI, vec![]), vec![user("hi")], None);
    assert!(matches!(r, Err(CompletionError::Configuration(_))));
    assert_eq!(t.requests.len(), 0);
}

#[test]
fn transport_failure_is_classified_with_its_text() {
    let mut t = ScriptedTransport::new(vec![Err("connection refused".to_string())]);
    let r = fetch_ai_completion(&mut t, &config(AIProtocol::OpenAI, vec!["m"]), vec![user("hi")], None);
    match r {
        Err(CompletionError::Transport(e)) => assert_eq!(e, "connection refused"),
        other => panic!("expected a transport failure, got {:?}", other),
    }
}

#[test]
fn api_failure_carries_status_and_body_in_its_message() {
    let r = interpret_http_outcome(ok(429, "slow down"));
    match r {
        Err(e @ CompletionError::Api { .. }) => {
            assert_eq!(e.message(), "AI API Error (429): slow down")
        }
        other => panic!("expected an api failure, got {:?}", other),
    }
}

#[test]
fn malformed_body_and_missing_message_are_distinct() {
    assert!(matches!(interpret_http_outcome(ok(200, "{oops")), Err(CompletionError::Malformed(_))));
    let r = interpret_http_outcome(ok(200, "{\"choices\":[]}"));
    match r {
        Err(e @ CompletionError::MissingMessage) => {
            assert_eq!(e.message(), "Malformed AI response: message field missing")
        }
        other => panic!("expected a missing-message failure, got {:?}", other),
    }
}

#[test]
fn normalizes_text_message() {
    let body = "{\"choices\":[{\"message\":{\"role\":\"assistant\",\"content\":\"hello there\"}}]}";
    let m = interpret_http_outcome(ok(200, body)).unwrap();
    assert_eq!(m.role, Role::Assistant);
    assert_eq!(m.content, "hello there");
    assert!(m.tool_calls.is_none());
    assert!(m.tool_call_id.is_none());
}

#[test]
fn normalizes_tool_calls_with_defaults() {
    let body = "{\"choices\":[{\"message\":{\"role\":\"assistant\",\"content\":null,\"tool_calls\":[{\"id\":\"c1\",\"function\":{\"name\":\"agent_list_dir\",\"arguments\":\"{}\"}},{\"function\":{\"name\":\"agent_read_file\"}}]}}]}";
    let m = interpret_http_outcome(ok(200, body)).unwrap();
    assert_eq!(m.content, "");
    let calls = m.tool_calls.unwrap();
    assert_eq!(calls.len(), 2);
    assert_eq!(calls[0].id, "c1");
    assert_eq!(calls[0].function.name, "agent_list_dir");
    assert_eq!(calls[0].function.arguments, "{}");
    assert_eq!(calls[1].id, "");
    assert_eq!(calls[1].function.arguments, "{}");
}

#[test]
fn request_body_shape_and_escaping() {
    let messages = vec![
        Message {
            role: Role::System,
            content: "line1\nline2 \"quoted\" back\\slash".to_string(),
            tool_calls: None,
            tool_call_id: None,
        },
        user("hi"),
    ];
    let body = build_request_body("deepseek-chat", &messages, false, None);
    let v: serde_json::Value = serde_json::from_str(&body).expect("body must be valid JSON");
    assert_eq!(v["model"], "deepseek-chat");
    assert_eq!(v["stream"], false);
    assert_eq!(v["messages"][0]["role"], "system");
    assert_eq!(v["messages"][0]["content"], "line1\nline2 \"quoted\" back\\slash");
    assert_eq!(v["messages"][1]["role"], "user");
    assert!(v.get("tools").is_none());
}

#[test]
fn request_body_exact_text() {
    let messages = vec![user("hi")];
    let body = build_request_body("m1", &messages, false, Some("[{\"type\":\"function\"}]"));
    assert_eq!(
        body,
        "{\"model\":\"m1\",\"messages\":[{\"role\":\"user\",\"content\":\"hi\"}],\"stream\":false,\"tools\":[{\"type\":\"function\"}]}"
    );
}

#[test]
fn sanitizes_history_before_sending() {
    // An assistant message with an unanswered tool call must lose its
    // tool-calls annotation in the request that goes over the wire.
    let mut t = ScriptedTransport::new(vec![ok(
        200,
        "{\"choices\":[{\"message\":{\"role\":\"assistant\",\"content\":\"done\"}}]}",
    )]);
    let history = vec![
        user("task"),
        Message {
            role: Role::Assistant,
            content: String::new(),
            tool_calls: Some(vec![agent_engine::messages::ToolCall {
                id: "orphan".to_string(),
                function: agent_engine::messages::FunctionCall {
                    name: "agent_list_dir".to_string(),
                    arguments: "{}".to_string(),
                },
            }]),
            tool_call_id: None,
        },
    ];
    let r = fetch_ai_completion(&mut t, &config(AIProtocol::OpenAI, vec!["m"]), history, None);
    assert!(r.is_ok());
    let sent = &t.requests[0].2;
    assert!(!sent.contains("tool_calls"));
    assert!(!sent.contains("orphan"));
}
