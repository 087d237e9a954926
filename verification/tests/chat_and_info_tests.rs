use agent_engine::chat::{StreamStep, complete_code, interpret_chat_outcome, interpret_stream_event};
use agent_engine::completion::{HttpPost, HttpResponse};
use agent_engine::info::{Chunk, MatchResult, build_context, detect_gpu_info, is_on_battery, keyword_chunks};
use agent_engine::messages::{Message, Role};

struct OneShot {
    response: Option<Result<HttpResponse, String>>,
    seen_url: Option<String>,
}

impl HttpPost for OneShot {
    fn post_json(&mut self, url: &str, _bearer: &str, _body: &str) -> Result<HttpResponse, String> {
        self.seen_url = Some(url.to_string());
        self.response.take().expect("one call only")
    }
}

fn user(text: &str) -> Message {
    Message { role: Role::User, content: text.to_string(), tool_calls: None, tool_call_id: None }
}

#[test]
fn complete_code_returns_first_choice_text() {
    let mut t = OneShot {
        response: Some(Ok(HttpResponse {
            status: 200,
            body: "{\"choices\":[{\"message\":{\"role\":\"assistant\",\"content\":\"let x = 1;\"}}]}"
                .to_string(),
        })),
        seen_url: None,
    };
    let r = complete_code(&mut t, "SECRET-REDACTED".to_string(), vec![user("complete this")]);
    assert_eq!(r.unwrap(), "let x = 1;");
    assert_eq!(t.seen_url.as_deref(), Some("https://api.deepseek.com/chat/completions"));
}

#[test]
fn chat_outcome_classification() {
    let err = interpret_chat_outcome(Ok(HttpResponse { status: 500, body: "boom".to_string() }))
        .unwrap_err();
    assert_eq!(err, "API Error: 500 - boom");
    let err = interpret_chat_outcome(Ok(HttpResponse {
        status: 200,
        body: "{\"choices\":[]}".to_string(),
    }))
    .unwrap_err();
    assert_eq!(err, "No choices returned");
    let err =
        interpret_chat_outcome(Err("timed out".to_string())).unwrap_err();
    assert_eq!(err, "timed out");
    assert!(interpret_chat_outcome(Ok(HttpResponse { status: 200, body: "{bad".to_string() }))
        .is_err());
}

#[test]
fn stream_events_are_interpreted() {
    assert!(matches!(interpret_stream_event("[DONE]"), StreamStep::Done));
    let chunk = interpret_stream_event(
        "{\"choices\":[{\"delta\":{\"content\":\"par\"},\"finish_reason\":null}]}",
    );
    match chunk {
        StreamStep::Content(c) => assert_eq!(c, "par"),
        other => panic!("expected content, got {:?}", other),
    }
    assert!(matches!(interpret_stream_event("{\"choices\":[{\"delta\":{}}]}"), StreamStep::Skip));
    assert!(matches!(interpret_stream_event("not json"), StreamStep::Skip));
}

#[test]
fn context_block_exact_text() {
    let chunks = vec![
        Chunk {
            id: "a.rs::0".to_string(),
            path: "a.rs".to_string(),
            content: "  fn main() {}\n".to_string(),
        },
        Chunk {
            id: "b.md::1".to_string(),
            path: "b.md".to_string(),
            content: "notes".to_string(),
        },
    ];
    let xml = build_context(&chunks);
    assert_eq!(
        xml,
        "<context>\n  <file path=\"a.rs\">\n    fn main() {}\n  </file>\n  <file path=\"b.md\">\n    notes\n  </file>\n</context>"
    );
}

#[test]
fn context_block_caps_at_ten_chunks() {
    let chunks: Vec<Chunk> = (0..13)
        .map(|i| Chunk {
            id: format!("f{}", i),
            path: format!("f{}", i),
            content: "x".to_string(),
        })
        .collect();
    let xml = build_context(&chunks);
    assert_eq!(xml.matches("<file").count(), 10);
    assert!(xml.contains("f9"));
    assert!(!xml.contains("\"f10\""));
}

#[test]
fn keyword_hits_become_chunks() {
    let hits: Vec<MatchResult> = (0..7)
        .map(|i| MatchResult {
            path: "src/lib.rs".to_string(),
            line_number: 40 + i,
            content: format!("line {}", i),
        })
        .collect();
    let chunks = keyword_chunks(&hits);
    assert_eq!(chunks.len(), 5);
    assert_eq!(chunks[0].id, "src/lib.rs::L40");
    assert_eq!(chunks[4].id, "src/lib.rs::L44");
    assert_eq!(chunks[2].content, "line 2");
}

#[test]
fn host_capability_stubs() {
    let gpu = detect_gpu_info().unwrap();
    assert_eq!(gpu.name, "Unknown GPU");
    assert_eq!(gpu.vendor, "Unknown");
    assert_eq!(gpu.memory_total, None);
    assert_eq!(is_on_battery().unwrap(), false);
}
