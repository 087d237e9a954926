use agent_engine::completion::{AIProtocol, AIProviderConfig, HttpPost, HttpResponse};
use agent_engine::messages::Role;
use agent_engine::runner::{AgentContext, EventSink, run_agent_task, system_content_with_tools};
use agent_engine::supervisor::{AgentStatus, Supervisor};
use agent_engine::tools::FsCollaborator;

struct ScriptedTransport {
    responses: Vec<Result<HttpResponse, String>>,
    calls: usize,
}

impl ScriptedTransport {
    fn new(mut responses: Vec<Result<HttpResponse, String>>) -> Self {
        responses.reverse();
        ScriptedTransport { responses, calls: 0 }
    }
}

impl HttpPost for ScriptedTransport {
    fn post_json(&mut self, _url: &str, _bearer: &str, _body: &str) -> Result<HttpResponse, String> {
        self.calls += 1;
        match self.responses.pop() {
            Some(r) => r,
            None => Ok(HttpResponse {
                status: 200,
                body: "{\"choices\":[{\"message\":{\"role\":\"assistant\",\"content\":\"done\"}}]}"
                    .to_string(),
            }),
        }
    }
}

struct AlwaysToolCalls {
    calls: usize,
}

impl HttpPost for AlwaysToolCalls {
    fn post_json(&mut self, _url: &str, _bearer: &str, _body: &str) -> Result<HttpResponse, String> {
        self.calls += 1;
        Ok(HttpResponse {
            status: 200,
            body: "{\"choices\":[{\"message\":{\"role\":\"assistant\",\"content\":\"\",\"tool_calls\":[{\"id\":\"c\",\"function\":{\"name\":\"agent_list_dir\",\"arguments\":\"{}\"}}]}}]}"
            .to_string(),
        })
    }
}

struct CountingFs {
    executions: usize,
}

impl FsCollaborator for CountingFs {
    fn list_dir(&mut self, _root: &str, _rel_path: &str) -> Result<Vec<String>, String> {
        self.executions += 1;
        Ok(vec!["src".to_string(), "README.md".to_string()])
    }

    fn read_file(&mut self, _root: &str, _rel_path: &str) -> Result<String, String> {
        self.executions += 1;
        Ok("contents".to_string())
    }

    fn write_file(&mut self, _root: &str, _rel_path: &str, _content: &str) -> Result<String, String> {
        self.executions += 1;
        Ok("ok".to_string())
    }
}

#[derive(Default)]
struct RecordingSink {
    statuses: Vec<(String, String, u32, Option<String>)>,
    logs: Vec<(String, String)>,
    contents: Vec<(String, String)>,
}

impl EventSink for RecordingSink {
    fn on_status(&mut self, id: &str, status: &str, progress_bp: u32, error: Option<&str>) {
        self.statuses.push((
            id.to_string(),
            status.to_string(),
            progress_bp,
            error.map(|e| e.to_string()),
        ));
    }

    fn on_log(&mut self, id: &str, message: &str) {
        self.logs.push((id.to_string(), message.to_string()));
    }

    fn on_content(&mut self, id: &str, content: &str) {
        self.contents.push((id.to_string(), content.to_string()));
    }
}

fn context() -> AgentContext {
    AgentContext {
        task_description: "summarize the project".to_string(),
        project_root: "/proj".to_string(),
        provider_config: AIProviderConfig {
            protocol: AIProtocol::OpenAI,
            base_url: "https://provider.example/v1/chat".to_string(),
            api_key: "SECRET-REDACTED".to_string(),
            models: vec!["m1".to_string()],
        },
    }
}

fn tool_call_body() -> Result<HttpResponse, String> {
    Ok(HttpResponse {
        status: 200,
        body: "{\"choices\":[{\"message\":{\"role\":\"assistant\",\"content\":\"\",\"tool_calls\":[{\"id\":\"call-1\",\"function\":{\"name\":\"agent_list_dir\",\"arguments\":\"{}\"}}]}}]}"
        .to_string(),
    })
}

fn text_body(text: &str) -> Result<HttpResponse, String> {
    Ok(HttpResponse {
        status: 200,
        body: format!(
            "{{\"choices\":[{{\"message\":{{\"role\":\"assistant\",\"content\":\"{}\"}}}}]}}",
            text
        ),
    })
}

#[test]
fn tool_call_then_text_completes_after_one_execution() {
    let mut transport = ScriptedTransport::new(vec![tool_call_body(), text_body("done")]);
    let mut fs = CountingFs { executions: 0 };
    let mut sink = RecordingSink::default();
    let mut supervisor = Supervisor::new();
    supervisor.register_agent("a1".to_string(), "coder".to_string()).unwrap();

    let report = run_agent_task(
        &mut transport,
        &mut fs,
        &mut sink,
        &mut supervisor,
        "a1",
        "You are a coding agent.",
        &context(),
        12,
    );

    assert_eq!(fs.executions, 1);
    assert_eq!(transport.calls, 2);
    assert_eq!(report.completions, 2);
    assert_eq!(report.tools_executed, 1);
    assert_eq!(report.outcome, AgentStatus::Completed);
    assert_eq!(supervisor.list_agents()[0].2, AgentStatus::Completed);
    // The batch's result was appended as a tool message linked to its call.
    let tool_turn = report
        .history
        .iter()
        .find(|m| m.role == Role::Tool)
        .expect("a tool message must be in the history");
    assert_eq!(tool_turn.tool_call_id, Some("call-1".to_string()));
    assert_eq!(tool_turn.content, "src\nREADME.md");
    assert_eq!(sink.contents, vec![("a1".to_string(), "done".to_string())]);
    let last_status = sink.statuses.last().unwrap();
    assert_eq!(last_status.1, "completed");
    assert_eq!(last_status.2, 10000);
}

#[test]
fn transport_failure_fails_the_run_without_tool_executions() {
    let mut transport = ScriptedTransport::new(vec![Err("dns lookup failed".to_string())]);
    let mut fs = CountingFs { executions: 0 };
    let mut sink = RecordingSink::default();
    let mut supervisor = Supervisor::new();
    supervisor.register_agent("a1".to_string(), "coder".to_string()).unwrap();

    let report = run_agent_task(
        &mut transport,
        &mut fs,
        &mut sink,
        &mut supervisor,
        "a1",
        "You are a coding agent.",
        &context(),
        12,
    );

    assert_eq!(fs.executions, 0);
    assert_eq!(report.outcome, AgentStatus::Failed);
    assert_eq!(supervisor.list_agents()[0].2, AgentStatus::Failed);
    let failures: Vec<_> = sink.statuses.iter().filter(|s| s.1 == "failed").collect();
    assert_eq!(failures.len(), 1);
    assert_eq!(
        failures[0].3.as_deref(),
        Some("Network/Request error: dns lookup failed")
    );
}

#[test]
fn loop_is_bounded_even_when_every_turn_requests_tools() {
    let mut transport = AlwaysToolCalls { calls: 0 };
    let mut fs = CountingFs { executions: 0 };
    let mut sink = RecordingSink::default();
    let mut supervisor = Supervisor::new();
    supervisor.register_agent("a1".to_string(), "coder".to_string()).unwrap();

    let report = run_agent_task(
        &mut transport,
        &mut fs,
        &mut sink,
        &mut supervisor,
        "a1",
        "prompt",
        &context(),
        4,
    );

    assert_eq!(transport.calls, 4);
    assert_eq!(report.completions, 4);
    assert_eq!(fs.executions, 4);
    assert_eq!(report.outcome, AgentStatus::Completed);
}

#[test]
fn argument_parse_failure_is_fed_back_not_fatal() {
    let bad_args = Ok(HttpResponse {
        status: 200,
        body: "{\"choices\":[{\"message\":{\"role\":\"assistant\",\"content\":\"\",\"tool_calls\":[{\"id\":\"c9\",\"function\":{\"name\":\"agent_read_file\",\"arguments\":\"{broken\"}}]}}]}"
        .to_string(),
    });
    let mut transport = ScriptedTransport::new(vec![bad_args, text_body("recovered")]);
    let mut fs = CountingFs { executions: 0 };
    let mut sink = RecordingSink::default();
    let mut supervisor = Supervisor::new();
    supervisor.register_agent("a1".to_string(), "coder".to_string()).unwrap();

    let report = run_agent_task(
        &mut transport,
        &mut fs,
        &mut sink,
        &mut supervisor,
        "a1",
        "prompt",
        &context(),
        12,
    );

    assert_eq!(report.outcome, AgentStatus::Completed);
    assert_eq!(fs.executions, 0);
    assert_eq!(report.tools_executed, 0);
    let tool_turn = report.history.iter().find(|m| m.role == Role::Tool).unwrap();
    assert!(tool_turn.content.starts_with("Failed to parse arguments: "));
}

#[test]
fn system_prompt_carries_the_fixed_instruction() {
    let s = system_content_with_tools("Base prompt.");
    assert_eq!(
        s,
        "Base prompt.\n\nAlways use tools to explore the codebase or read files when needed. Do not guess."
    );
}
