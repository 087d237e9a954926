use agent_engine::community::{
    AgentService, BasicAIService, CommunityAgentService, CommunityRagService, RagService,
};
use agent_engine::completion::{AIProtocol, AIProviderConfig, CompletionError, HttpPost, HttpResponse};
use agent_engine::messages::{Message, Role};

#[test]
fn rag_stub_declines_indexing_and_answers_empty() {
    let mut rag = CommunityRagService;
    assert_eq!(
        rag.index_project("/proj").unwrap_err(),
        "RAG indexing is available in Commercial Edition."
    );
    assert_eq!(rag.search("query", 5).unwrap(), Vec::<String>::new());
    let result = rag.retrieve_context("query", "/proj").unwrap();
    assert_eq!(result.context, "");
    assert!(result.references.is_empty());
}

#[test]
fn agent_stub_declines_tasks() {
    let mut agent = CommunityAgentService;
    assert_eq!(
        agent.execute_task("do something").unwrap_err(),
        "Agent system is available in Commercial Edition."
    );
}

struct DeadTransport;

impl HttpPost for DeadTransport {
    fn post_json(&mut self, _url: &str, _bearer: &str, _body: &str) -> Result<HttpResponse, String> {
        panic!("no call expected")
    }
}

#[test]
fn basic_chat_gates_the_protocol() {
    let service = BasicAIService;
    let config = AIProviderConfig {
        protocol: AIProtocol::Anthropic,
        base_url: "https://provider.example".to_string(),
        api_key: "SECRET-REDACTED".to_string(),
        models: vec!["m".to_string()],
    };
    let messages = vec![Message {
        role: Role::User,
        content: "hi".to_string(),
        tool_calls: None,
        tool_call_id: None,
    }];
    let mut transport = DeadTransport;
    let r = service.chat(&mut transport, &config, messages);
    assert!(matches!(r, Err(CompletionError::Configuration(_))));
}
