//! The community edition's service surface: the retrieval and agent service
//! traits the application is written against, and the stub implementations
//! shipped when the full implementations are not.

use vstd::prelude::*;
use vstd::string::StringExecFns;

verus! {

/// What a context retrieval yields: the assembled context text and the
/// references it drew on.
#[derive(Debug)]
pub struct RagResult {
    pub context: String,
    pub references: Vec<String>,
}

/// The retrieval service the application consumes; implementations index a
/// project and answer queries against it.
pub trait RagService {
    /// Indexes the project under `root`.
    fn index_project(&mut self, root: &str) -> Result<(), String>;

    /// Returns the ids of the chunks best matching `query`.
    fn search(&mut self, query: &str, top_k: usize) -> Result<Vec<String>, String>;

    /// Retrieves grounding context for `query` against the project.
    fn retrieve_context(&mut self, query: &str, root: &str) -> Result<RagResult, String>;
}

/// The agent service the application consumes; implementations run one task
/// to completion.
pub trait AgentService {
    /// Runs one task and returns its final text.
    fn execute_task(&mut self, task: &str) -> Result<String, String>;
}

/// The community chat service: one plain completion call per chat turn,
/// without tools.
#[derive(Debug)]
pub struct BasicAIService;

impl BasicAIService {
    /// Performs one chat completion over the given transport; the outcome is
    /// classified exactly as the completion client classifies it.
    pub fn chat<T: crate::completion::HttpPost>(
        &self,
        transport: &mut T,
        config: &crate::completion::AIProviderConfig,
        messages: Vec<crate::messages::Message>,
    ) -> (r: Result<crate::messages::Message, crate::completion::CompletionError>)
        requires
            messages@.len() > 0,
        ensures
            config.protocol != crate::completion::AIProtocol::OpenAI ==> (r matches Err(ce) && ce@
                == crate::completion::CompletionErrorView::Configuration(
                crate::completion::unsupported_protocol_text(),
            )),
    {
        crate::completion::fetch_ai_completion(transport, config, messages, None)
    }
}

/// The stub retrieval service: indexing is declined and every query answers
/// empty.
#[derive(Debug)]
pub struct CommunityRagService;

/// The text declining a capability of the commercial edition.
pub open spec fn commercial_only_rag_text() -> Seq<char> {
    "RAG indexing is available in Commercial Edition."@
}

impl RagService for CommunityRagService {
    fn index_project(&mut self, _root: &str) -> (r: Result<(), String>)
        ensures
            r matches Err(e) && e@ == commercial_only_rag_text(),
    {
        Err(String::from_str("RAG indexing is available in Commercial Edition."))
    }

    fn search(&mut self, _query: &str, _top_k: usize) -> (r: Result<Vec<String>, String>)
        ensures
            r matches Ok(v) && v@.len() == 0,
    {
        Ok(Vec::new())
    }

    fn retrieve_context(&mut self, _query: &str, _root: &str) -> (r: Result<RagResult, String>)
        ensures
            r matches Ok(res) && res.context@.len() == 0 && res.references@.len() == 0,
    {
        Ok(RagResult { context: String::new(), references: Vec::new() })
    }
}

/// The stub agent service: task execution is declined.
#[derive(Debug)]
pub struct CommunityAgentService;

/// The text declining the agent capability of the commercial edition.
pub open spec fn commercial_only_agent_text() -> Seq<char> {
    "Agent system is available in Commercial Edition."@
}

impl AgentService for CommunityAgentService {
    fn execute_task(&mut self, _task: &str) -> (r: Result<String, String>)
        ensures
            r matches Err(e) && e@ == commercial_only_agent_text(),
    {
        Err(String::from_str("Agent system is available in Commercial Edition."))
    }
}

} // verus!
