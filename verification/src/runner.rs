//! The agent runner: the per-agent think/act loop. It builds the initial
//! context, repeatedly invokes the completion client, interprets each
//! response as either terminal text or a batch of tool calls, executes the
//! batch through the dispatcher, and appends the results to the history.
//!
//! The loop is bounded: it makes at most `max_loops` completion calls,
//! whatever the provider answers. A completion failure is fatal to the run;
//! a single tool failure is surfaced to the model as a tool result instead.
//! Whichever way the run ends, the supervisor is left with a terminal status
//! for the agent.

use vstd::prelude::*;
use vstd::string::StrSliceExecFns;
use vstd::string::StringExecFns;
use crate::completion::{AIProviderConfig, HttpPost, fetch_ai_completion};
use crate::messages::{Message, MessageView, Role, plain_message, tool_result_message, clone_history};
use crate::supervisor::{AgentStatus, Supervisor, set_status};
use crate::tools::{FsCollaborator, execute_tool_internal, parse_tool_args};
use crate::strutil::concat2;

verus! {

/// The observer sink for run events: fire-and-forget, never blocking the
/// run. Hosts and tests supply implementations; nothing is assumed about
/// their behaviour. Progress is carried in basis points (10000 = done).
pub trait EventSink {
    /// A status event: `running`, `completed` or `failed`, with progress and
    /// an optional diagnostic.
    fn on_status(&mut self, id: &str, status: &str, progress_bp: u32, error: Option<&str>);

    /// A log line for the agent.
    fn on_log(&mut self, id: &str, message: &str);

    /// One chunk of assistant text on the agent's content channel.
    fn on_content(&mut self, id: &str, content: &str);
}

/// The immutable input bundle for one run.
#[derive(Debug)]
pub struct AgentContext {
    pub task_description: String,
    pub project_root: String,
    pub provider_config: AIProviderConfig,
}

/// What a finished run reports.
#[derive(Debug)]
pub struct RunReport {
    /// The terminal status recorded with the supervisor.
    pub outcome: AgentStatus,
    /// How many completion calls were made.
    pub completions: usize,
    /// How many tool calls were dispatched to the filesystem collaborator.
    pub tools_executed: usize,
    /// The conversation as it stood when the run ended.
    pub history: Vec<Message>,
}

/// The fixed instruction appended to every agent's system prompt.
pub open spec fn agent_tools_suffix() -> Seq<char> {
    "\n\nAlways use tools to explore the codebase or read files when needed. Do not guess."@
}

/// Appends the fixed prefer-tools instruction to a rendered agent prompt.
pub fn system_content_with_tools(base: &str) -> (r: String)
    ensures
        r@ == base@ + agent_tools_suffix(),
{
    concat2(
        base,
        "\n\nAlways use tools to explore the codebase or read files when needed. Do not guess.",
    )
}

/// The fixed tool schema offered to the model: directory listing and file
/// read.
pub open spec fn agent_tool_schema_spec() -> Seq<char> {
    "[{\"type\":\"function\",\"function\":{\"name\":\"agent_list_dir\",\"description\":\"List files in a directory\",\"parameters\":{\"type\":\"object\",\"properties\":{\"rel_path\":{\"type\":\"string\",\"description\":\"Relative path to directory\"}}}}},{\"type\":\"function\",\"function\":{\"name\":\"agent_read_file\",\"description\":\"Read content of a file\",\"parameters\":{\"type\":\"object\",\"properties\":{\"rel_path\":{\"type\":\"string\",\"description\":\"Relative path to file\"}},\"required\":[\"rel_path\"]}}}]"@
}

/// The fixed tool schema as request-ready JSON text.
pub fn agent_tool_schema() -> (r: String)
    ensures
        r@ == agent_tool_schema_spec(),
{
    String::from_str(
        "[{\"type\":\"function\",\"function\":{\"name\":\"agent_list_dir\",\"description\":\"List files in a directory\",\"parameters\":{\"type\":\"object\",\"properties\":{\"rel_path\":{\"type\":\"string\",\"description\":\"Relative path to directory\"}}}}},{\"type\":\"function\",\"function\":{\"name\":\"agent_read_file\",\"description\":\"Read content of a file\",\"parameters\":{\"type\":\"object\",\"properties\":{\"rel_path\":{\"type\":\"string\",\"description\":\"Relative path to file\"}},\"required\":[\"rel_path\"]}}}]",
    )
}

/// The progress fraction reported while thinking, in basis points, clamped
/// to full.
pub open spec fn progress_bp_spec(loop_count: int) -> u32 {
    if loop_count >= 17 {
        10000
    } else if loop_count >= 0 {
        (1500 + 500 * loop_count) as u32
    } else {
        1500
    }
}

fn progress_bp(loop_count: usize) -> (r: u32)
    ensures
        r == progress_bp_spec(loop_count as int),
{
    if loop_count >= 17 {
        10000
    } else {
        1500 + 500 * (loop_count as u32)
    }
}

/// Drives one agent task to a terminal status.
///
/// The history starts with the rendered agent prompt (with the fixed
/// prefer-tools instruction) and the task description; the supervisor status
/// becomes `Running`. Each iteration makes one completion call on the
/// sanitized history. Terminal text or an empty tool-call batch finishes the
/// run as `Completed`; a completion failure ends it as `Failed` after one
/// failure event carrying the diagnostic; a tool-call batch is executed in
/// order, each result (or per-call error text) appended as a tool message.
/// At most `max_loops` completion calls are ever made; exhausting the budget
/// completes the run. The supervisor always ends with the reported terminal
/// status for this id.
pub fn run_agent_task<T: HttpPost, F: FsCollaborator, S: EventSink>(
    transport: &mut T,
    fs: &mut F,
    sink: &mut S,
    supervisor: &mut Supervisor,
    id: &str,
    agent_prompt: &str,
    context: &AgentContext,
    max_loops: usize,
) -> (r: RunReport)
    requires
        old(supervisor).wf(),
    ensures
        final(supervisor).wf(),
        final(supervisor).gate_ids() == old(supervisor).gate_ids(),
        final(supervisor).agents_seq() == set_status(
            set_status(old(supervisor).agents_seq(), id@, AgentStatus::Running),
            id@,
            r.outcome,
        ),
        r.outcome == AgentStatus::Completed || r.outcome == AgentStatus::Failed,
        r.completions <= max_loops,
        r.tools_executed < r.history@.len(),
        r.history@.len() >= 2,
        r.history@[0]@ == (MessageView {
            role: Role::System,
            content: agent_prompt@ + agent_tools_suffix(),
            tool_calls: None,
            tool_call_id: None,
        }),
        r.history@[1]@ == (MessageView {
            role: Role::User,
            content: context.task_description@,
            tool_calls: None,
            tool_call_id: None,
        }),
{
    let mut history: Vec<Message> = Vec::new();
    history.push(plain_message(Role::System, system_content_with_tools(agent_prompt)));
    history.push(plain_message(Role::User, context.task_description.clone()));
    supervisor.update_status(id, AgentStatus::Running);
    let schema = agent_tool_schema();
    let mut loop_count: usize = 0;
    let mut completions: usize = 0;
    let mut tools_executed: usize = 0;
    while loop_count < max_loops
        invariant
            history@.len() >= 2,
            history@[0]@ == (MessageView {
                role: Role::System,
                content: agent_prompt@ + agent_tools_suffix(),
                tool_calls: None,
                tool_call_id: None,
            }),
            history@[1]@ == (MessageView {
                role: Role::User,
                content: context.task_description@,
                tool_calls: None,
                tool_call_id: None,
            }),
            completions <= loop_count <= max_loops,
            tools_executed < history@.len(),
            supervisor.wf(),
            supervisor.gate_ids() == old(supervisor).gate_ids(),
            supervisor.agents_seq() == set_status(
                old(supervisor).agents_seq(),
                id@,
                AgentStatus::Running,
            ),
        decreases max_loops - loop_count,
    {
        loop_count += 1;
        sink.on_status(id, "running", progress_bp(loop_count), None);
        sink.on_log(id, "AI is thinking...");
        let msgs = clone_history(&history);
        proof {
            assert(crate::messages::history_view(msgs@).len() == msgs@.len());
            assert(crate::messages::history_view(history@).len() == history@.len());
        }
        match fetch_ai_completion(
            transport,
            &context.provider_config,
            msgs,
            Some(schema.as_str()),
        ) {
            Ok(ai_message) => {
                completions += 1;
                if ai_message.content.as_str().unicode_len() > 0 {
                    sink.on_content(id, ai_message.content.as_str());
                }
                let has_calls = match &ai_message.tool_calls {
                    Some(calls) => calls.len() > 0,
                    None => false,
                };
                if !has_calls {
                    break;
                }
                history.push(ai_message.clone());
                if let Some(calls) = &ai_message.tool_calls {
                    let mut ci: usize = 0;
                    while ci < calls.len()
                        invariant
                            history@.len() >= 2,
                            history@[0]@ == (MessageView {
                                role: Role::System,
                                content: agent_prompt@ + agent_tools_suffix(),
                                tool_calls: None,
                                tool_call_id: None,
                            }),
                            history@[1]@ == (MessageView {
                                role: Role::User,
                                content: context.task_description@,
                                tool_calls: None,
                                tool_call_id: None,
                            }),
                            ci <= calls@.len(),
                            tools_executed < history@.len(),
                        decreases calls@.len() - ci,
                    {
                        let call = &calls[ci];
                        let hist_len = history.len();
                        assert(tools_executed < hist_len);
                        let log_line = concat2("Executing tool: ", call.function.name.as_str());
                        sink.on_log(id, log_line.as_str());
                        let result_text = match parse_tool_args(call.function.arguments.as_str()) {
                            Ok(args) => {
                                tools_executed += 1;
                                match execute_tool_internal(
                                    fs,
                                    call.function.name.as_str(),
                                    &args,
                                    context.project_root.as_str(),
                                ) {
                                    Ok(res) => res,
                                    Err(e) => concat2("Error: ", e.as_str()),
                                }
                            },
                            Err(e) => concat2("Failed to parse arguments: ", e.as_str()),
                        };
                        history.push(tool_result_message(call.id.clone(), result_text));
                        ci += 1;
                    }
                }
            },
            Err(e) => {
                let diagnostic = e.message();
                sink.on_status(id, "failed", progress_bp(loop_count), Some(diagnostic.as_str()));
                supervisor.update_status(id, AgentStatus::Failed);
                return RunReport {
                    outcome: AgentStatus::Failed,
                    completions,
                    tools_executed,
                    history,
                };
            },
        }
    }
    supervisor.update_status(id, AgentStatus::Completed);
    sink.on_status(id, "completed", 10000, None);
    RunReport { outcome: AgentStatus::Completed, completions, tools_executed, history }
}

} // verus!
