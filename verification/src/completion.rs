//! The completion client: one outbound call to the model provider. Given a
//! provider configuration, a message history and an optional tool schema, it
//! yields a normalized assistant message or a classified failure.
//!
//! The transport itself is a collaborator supplied by the host through
//! [`HttpPost`]; the protocol gate, the request serialization, the status
//! classification and the response normalization are verified.

use vstd::prelude::*;
use vstd::string::StringExecFns;
use crate::messages::{Message, MessageView, Role, ToolCall, FunctionCall, history_view};
use crate::sanitize::sanitize_messages;
use crate::strutil::{concat2, u64_to_dec, dec_rep, str_eq};

verus! {

/// The protocol families a provider configuration can name; only the
/// OpenAI-style family is spoken here, and naming any other is a
/// configuration failure, not attempted over the wire.
#[derive(Clone, Copy, Debug, PartialEq, Eq, Structural)]
pub enum AIProtocol {
    OpenAI,
    Anthropic,
}

/// Provider configuration for one run: protocol family, endpoint,
/// credential, and the ordered candidate model identifiers (the first is
/// used).
#[derive(Debug)]
pub struct AIProviderConfig {
    pub protocol: AIProtocol,
    pub base_url: String,
    pub api_key: String,
    pub models: Vec<String>,
}

/// An HTTP-equivalent response: a status code and a body.
#[derive(Debug)]
pub struct HttpResponse {
    pub status: u16,
    pub body: String,
}

/// Mathematical model of an `HttpResponse`.
pub struct HttpResponseView {
    pub status: u16,
    pub body: Seq<char>,
}

impl View for HttpResponse {
    type V = HttpResponseView;

    open spec fn view(&self) -> HttpResponseView {
        HttpResponseView { status: self.status, body: self.body@ }
    }
}

/// The transport collaborator: posts one JSON body with a bearer credential
/// and returns the response, or a transport-level error. Hosts and tests
/// supply implementations; nothing is assumed about their behaviour.
pub trait HttpPost {
    /// Issues one POST of `body` to `url` with the bearer credential.
    fn post_json(&mut self, url: &str, bearer: &str, body: &str) -> Result<HttpResponse, String>;
}

/// A classified completion failure, each fatal to the current run.
#[derive(Debug)]
pub enum CompletionError {
    /// The configuration cannot be used; no call was attempted.
    Configuration(String),
    /// The connection failed or timed out.
    Transport(String),
    /// The provider answered with a non-success status.
    Api { status: u16, body: String },
    /// The response body could not be parsed.
    Malformed(String),
    /// The response parsed but holds no message field.
    MissingMessage,
}

/// Mathematical model of a `CompletionError`.
pub enum CompletionErrorView {
    Configuration(Seq<char>),
    Transport(Seq<char>),
    Api { status: u16, body: Seq<char> },
    Malformed(Seq<char>),
    MissingMessage,
}

impl View for CompletionError {
    type V = CompletionErrorView;

    open spec fn view(&self) -> CompletionErrorView {
        match self {
            CompletionError::Configuration(m) => CompletionErrorView::Configuration(m@),
            CompletionError::Transport(m) => CompletionErrorView::Transport(m@),
            CompletionError::Api { status, body } => CompletionErrorView::Api {
                status: *status,
                body: body@,
            },
            CompletionError::Malformed(m) => CompletionErrorView::Malformed(m@),
            CompletionError::MissingMessage => CompletionErrorView::MissingMessage,
        }
    }
}

/// The human-readable text of a classified failure.
pub open spec fn error_message_spec(e: CompletionErrorView) -> Seq<char> {
    match e {
        CompletionErrorView::Configuration(m) => m,
        CompletionErrorView::Transport(m) => "Network/Request error: "@ + m,
        CompletionErrorView::Api { status, body } => "AI API Error ("@ + dec_rep(status as nat)
            + "): "@ + body,
        CompletionErrorView::Malformed(m) => "Failed to parse AI response: "@ + m,
        CompletionErrorView::MissingMessage => "Malformed AI response: message field missing"@,
    }
}

impl CompletionError {
    /// Renders the failure as the diagnostic text a status event carries.
    pub fn message(&self) -> (r: String)
        ensures
            r@ == error_message_spec(self@),
    {
        match self {
            CompletionError::Configuration(m) => m.clone(),
            CompletionError::Transport(m) => concat2("Network/Request error: ", m.as_str()),
            CompletionError::Api { status, body } => {
                let mut s = String::from_str("AI API Error (");
                let d = u64_to_dec(*status as u64);
                s.append(d.as_str());
                s.append("): ");
                s.append(body.as_str());
                proof {
                    assert(s@ =~= error_message_spec(self@));
                }
                s
            },
            CompletionError::Malformed(m) => concat2("Failed to parse AI response: ", m.as_str()),
            CompletionError::MissingMessage => String::from_str(
                "Malformed AI response: message field missing",
            ),
        }
    }
}

/// One tool call as the wire response carries it, each field present only
/// when the provider sent a string there.
#[derive(Debug)]
pub struct RawToolCall {
    pub id: Option<String>,
    pub name: Option<String>,
    pub arguments: Option<String>,
}

/// Mathematical model of a `RawToolCall`.
pub struct RawToolCallView {
    pub id: Option<Seq<char>>,
    pub name: Option<Seq<char>>,
    pub arguments: Option<Seq<char>>,
}

impl View for RawToolCall {
    type V = RawToolCallView;

    open spec fn view(&self) -> RawToolCallView {
        RawToolCallView {
            id: crate::messages::opt_str_view(self.id),
            name: crate::messages::opt_str_view(self.name),
            arguments: crate::messages::opt_str_view(self.arguments),
        }
    }
}

/// The first returned choice's message as the wire response carries it.
#[derive(Debug)]
pub struct RawChoice {
    pub role: Option<String>,
    pub content: Option<String>,
    pub tool_calls: Option<Vec<RawToolCall>>,
}

/// Mathematical model of a `RawChoice`.
pub struct RawChoiceView {
    pub role: Option<Seq<char>>,
    pub content: Option<Seq<char>>,
    pub tool_calls: Option<Seq<RawToolCallView>>,
}

impl View for RawChoice {
    type V = RawChoiceView;

    open spec fn view(&self) -> RawChoiceView {
        RawChoiceView {
            role: crate::messages::opt_str_view(self.role),
            content: crate::messages::opt_str_view(self.content),
            tool_calls: match self.tool_calls {
                Some(calls) => Some(calls@.map_values(|c: RawToolCall| c@)),
                None => None,
            },
        }
    }
}

/// What the first choice's message of a completion response body holds: the
/// parser's error text for an unparseable body, `None` for a body without a
/// message field, and otherwise the message's string fields and tool calls.
pub uninterp spec fn completion_parse_of(body: Seq<char>) -> Result<
    Option<RawChoiceView>,
    Seq<char>,
>;

/// Relies on `serde_json::from_str` to parse the response body and on
/// `serde_json::Value` indexing / `Value::as_str` / `Value::as_array` to
/// read `choices[0].message` and its fields; the outcome is a function of
/// the body alone.
#[verifier::external_body]
pub fn parse_completion_body(body: &str) -> (r: Result<Option<RawChoice>, String>)
    ensures
        r matches Ok(Some(c)) ==> (completion_parse_of(body@) matches Ok(Some(v)) && c@ == v),
        r matches Ok(None) ==> completion_parse_of(body@) matches Ok(None::<RawChoiceView>),
        r matches Err(e) ==> (completion_parse_of(body@) matches Err(v) && e@ == v),
{
    let v: serde_json::Value = serde_json::from_str(body).map_err(|e| e.to_string())?;
    let c = &v["choices"][0]["message"];
    if c.is_null() {
        return Ok(None);
    }
    let s = |x: &serde_json::Value| x.as_str().map(String::from);
    let tool_calls = c["tool_calls"].as_array().map(|a| a.iter().map(|tc| RawToolCall {
        id: s(&tc["id"]),
        name: s(&tc["function"]["name"]),
        arguments: s(&tc["function"]["arguments"]),
    }).collect());
    Ok(Some(RawChoice { role: s(&c["role"]), content: s(&c["content"]), tool_calls }))
}

/// The role a wire role string normalizes to; anything unknown or absent is
/// treated as the assistant speaking.
pub open spec fn role_of_wire(s: Option<Seq<char>>) -> Role {
    match s {
        Some(x) => if x == "system"@ {
            Role::System
        } else if x == "user"@ {
            Role::User
        } else if x == "tool"@ {
            Role::Tool
        } else {
            Role::Assistant
        },
        None => Role::Assistant,
    }
}

/// One wire tool call normalized: id and name default to empty, the argument
/// payload to an empty JSON object.
pub open spec fn normalize_call_spec(c: RawToolCallView) -> crate::messages::ToolCallView {
    crate::messages::ToolCallView {
        id: c.id.unwrap_or(""@),
        function: crate::messages::FunctionCallView {
            name: c.name.unwrap_or(""@),
            arguments: c.arguments.unwrap_or("{}"@),
        },
    }
}

/// The wire message normalized: text content defaults to the empty string,
/// and the tool-call list, when present, keeps its order.
pub open spec fn normalize_spec(raw: RawChoiceView) -> MessageView {
    MessageView {
        role: role_of_wire(raw.role),
        content: raw.content.unwrap_or(""@),
        tool_calls: match raw.tool_calls {
            Some(calls) => Some(calls.map_values(|c: RawToolCallView| normalize_call_spec(c))),
            None => None,
        },
        tool_call_id: None,
    }
}

fn opt_or(s: &Option<String>, dflt: &str) -> (r: String)
    ensures
        r@ == crate::messages::opt_str_view(*s).unwrap_or(dflt@),
{
    match s {
        Some(x) => x.clone(),
        None => dflt.to_owned(),
    }
}

fn normalize_role(role: &Option<String>) -> (r: Role)
    ensures
        r == role_of_wire(crate::messages::opt_str_view(*role)),
{
    match role {
        Some(x) => {
            if str_eq(x.as_str(), "system") {
                Role::System
            } else if str_eq(x.as_str(), "user") {
                Role::User
            } else if str_eq(x.as_str(), "tool") {
                Role::Tool
            } else {
                Role::Assistant
            }
        },
        None => Role::Assistant,
    }
}

/// Normalizes the parsed first choice into a message of the model.
pub fn normalize_completion(raw: RawChoice) -> (r: Message)
    ensures
        r@ == normalize_spec(raw@),
{
    let role = normalize_role(&raw.role);
    let content = opt_or(&raw.content, "");
    let tool_calls = match &raw.tool_calls {
        Some(calls) => {
            let mut out: Vec<ToolCall> = Vec::new();
            let mut i: usize = 0;
            while i < calls.len()
                invariant
                    i <= calls@.len(),
                    out@.len() == i,
                    forall|k: int|
                        0 <= k < i ==> out@[k]@ == normalize_call_spec(#[trigger] calls@[k]@),
                decreases calls@.len() - i,
            {
                let c = &calls[i];
                out.push(
                    ToolCall {
                        id: opt_or(&c.id, ""),
                        function: FunctionCall {
                            name: opt_or(&c.name, ""),
                            arguments: opt_or(&c.arguments, "{}"),
                        },
                    },
                );
                i += 1;
            }
            proof {
                assert(crate::messages::calls_view(out@) =~= raw@.tool_calls.unwrap().map_values(
                    |c: RawToolCallView| normalize_call_spec(c),
                ));
            }
            Some(out)
        },
        None => None,
    };
    Message { role, content, tool_calls, tool_call_id: None }
}

/// Whether an HTTP-equivalent status is a success.
pub open spec fn is_success_status(status: u16) -> bool {
    200 <= status < 300
}

/// Interprets one transport outcome as the completion call's result.
///
/// A transport error is a `Transport` failure carrying its text; a
/// non-success status is an `Api` failure carrying status and body; a
/// success body that cannot be parsed is `Malformed`; one without a message
/// field is `MissingMessage`; otherwise the normalized assistant message is
/// returned.
pub fn interpret_http_outcome(outcome: Result<HttpResponse, String>) -> (r: Result<
    Message,
    CompletionError,
>)
    ensures
        outcome matches Err(e) ==> (r matches Err(ce) && ce@ == CompletionErrorView::Transport(
            e@,
        )),
        outcome matches Ok(resp) ==> {
            &&& !is_success_status(resp.status) ==> (r matches Err(ce) && ce@
                == CompletionErrorView::Api { status: resp.status, body: resp.body@ })
            &&& is_success_status(resp.status) ==> {
                &&& (completion_parse_of(resp.body@) matches Err(pe) ==> (r matches Err(ce) && ce@
                    == CompletionErrorView::Malformed(pe)))
                &&& (completion_parse_of(resp.body@) matches Ok(None::<RawChoiceView>) ==> (
                r matches Err(ce) && ce@ == CompletionErrorView::MissingMessage))
                &&& (completion_parse_of(resp.body@) matches Ok(Some(raw)) ==> (r matches Ok(m)
                    && m@ == normalize_spec(raw)))
            }
        },
{
    match outcome {
        Err(e) => Err(CompletionError::Transport(e)),
        Ok(resp) => {
            if !(200 <= resp.status && resp.status < 300) {
                return Err(CompletionError::Api { status: resp.status, body: resp.body });
            }
            match parse_completion_body(resp.body.as_str()) {
                Err(e) => Err(CompletionError::Malformed(e)),
                Ok(None) => Err(CompletionError::MissingMessage),
                Ok(Some(raw)) => Ok(normalize_completion(raw)),
            }
        },
    }
}

/// The configuration failure for an unsupported protocol family.
pub open spec fn unsupported_protocol_text() -> Seq<char> {
    "Agent System currently only supports OpenAI/DeepSeek protocols"@
}

/// The configuration failure for a provider configuration naming no model.
pub open spec fn no_model_text() -> Seq<char> {
    "provider configuration names no model"@
}

/// Performs one completion call: sanitizes the history, gates the protocol
/// family, serializes the request, posts it once through the transport, and
/// interprets the outcome.
///
/// An unsupported protocol family or an empty model list is rejected as a
/// `Configuration` failure before any call is attempted. Whatever the
/// transport returns, the result is never a `Configuration` failure after a
/// call was attempted, and a returned message carries no tool-call id.
pub fn fetch_ai_completion<T: HttpPost>(
    transport: &mut T,
    config: &AIProviderConfig,
    messages: Vec<Message>,
    tools: Option<&str>,
) -> (r: Result<Message, CompletionError>)
    requires
        messages@.len() > 0,
    ensures
        config.protocol != AIProtocol::OpenAI ==> (r matches Err(ce) && ce@
            == CompletionErrorView::Configuration(unsupported_protocol_text())),
        config.protocol == AIProtocol::OpenAI && config.models@.len() == 0 ==> (r matches Err(ce)
            && ce@ == CompletionErrorView::Configuration(no_model_text())),
        config.protocol == AIProtocol::OpenAI && config.models@.len() > 0 ==> {
            &&& (r matches Ok(m) ==> m@.tool_call_id is None)
            &&& (r matches Err(ce) ==> !(ce@ is Configuration))
        },
{
    let mut msgs = messages;
    sanitize_messages(&mut msgs);
    if !matches!(config.protocol, AIProtocol::OpenAI) {
        return Err(
            CompletionError::Configuration(
                String::from_str("Agent System currently only supports OpenAI/DeepSeek protocols"),
            ),
        );
    }
    if config.models.len() == 0 {
        return Err(
            CompletionError::Configuration(
                String::from_str("provider configuration names no model"),
            ),
        );
    }
    let body = crate::json_out::build_request_body(config.models[0].as_str(), &msgs, false, tools);
    let outcome = transport.post_json(
        config.base_url.as_str(),
        config.api_key.as_str(),
        body.as_str(),
    );
    interpret_http_outcome(outcome)
}

} // verus!
