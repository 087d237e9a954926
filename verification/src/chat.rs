//! The plain chat client against the fixed provider: one non-streaming code
//! completion call, and the interpretation of server-sent stream events. The
//! transport and the event loop live with the host; the request
//! serialization, the response interpretation and the event decisions are
//! verified.

use vstd::prelude::*;
use vstd::string::StringExecFns;
use crate::completion::{HttpPost, HttpResponse};
use crate::messages::Message;
use crate::strutil::{u64_to_dec, dec_rep, str_eq};

verus! {

/// The text content of the first returned choice's message (the error is the
/// JSON parser's message for an unparseable body; the inner option is empty
/// when the body holds no string there): a function of the body alone.
pub uninterp spec fn chat_content_of(body: Seq<char>) -> Result<Option<Seq<char>>, Seq<char>>;

/// Relies on `serde_json::from_str` and `serde_json::Value` indexing /
/// `Value::as_str` to read `choices[0].message.content` from a completion
/// response body.
#[verifier::external_body]
fn parse_chat_content(body: &str) -> (r: Result<Option<String>, String>)
    ensures
        r matches Ok(Some(s)) ==> (chat_content_of(body@) matches Ok(Some(v)) && s@ == v),
        r matches Ok(None) ==> chat_content_of(body@) matches Ok(None::<Seq<char>>),
        r matches Err(e) ==> (chat_content_of(body@) matches Err(v) && e@ == v),
{
    let v: serde_json::Value = match serde_json::from_str(body) {
        Ok(v) => v,
        Err(e) => return Err(e.to_string()),
    };
    Ok(v["choices"][0]["message"]["content"].as_str().map(|s| s.to_string()))
}

/// Interprets one transport outcome as the plain completion call's result:
/// a transport error passes through; a non-success status becomes the
/// diagnostic carrying status and body; a success body yields the first
/// choice's text, an unparseable body its parse error, and a body without a
/// text content the fixed no-choices diagnostic.
pub fn interpret_chat_outcome(outcome: Result<HttpResponse, String>) -> (r: Result<String, String>)
    ensures
        outcome matches Err(e) ==> (r matches Err(msg) && msg@ == e@),
        outcome matches Ok(resp) ==> {
            &&& !crate::completion::is_success_status(resp.status) ==> (r matches Err(msg) && msg@
                == "API Error: "@ + dec_rep(resp.status as nat) + " - "@ + resp.body@)
            &&& crate::completion::is_success_status(resp.status) ==> {
                &&& (chat_content_of(resp.body@) matches Ok(Some(s)) ==> (r matches Ok(text)
                    && text@ == s))
                &&& (chat_content_of(resp.body@) matches Ok(None::<Seq<char>>) ==> (
                r matches Err(msg) && msg@ == "No choices returned"@))
                &&& (chat_content_of(resp.body@) matches Err(e) ==> (r matches Err(msg) && msg@
                    == e))
            }
        },
{
    match outcome {
        Err(e) => Err(e),
        Ok(resp) => {
            if !(200 <= resp.status && resp.status < 300) {
                let mut msg = String::from_str("API Error: ");
                let d = u64_to_dec(resp.status as u64);
                msg.append(d.as_str());
                msg.append(" - ");
                msg.append(resp.body.as_str());
                proof {
                    assert(msg@ =~= "API Error: "@ + dec_rep(resp.status as nat) + " - "@
                        + resp.body@);
                }
                return Err(msg);
            }
            match parse_chat_content(resp.body.as_str()) {
                Ok(Some(text)) => Ok(text),
                Ok(None) => Err(String::from_str("No choices returned")),
                Err(e) => Err(e),
            }
        },
    }
}

/// Performs one non-streaming completion against the fixed provider: the
/// history is serialized with the fixed model and posted once, and the
/// outcome interpreted as `interpret_chat_outcome` does.
pub fn complete_code<T: HttpPost>(
    transport: &mut T,
    api_key: String,
    messages: Vec<Message>,
) -> (r: Result<String, String>)
{
    let body = crate::json_out::build_request_body("deepseek-chat", &messages, false, None);
    let outcome = transport.post_json(
        "https://api.deepseek.com/chat/completions",
        api_key.as_str(),
        body.as_str(),
    );
    interpret_chat_outcome(outcome)
}

/// Performs one code completion; the command-facing alias of
/// [`complete_code`].
pub fn ai_completion<T: HttpPost>(
    transport: &mut T,
    api_key: String,
    messages: Vec<Message>,
) -> (r: Result<String, String>)
{
    complete_code(transport, api_key, messages)
}

/// What one stream event asks the host's event loop to do.
#[derive(Debug)]
pub enum StreamStep {
    /// The stream announced its end; stop reading.
    Done,
    /// Forward this text chunk to the consumer.
    Content(String),
    /// Nothing to forward; keep reading.
    Skip,
}

/// The text chunk a stream event's data carries, when its JSON parses and
/// its first choice's delta holds a string: a function of the data alone.
pub uninterp spec fn delta_content_of(data: Seq<char>) -> Option<Seq<char>>;

/// Relies on `serde_json::from_str` and `serde_json::Value` indexing /
/// `Value::as_str` to read `choices[0].delta.content` from one stream
/// event's data.
#[verifier::external_body]
fn parse_stream_delta(data: &str) -> (r: Option<String>)
    ensures
        r matches Some(s) ==> (delta_content_of(data@) matches Some(v) && s@ == v),
        r is None ==> delta_content_of(data@) is None,
{
    let v: serde_json::Value = match serde_json::from_str(data) {
        Ok(v) => v,
        Err(_) => return None,
    };
    v["choices"][0]["delta"]["content"].as_str().map(|s| s.to_string())
}

/// Decides what one server-sent stream event means: the end-of-stream
/// sentinel stops the stream, an event carrying a delta text chunk forwards
/// it, and anything else is skipped.
pub fn interpret_stream_event(data: &str) -> (r: StreamStep)
    ensures
        data@ == "[DONE]"@ ==> r is Done,
        data@ != "[DONE]"@ ==> (delta_content_of(data@) matches Some(s) ==> (r matches StreamStep::Content(c)
            && c@ == s)),
        data@ != "[DONE]"@ && delta_content_of(data@) is None ==> r is Skip,
{
    if str_eq(data, "[DONE]") {
        return StreamStep::Done;
    }
    match parse_stream_delta(data) {
        Some(content) => StreamStep::Content(content),
        None => StreamStep::Skip,
    }
}

} // verus!
