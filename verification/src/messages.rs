//! The conversation data model: a history is an ordered sequence of messages,
//! where an assistant message may declare tool calls and a tool message
//! carries the result for one call id.

use vstd::prelude::*;
use vstd::string::StringExecFns;
use vstd::string::StrSliceExecFns;

verus! {

/// The four message roles of a conversation.
#[derive(Clone, Copy, Debug, PartialEq, Eq, Structural)]
pub enum Role {
    System,
    User,
    Assistant,
    Tool,
}

/// The function a tool call names, with its argument payload as opaque text.
#[derive(Debug)]
pub struct FunctionCall {
    pub name: String,
    pub arguments: String,
}

/// One tool invocation requested by an assistant message.
#[derive(Debug)]
pub struct ToolCall {
    pub id: String,
    pub function: FunctionCall,
}

/// One turn of a conversation.
///
/// `tool_calls` is present only on assistant turns that request tool
/// execution; `tool_call_id` is present only on tool-role turns, linking the
/// result back to the call that produced it.
#[derive(Debug)]
pub struct Message {
    pub role: Role,
    pub content: String,
    pub tool_calls: Option<Vec<ToolCall>>,
    pub tool_call_id: Option<String>,
}

/// Mathematical model of a `FunctionCall`.
pub struct FunctionCallView {
    pub name: Seq<char>,
    pub arguments: Seq<char>,
}

/// Mathematical model of a `ToolCall`.
pub struct ToolCallView {
    pub id: Seq<char>,
    pub function: FunctionCallView,
}

/// Mathematical model of a `Message`.
pub struct MessageView {
    pub role: Role,
    pub content: Seq<char>,
    pub tool_calls: Option<Seq<ToolCallView>>,
    pub tool_call_id: Option<Seq<char>>,
}

impl View for FunctionCall {
    type V = FunctionCallView;

    open spec fn view(&self) -> FunctionCallView {
        FunctionCallView { name: self.name@, arguments: self.arguments@ }
    }
}

impl View for ToolCall {
    type V = ToolCallView;

    open spec fn view(&self) -> ToolCallView {
        ToolCallView { id: self.id@, function: self.function@ }
    }
}

/// The models of a sequence of tool calls.
pub open spec fn calls_view(calls: Seq<ToolCall>) -> Seq<ToolCallView> {
    calls.map_values(|c: ToolCall| c@)
}

/// The model of an optional string.
pub open spec fn opt_str_view(s: Option<String>) -> Option<Seq<char>> {
    match s {
        Some(x) => Some(x@),
        None => None,
    }
}

impl View for Message {
    type V = MessageView;

    open spec fn view(&self) -> MessageView {
        MessageView {
            role: self.role,
            content: self.content@,
            tool_calls: match self.tool_calls {
                Some(calls) => Some(calls_view(calls@)),
                None => None,
            },
            tool_call_id: opt_str_view(self.tool_call_id),
        }
    }
}

/// The models of a conversation history.
pub open spec fn history_view(h: Seq<Message>) -> Seq<MessageView> {
    h.map_values(|m: Message| m@)
}

impl Clone for FunctionCall {
    fn clone(&self) -> (r: Self)
        ensures
            r@ == self@,
    {
        FunctionCall { name: self.name.clone(), arguments: self.arguments.clone() }
    }
}

impl Clone for ToolCall {
    fn clone(&self) -> (r: Self)
        ensures
            r@ == self@,
    {
        ToolCall { id: self.id.clone(), function: self.function.clone() }
    }
}

fn clone_calls(calls: &Vec<ToolCall>) -> (r: Vec<ToolCall>)
    ensures
        calls_view(r@) == calls_view(calls@),
{
    let mut out: Vec<ToolCall> = Vec::new();
    let mut i: usize = 0;
    while i < calls.len()
        invariant
            i <= calls.len(),
            out@.len() == i,
            forall|k: int| 0 <= k < i ==> out@[k]@ == calls@[k]@,
        decreases calls.len() - i,
    {
        out.push(calls[i].clone());
        i += 1;
    }
    proof {
        assert(calls_view(out@) =~= calls_view(calls@));
    }
    out
}

impl Clone for Message {
    fn clone(&self) -> (r: Self)
        ensures
            r@ == self@,
    {
        Message {
            role: self.role,
            content: self.content.clone(),
            tool_calls: match &self.tool_calls {
                Some(calls) => Some(clone_calls(calls)),
                None => None,
            },
            tool_call_id: match &self.tool_call_id {
                Some(id) => Some(id.clone()),
                None => None,
            },
        }
    }
}

/// Clones a history; the models of the copy equal the models of the original.
pub fn clone_history(h: &Vec<Message>) -> (r: Vec<Message>)
    ensures
        history_view(r@) == history_view(h@),
{
    let mut out: Vec<Message> = Vec::new();
    let mut i: usize = 0;
    while i < h.len()
        invariant
            i <= h.len(),
            out@.len() == i,
            forall|k: int| 0 <= k < i ==> out@[k]@ == h@[k]@,
        decreases h.len() - i,
    {
        out.push(h[i].clone());
        i += 1;
    }
    proof {
        assert(history_view(out@) =~= history_view(h@));
    }
    out
}

/// Builds a plain content message carrying no tool linkage.
pub fn plain_message(role: Role, content: String) -> (r: Message)
    ensures
        r@ == (MessageView { role, content: content@, tool_calls: None, tool_call_id: None }),
{
    Message { role, content, tool_calls: None, tool_call_id: None }
}

/// Replaces every system message with one enriched system message at the
/// top: the remaining turns keep their order.
pub fn replace_system_messages(messages: &mut Vec<Message>, system_content: String)
    ensures
        history_view(final(messages)@) == seq![
            MessageView {
                role: Role::System,
                content: system_content@,
                tool_calls: None,
                tool_call_id: None,
            },
        ] + history_view(old(messages)@).filter(|m: MessageView| m.role != Role::System),
{
    let ghost h = history_view(old(messages)@);
    let ghost pred = |m: MessageView| m.role != Role::System;
    let n = messages.len();
    let mut out: Vec<Message> = Vec::new();
    out.push(plain_message(Role::System, system_content));
    let ghost sys = out@[0]@;
    let mut i: usize = 0;
    proof {
        assert(history_view(out@) =~= seq![sys] + h.take(0).filter(pred));
    }
    while i < n
        invariant
            i <= n,
            n == messages@.len(),
            messages@ == old(messages)@,
            h == history_view(messages@),
            sys == (MessageView {
                role: Role::System,
                content: out@[0]@.content,
                tool_calls: None,
                tool_call_id: None,
            }),
            out@.len() >= 1,
            history_view(out@) == seq![sys] + h.take(i as int).filter(pred),
            pred == (|m: MessageView| m.role != Role::System),
        decreases n - i,
    {
        let ghost prefix = h.take(i as int);
        proof {
            reveal(Seq::filter);
            assert(h.take(i + 1).drop_last() =~= prefix);
            assert(h.take(i + 1).last() == h[i as int]);
        }
        if !matches!(messages[i].role, Role::System) {
            let ghost before_out = out@;
            let m2 = messages[i].clone();
            proof {
                assert(m2@ == h[i as int]);
            }
            out.push(m2);
            proof {
                assert(out@.drop_last() =~= before_out);
                assert(history_view(out@) =~= history_view(before_out).push(h[i as int]));
                assert(history_view(out@) =~= seq![sys] + prefix.filter(pred).push(h[i as int]));
                assert(pred(h[i as int]));
                assert(h.take(i + 1).filter(pred) =~= prefix.filter(pred).push(h[i as int]));
            }
        } else {
            proof {
                assert(history_view(out@) =~= seq![sys] + h.take(i + 1).filter(pred));
            }
        }
        i += 1;
    }
    proof {
        assert(h.take(n as int) =~= h);
    }
    *messages = out;
}

/// The suffix appended when a context block is clipped.
pub open spec fn truncation_suffix() -> Seq<char> {
    "... [Context Truncated]"@
}

/// Clips a context block to at most `max_chars` characters, marking the cut;
/// shorter text passes through unchanged.
pub fn clip_context(text: &str, max_chars: usize) -> (r: String)
    ensures
        text@.len() <= max_chars ==> r@ == text@,
        text@.len() > max_chars ==> r@ == text@.take(max_chars as int) + truncation_suffix(),
{
    let n = text.unicode_len();
    if n <= max_chars {
        return text.to_owned();
    }
    let mut r = text.substring_char(0, max_chars).to_owned();
    r.append("... [Context Truncated]");
    proof {
        assert(text@.subrange(0, max_chars as int) =~= text@.take(max_chars as int));
    }
    r
}

/// Builds the tool-role message carrying one call's result text.
pub fn tool_result_message(call_id: String, result_text: String) -> (r: Message)
    ensures
        r@ == (MessageView {
            role: Role::Tool,
            content: result_text@,
            tool_calls: None,
            tool_call_id: Some(call_id@),
        }),
{
    Message {
        role: Role::Tool,
        content: result_text,
        tool_calls: None,
        tool_call_id: Some(call_id),
    }
}

} // verus!
