//! Verified serialization of a conversation into the provider's wire format:
//! a JSON request body holding the model identifier, the message history,
//! the streaming flag, and optionally the tool schema.

use vstd::prelude::*;
use vstd::string::StrSliceExecFns;
use vstd::string::StringExecFns;
use crate::messages::{Message, MessageView, Role, ToolCallView, calls_view, history_view};

verus! {

/// The lowercase hex digit for a value below sixteen.
pub open spec fn hexdig(d: int) -> char {
    if d < 10 {
        ((48 + d) as u8) as char
    } else {
        ((87 + d) as u8) as char
    }
}

/// The JSON escaping of one character.
pub open spec fn esc_char(c: char) -> Seq<char> {
    if c == '"' {
        seq!['\\', '"']
    } else if c == '\\' {
        seq!['\\', '\\']
    } else if c == '\n' {
        seq!['\\', 'n']
    } else if c == '\r' {
        seq!['\\', 'r']
    } else if c == '\t' {
        seq!['\\', 't']
    } else if (c as u32) < 0x20 {
        seq!['\\', 'u', '0', '0', hexdig(c as int / 16), hexdig(c as int % 16)]
    } else {
        seq![c]
    }
}

/// The JSON escaping of a string's characters.
pub open spec fn json_escaped(s: Seq<char>) -> Seq<char>
    decreases s.len(),
{
    if s.len() == 0 {
        Seq::empty()
    } else {
        json_escaped(s.drop_last()) + esc_char(s.last())
    }
}

/// A JSON string literal: the escaped characters between double quotes.
pub open spec fn json_str_lit(s: Seq<char>) -> Seq<char> {
    seq!['"'] + json_escaped(s) + seq!['"']
}

/// Relies on `String::push`: appends exactly one character.
#[verifier::external_body]
fn push_char(s: &mut String, c: char)
    ensures
        final(s)@ == old(s)@ + seq![c],
{
    s.push(c);
}

fn hex_digit(d: u32) -> (r: char)
    requires
        d < 16,
    ensures
        r == hexdig(d as int),
{
    if d < 10 {
        (48 + d as u8) as char
    } else {
        (87 + d as u8) as char
    }
}

fn esc_char_into(out: &mut String, c: char)
    ensures
        final(out)@ == old(out)@ + esc_char(c),
{
    if c == '"' {
        push_char(out, '\\');
        push_char(out, '"');
    } else if c == '\\' {
        push_char(out, '\\');
        push_char(out, '\\');
    } else if c == '\n' {
        push_char(out, '\\');
        push_char(out, 'n');
    } else if c == '\r' {
        push_char(out, '\\');
        push_char(out, 'r');
    } else if c == '\t' {
        push_char(out, '\\');
        push_char(out, 't');
    } else if (c as u32) < 0x20 {
        push_char(out, '\\');
        push_char(out, 'u');
        push_char(out, '0');
        push_char(out, '0');
        push_char(out, hex_digit(c as u32 / 16));
        push_char(out, hex_digit(c as u32 % 16));
        proof {
            assert(final(out)@ =~= old(out)@ + esc_char(c));
        }
    } else {
        push_char(out, c);
    }
    proof {
        assert(final(out)@ =~= old(out)@ + esc_char(c));
    }
}

fn json_escape_into(out: &mut String, s: &str)
    ensures
        final(out)@ == old(out)@ + json_escaped(s@),
{
    let n = s.unicode_len();
    let mut i: usize = 0;
    proof {
        assert(s@.take(0) =~= Seq::<char>::empty());
    }
    while i < n
        invariant
            n == s@.len(),
            i <= n,
            out@ == old(out)@ + json_escaped(s@.take(i as int)),
        decreases n - i,
    {
        let c = s.get_char(i);
        esc_char_into(out, c);
        proof {
            let next = s@.take(i + 1);
            assert(next.drop_last() =~= s@.take(i as int));
            assert(next.last() == s@[i as int]);
            assert(out@ =~= old(out)@ + json_escaped(next));
        }
        i += 1;
    }
    proof {
        assert(s@.take(n as int) =~= s@);
    }
}

/// Appends the JSON string literal for `s`.
fn append_json_str(out: &mut String, s: &str)
    ensures
        final(out)@ == old(out)@ + json_str_lit(s@),
{
    push_char(out, '"');
    json_escape_into(out, s);
    push_char(out, '"');
    proof {
        assert(final(out)@ =~= old(out)@ + json_str_lit(s@));
    }
}

/// The wire name of a message role.
pub open spec fn role_str(r: Role) -> Seq<char> {
    match r {
        Role::System => "system"@,
        Role::User => "user"@,
        Role::Assistant => "assistant"@,
        Role::Tool => "tool"@,
    }
}

fn role_name(r: Role) -> (s: &'static str)
    ensures
        s@ == role_str(r),
{
    match r {
        Role::System => "system",
        Role::User => "user",
        Role::Assistant => "assistant",
        Role::Tool => "tool",
    }
}

/// The wire form of one declared tool call.
pub open spec fn call_json(c: ToolCallView) -> Seq<char> {
    "{\"id\":"@ + json_str_lit(c.id) + ",\"type\":\"function\",\"function\":{\"name\":"@
        + json_str_lit(c.function.name) + ",\"arguments\":"@ + json_str_lit(c.function.arguments)
        + "}}"@
}

/// The elements joined by commas.
pub open spec fn comma_joined(v: Seq<Seq<char>>) -> Seq<char>
    decreases v.len(),
{
    if v.len() == 0 {
        Seq::empty()
    } else if v.len() == 1 {
        v[0]
    } else {
        comma_joined(v.drop_last()) + seq![','] + v.last()
    }
}

/// The wire form of a declared tool-call list.
pub open spec fn calls_json(calls: Seq<ToolCallView>) -> Seq<char> {
    "["@ + comma_joined(calls.map_values(|c: ToolCallView| call_json(c))) + "]"@
}

/// The wire form of one message: role and content always, the tool-call list
/// and the tool-call id only when present.
pub open spec fn msg_json(m: MessageView) -> Seq<char> {
    "{\"role\":"@ + json_str_lit(role_str(m.role)) + ",\"content\":"@ + json_str_lit(m.content) + (
    match m.tool_calls {
        Some(calls) => ",\"tool_calls\":"@ + calls_json(calls),
        None => Seq::<char>::empty(),
    }) + (match m.tool_call_id {
        Some(id) => ",\"tool_call_id\":"@ + json_str_lit(id),
        None => Seq::<char>::empty(),
    }) + "}"@
}

/// The wire form of a history.
pub open spec fn msgs_json(h: Seq<MessageView>) -> Seq<char> {
    "["@ + comma_joined(h.map_values(|m: MessageView| msg_json(m))) + "]"@
}

/// The whole request body: model, messages, the streaming flag, and the
/// tool schema when one is offered.
pub open spec fn request_body_spec(
    model: Seq<char>,
    h: Seq<MessageView>,
    stream: bool,
    tools: Option<Seq<char>>,
) -> Seq<char> {
    "{\"model\":"@ + json_str_lit(model) + ",\"messages\":"@ + msgs_json(h) + ",\"stream\":"@
        + (if stream {
        "true"@
    } else {
        "false"@
    }) + (match tools {
        Some(t) => ",\"tools\":"@ + t,
        None => Seq::<char>::empty(),
    }) + "}"@
}

fn append_call_json(out: &mut String, c: &crate::messages::ToolCall)
    ensures
        final(out)@ == old(out)@ + call_json(c@),
{
    out.append("{\"id\":");
    append_json_str(out, c.id.as_str());
    out.append(",\"type\":\"function\",\"function\":{\"name\":");
    append_json_str(out, c.function.name.as_str());
    out.append(",\"arguments\":");
    append_json_str(out, c.function.arguments.as_str());
    out.append("}}");
    proof {
        assert(final(out)@ =~= old(out)@ + call_json(c@));
    }
}

fn append_calls_json(out: &mut String, calls: &Vec<crate::messages::ToolCall>)
    ensures
        final(out)@ == old(out)@ + calls_json(calls_view(calls@)),
{
    let ghost parts = calls_view(calls@).map_values(|c: ToolCallView| call_json(c));
    out.append("[");
    let mut i: usize = 0;
    while i < calls.len()
        invariant
            i <= calls@.len(),
            parts == calls_view(calls@).map_values(|c: ToolCallView| call_json(c)),
            parts.len() == calls@.len(),
            out@ == old(out)@ + "["@ + comma_joined(parts.take(i as int)),
        decreases calls@.len() - i,
    {
        if i > 0 {
            out.append(",");
            proof {
                reveal_strlit(",");
            }
        }
        let ghost before = out@;
        append_call_json(out, &calls[i]);
        proof {
            let next = parts.take(i + 1);
            assert(next.drop_last() =~= parts.take(i as int));
            assert(next.last() == call_json(calls@[i as int]@));
            if i == 0 {
                assert(comma_joined(next) == call_json(calls@[0]@));
                assert(out@ =~= old(out)@ + "["@ + comma_joined(next));
            } else {
                assert(","@ =~= seq![',']);
                assert(comma_joined(next) == comma_joined(parts.take(i as int)) + seq![',']
                    + call_json(calls@[i as int]@));
                assert(out@ =~= old(out)@ + "["@ + comma_joined(next));
            }
        }
        i += 1;
    }
    out.append("]");
    proof {
        assert(parts.take(calls@.len() as int) =~= parts);
        assert(final(out)@ =~= old(out)@ + calls_json(calls_view(calls@)));
    }
}

fn append_msg_json(out: &mut String, m: &Message)
    ensures
        final(out)@ == old(out)@ + msg_json(m@),
{
    out.append("{\"role\":");
    append_json_str(out, role_name(m.role));
    out.append(",\"content\":");
    append_json_str(out, m.content.as_str());
    match &m.tool_calls {
        Some(calls) => {
            out.append(",\"tool_calls\":");
            append_calls_json(out, calls);
        },
        None => {},
    }
    match &m.tool_call_id {
        Some(id) => {
            out.append(",\"tool_call_id\":");
            append_json_str(out, id.as_str());
        },
        None => {},
    }
    out.append("}");
    proof {
        assert(final(out)@ =~= old(out)@ + msg_json(m@));
    }
}

fn append_msgs_json(out: &mut String, h: &Vec<Message>)
    ensures
        final(out)@ == old(out)@ + msgs_json(history_view(h@)),
{
    let ghost parts = history_view(h@).map_values(|m: MessageView| msg_json(m));
    out.append("[");
    let mut i: usize = 0;
    while i < h.len()
        invariant
            i <= h@.len(),
            parts == history_view(h@).map_values(|m: MessageView| msg_json(m)),
            parts.len() == h@.len(),
            out@ == old(out)@ + "["@ + comma_joined(parts.take(i as int)),
        decreases h@.len() - i,
    {
        if i > 0 {
            out.append(",");
            proof {
                reveal_strlit(",");
            }
        }
        append_msg_json(out, &h[i]);
        proof {
            let next = parts.take(i + 1);
            assert(next.drop_last() =~= parts.take(i as int));
            assert(next.last() == msg_json(h@[i as int]@));
            if i == 0 {
                assert(comma_joined(next) == msg_json(h@[0]@));
                assert(out@ =~= old(out)@ + "["@ + comma_joined(next));
            } else {
                assert(","@ =~= seq![',']);
                assert(comma_joined(next) == comma_joined(parts.take(i as int)) + seq![',']
                    + msg_json(h@[i as int]@));
                assert(out@ =~= old(out)@ + "["@ + comma_joined(next));
            }
        }
        i += 1;
    }
    out.append("]");
    proof {
        assert(parts.take(h@.len() as int) =~= parts);
        assert(final(out)@ =~= old(out)@ + msgs_json(history_view(h@)));
    }
}

/// Serializes one completion request into the provider's wire format.
pub fn build_request_body(model: &str, h: &Vec<Message>, stream: bool, tools: Option<&str>) -> (r:
    String)
    ensures
        r@ == request_body_spec(
            model@,
            history_view(h@),
            stream,
            match tools {
                Some(t) => Some(t@),
                None => None,
            },
        ),
{
    let mut out = String::new();
    out.append("{\"model\":");
    append_json_str(&mut out, model);
    out.append(",\"messages\":");
    append_msgs_json(&mut out, h);
    out.append(",\"stream\":");
    if stream {
        out.append("true");
    } else {
        out.append("false");
    }
    match tools {
        Some(t) => {
            out.append(",\"tools\":");
            out.append(t);
        },
        None => {},
    }
    out.append("}");
    proof {
        assert(out@ =~= request_body_spec(
            model@,
            history_view(h@),
            stream,
            match tools {
                Some(t) => Some(t@),
                None => None,
            },
        ));
    }
    out
}

} // verus!
