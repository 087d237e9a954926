//! The history sanitizer: before a conversation is sent to the completion
//! provider, every assistant message that declares tool calls is filtered
//! down to the calls that actually received a tool-role response in the run
//! of tool messages immediately following it; a message left with no answered
//! calls is demoted to a plain content turn.
//!
//! The pass repairs pairing violations introduced by upstream history editing
//! (for example truncation by summarization) instead of failing on them.

use vstd::prelude::*;
use crate::messages::{Message, MessageView, Role, ToolCall, ToolCallView, calls_view, history_view};
use crate::strutil::{strs_set, contains_str};

verus! {

/// Does this message declare a non-empty batch of tool calls?
pub open spec fn declares_tool_calls(m: MessageView) -> bool {
    &&& m.role == Role::Assistant
    &&& m.tool_calls is Some
    &&& m.tool_calls.unwrap().len() > 0
}

/// The call ids answered by the run of tool-role messages starting at `i`.
pub open spec fn tool_run_ids(h: Seq<MessageView>, i: int) -> Set<Seq<char>>
    decreases h.len() - i,
{
    if i < 0 || i >= h.len() || h[i].role != Role::Tool {
        Set::empty()
    } else {
        let rest = tool_run_ids(h, i + 1);
        match h[i].tool_call_id {
            Some(id) => rest.insert(id),
            None => rest,
        }
    }
}

/// One message after sanitization, given the set of answered ids that follow it.
pub open spec fn sanitize_msg(m: MessageView, answered: Set<Seq<char>>) -> MessageView {
    if declares_tool_calls(m) {
        let kept = m.tool_calls.unwrap().filter(|c: ToolCallView| answered.contains(c.id));
        MessageView {
            role: m.role,
            content: m.content,
            tool_calls: if kept.len() == 0 {
                None
            } else {
                Some(kept)
            },
            tool_call_id: m.tool_call_id,
        }
    } else {
        m
    }
}

/// The whole history after one sanitization pass.
pub open spec fn sanitize_spec(h: Seq<MessageView>) -> Seq<MessageView> {
    Seq::new(h.len(), |i: int| sanitize_msg(h[i], tool_run_ids(h, i + 1)))
}

proof fn lemma_strs_set_push(v: Seq<String>, s: String)
    ensures
        strs_set(v.push(s)) == strs_set(v).insert(s@),
{
    assert forall|x: Seq<char>| strs_set(v).insert(s@).contains(x) implies strs_set(
        v.push(s),
    ).contains(x) by {
        if x == s@ {
            assert(v.push(s)[v.len() as int]@ == x);
        } else {
            let j = choose|j: int| 0 <= j < v.len() && v[j]@ == x;
            assert(v.push(s)[j]@ == x);
        }
    }
    assert forall|x: Seq<char>| strs_set(v.push(s)).contains(x) implies strs_set(v).insert(
        s@,
    ).contains(x) by {
        let j = choose|j: int| 0 <= j < v.push(s).len() && v.push(s)[j]@ == x;
        if j < v.len() {
            assert(v[j]@ == x);
        }
    }
    assert(strs_set(v.push(s)) =~= strs_set(v).insert(s@));
}

/// Collects the ids answered by the tool-role run starting at index `from`.
fn collect_answered(messages: &Vec<Message>, from: usize) -> (ids: Vec<String>)
    requires
        from <= messages@.len(),
    ensures
        strs_set(ids@) == tool_run_ids(history_view(messages@), from as int),
{
    let ghost h = history_view(messages@);
    let n = messages.len();
    let mut ids: Vec<String> = Vec::new();
    let mut j = from;
    while j < n && matches!(messages[j].role, Role::Tool)
        invariant
            from <= j <= n,
            n == messages@.len(),
            h == history_view(messages@),
            tool_run_ids(h, from as int) == strs_set(ids@).union(tool_run_ids(h, j as int)),
            forall|k: int| #![trigger h[k]] from <= k < j ==> h[k].role == Role::Tool,
        decreases n - j,
    {
        proof {
            assert(h[j as int].role == Role::Tool);
        }
        match &messages[j].tool_call_id {
            Some(id) => {
                let ghost old_ids = ids@;
                let id2 = id.clone();
                ids.push(id2);
                proof {
                    lemma_strs_set_push(old_ids, ids@.last());
                    assert(old_ids.push(ids@.last()) =~= ids@);
                    assert(strs_set(ids@) == strs_set(old_ids).insert(id@));
                    assert(tool_run_ids(h, j as int) == tool_run_ids(h, j + 1).insert(
                        h[j as int].tool_call_id.unwrap(),
                    ));
                    assert(strs_set(ids@).union(tool_run_ids(h, j + 1)) =~= strs_set(
                        old_ids,
                    ).union(tool_run_ids(h, j as int)));
                }
            },
            None => {
                proof {
                    assert(tool_run_ids(h, j as int) == tool_run_ids(h, j + 1));
                }
            },
        }
        j += 1;
    }
    proof {
        assert(tool_run_ids(h, j as int) =~= Set::<Seq<char>>::empty());
        assert(strs_set(ids@) =~= strs_set(ids@).union(Set::empty()));
    }
    ids
}

/// Filters one declared call list down to the calls whose id is answered.
fn filter_calls(calls: &Vec<ToolCall>, ids: &Vec<String>) -> (kept: Vec<ToolCall>)
    ensures
        calls_view(kept@) == calls_view(calls@).filter(
            |c: ToolCallView| strs_set(ids@).contains(c.id),
        ),
{
    let ghost pred = |c: ToolCallView| strs_set(ids@).contains(c.id);
    let mut kept: Vec<ToolCall> = Vec::new();
    let mut k: usize = 0;
    while k < calls.len()
        invariant
            k <= calls.len(),
            calls_view(kept@) == calls_view(calls@).take(k as int).filter(pred),
            pred == (|c: ToolCallView| strs_set(ids@).contains(c.id)),
        decreases calls.len() - k,
    {
        let ghost prefix = calls_view(calls@).take(k as int);
        proof {
            reveal(Seq::filter);
            assert(calls_view(calls@).take(k + 1).drop_last() =~= prefix);
            assert(calls_view(calls@).take(k + 1).last() == calls@[k as int]@);
        }
        if contains_str(ids, calls[k].id.as_str()) {
            kept.push(calls[k].clone());
            proof {
                assert(calls_view(kept@) =~= prefix.filter(pred).push(calls@[k as int]@));
            }
        }
        k += 1;
    }
    proof {
        assert(calls_view(calls@).take(calls@.len() as int) =~= calls_view(calls@));
    }
    kept
}

/// Sanitizes a conversation in place.
///
/// For every assistant message that declares tool calls, only the calls whose
/// id received a tool-role response in the immediately following run of tool
/// messages are retained; if none are, the tool-calls annotation is dropped
/// and the message becomes a plain content turn. All other messages are kept
/// unchanged. The pass is a pure function of the history and is idempotent
/// (see [`lemma_sanitize_idempotent`]).
pub fn sanitize_messages(messages: &mut Vec<Message>)
    ensures
        history_view(final(messages)@) == sanitize_spec(history_view(old(messages)@)),
{
    let ghost h = history_view(old(messages)@);
    let n = messages.len();
    let mut out: Vec<Message> = Vec::new();
    let mut i: usize = 0;
    while i < n
        invariant
            i <= n,
            n == messages@.len(),
            messages@ == old(messages)@,
            h == history_view(messages@),
            out@.len() == i,
            forall|k: int|
                0 <= k < i ==> out@[k]@ == #[trigger] sanitize_msg(h[k], tool_run_ids(h, k + 1)),
        decreases n - i,
    {
        let declares = matches!(messages[i].role, Role::Assistant) && match &messages[i].tool_calls {
            Some(calls) => calls.len() > 0,
            None => false,
        };
        if declares {
            let ids = collect_answered(messages, i + 1);
            let kept = match &messages[i].tool_calls {
                Some(calls) => filter_calls(calls, &ids),
                None => Vec::new(),
            };
            let new_calls = if kept.len() == 0 {
                None
            } else {
                Some(kept)
            };
            let m = &messages[i];
            let new_id = match &m.tool_call_id {
                Some(id) => Some(id.clone()),
                None => None,
            };
            out.push(
                Message {
                    role: m.role,
                    content: m.content.clone(),
                    tool_calls: new_calls,
                    tool_call_id: new_id,
                },
            );
        } else {
            let copy = messages[i].clone();
            out.push(copy);
        }
        i += 1;
    }
    *messages = out;
    proof {
        assert(history_view(messages@) =~= sanitize_spec(h));
    }
}

proof fn lemma_tool_run_ids_same(a: Seq<MessageView>, b: Seq<MessageView>, i: int)
    requires
        a.len() == b.len(),
        forall|k: int|
            0 <= k < a.len() ==> (#[trigger] a[k]).role == b[k].role && a[k].tool_call_id
                == b[k].tool_call_id,
    ensures
        tool_run_ids(a, i) == tool_run_ids(b, i),
    decreases a.len() - i,
{
    if 0 <= i < a.len() {
        lemma_tool_run_ids_same(a, b, i + 1);
    }
}

proof fn lemma_filter_all<A>(s: Seq<A>, p: spec_fn(A) -> bool)
    requires
        forall|j: int| 0 <= j < s.len() ==> p(#[trigger] s[j]),
    ensures
        s.filter(p) == s,
    decreases s.len(),
{
    reveal(Seq::filter);
    if s.len() > 0 {
        lemma_filter_all(s.drop_last(), p);
        assert(s.drop_last().push(s.last()) =~= s);
    }
}

proof fn lemma_filter_elem_of<A>(s: Seq<A>, p: spec_fn(A) -> bool, e: A)
    requires
        s.filter(p).contains(e),
    ensures
        s.contains(e),
    decreases s.len(),
{
    reveal(Seq::filter);
    if s.len() > 0 {
        if p(s.last()) && e == s.last() {
            assert(s[s.len() - 1] == e);
        } else {
            if p(s.last()) {
                let k = choose|k: int|
                    0 <= k < s.filter(p).len() && s.filter(p)[k] == e;
                assert(s.drop_last().filter(p).push(s.last())[k] == e);
                assert(s.drop_last().filter(p).contains(e));
            }
            lemma_filter_elem_of(s.drop_last(), p, e);
            let k = choose|k: int| 0 <= k < s.drop_last().len() && s.drop_last()[k] == e;
            assert(s[k] == e);
        }
    }
}

/// Sanitizing an already-sanitized history changes nothing: the pass is
/// idempotent, so running it before every outbound call is always safe.
pub proof fn lemma_sanitize_idempotent(h: Seq<MessageView>)
    ensures
        sanitize_spec(sanitize_spec(h)) == sanitize_spec(h),
{
    let s = sanitize_spec(h);
    assert forall|k: int| 0 <= k < s.len() implies (#[trigger] s[k]).role == h[k].role
        && s[k].tool_call_id == h[k].tool_call_id by {}
    assert forall|i: int| 0 <= i < s.len() implies #[trigger] sanitize_spec(s)[i] == s[i] by {
        lemma_tool_run_ids_same(s, h, i + 1);
        let answered = tool_run_ids(h, i + 1);
        assert(sanitize_spec(s)[i] == sanitize_msg(s[i], answered));
        if declares_tool_calls(h[i]) {
            let pred = |c: ToolCallView| answered.contains(c.id);
            let kept = h[i].tool_calls.unwrap().filter(pred);
            if kept.len() == 0 {
                assert(!declares_tool_calls(s[i]));
            } else {
                assert(s[i].tool_calls == Some(kept));
                assert forall|j: int| 0 <= j < kept.len() implies pred(#[trigger] kept[j]) by {
                    h[i].tool_calls.unwrap().lemma_filter_pred(pred, j);
                }
                lemma_filter_all(kept, pred);
            }
        } else {
            assert(s[i] == h[i]);
        }
    }
    assert(sanitize_spec(s) =~= s);
}

/// The set of call ids declared by a call list.
pub open spec fn ids_of(calls: Seq<ToolCallView>) -> Set<Seq<char>> {
    Set::new(|x: Seq<char>| exists|j: int| 0 <= j < calls.len() && calls[j].id == x)
}

proof fn lemma_ids_of_filter(s: Seq<ToolCallView>, answered: Set<Seq<char>>)
    ensures
        ids_of(s.filter(|c: ToolCallView| answered.contains(c.id))) == ids_of(s).intersect(
            answered,
        ),
{
    let pred = |c: ToolCallView| answered.contains(c.id);
    let kept = s.filter(pred);
    assert forall|x: Seq<char>| ids_of(kept).contains(x) implies ids_of(s).intersect(
        answered,
    ).contains(x) by {
        let j = choose|j: int| 0 <= j < kept.len() && kept[j].id == x;
        s.lemma_filter_pred(pred, j);
        lemma_filter_elem_of(s, pred, kept[j]);
        let k = choose|k: int| 0 <= k < s.len() && s[k] == kept[j];
        assert(s[k].id == x);
    }
    assert forall|x: Seq<char>| ids_of(s).intersect(answered).contains(x) implies ids_of(
        kept,
    ).contains(x) by {
        let j = choose|j: int| 0 <= j < s.len() && s[j].id == x;
        s.lemma_filter_contains(pred, j);
        let k = choose|k: int| 0 <= k < kept.len() && kept[k] == s[j];
        assert(kept[k].id == x);
    }
    assert(ids_of(kept) =~= ids_of(s).intersect(answered));
}

/// The conversation invariant the sanitizer enforces: every tool call an
/// assistant message still declares has a matching response in the run of
/// tool-role messages immediately following it.
pub open spec fn pairing_holds(h: Seq<MessageView>) -> bool {
    forall|i: int|
        0 <= i < h.len() && declares_tool_calls(#[trigger] h[i]) ==> ids_of(
            h[i].tool_calls.unwrap(),
        ).subset_of(tool_run_ids(h, i + 1))
}

/// After one sanitization pass the pairing invariant holds: the history is
/// safe to send onward.
pub proof fn lemma_sanitize_establishes_pairing(h: Seq<MessageView>)
    ensures
        pairing_holds(sanitize_spec(h)),
{
    let s = sanitize_spec(h);
    assert forall|k: int| 0 <= k < s.len() implies (#[trigger] s[k]).role == h[k].role
        && s[k].tool_call_id == h[k].tool_call_id by {}
    assert forall|i: int|
        0 <= i < s.len() && declares_tool_calls(#[trigger] s[i]) implies ids_of(
        s[i].tool_calls.unwrap(),
    ).subset_of(tool_run_ids(s, i + 1)) by {
        lemma_tool_run_ids_same(s, h, i + 1);
        let answered = tool_run_ids(h, i + 1);
        let pred = |c: ToolCallView| answered.contains(c.id);
        assert(declares_tool_calls(h[i]));
        let kept = h[i].tool_calls.unwrap().filter(pred);
        assert(s[i].tool_calls == Some(kept));
        assert forall|x: Seq<char>| ids_of(kept).contains(x) implies answered.contains(x) by {
            let j = choose|j: int| 0 <= j < kept.len() && kept[j].id == x;
            h[i].tool_calls.unwrap().lemma_filter_pred(pred, j);
        }
    }
}

/// Sanitizer completeness: for an assistant message with declared call ids
/// `C` and the set `R` of ids answered by the tool-role run following it, the
/// retained call ids after sanitization are exactly `C` intersected with `R`;
/// if that intersection is empty the message carries no tool-calls annotation
/// afterward.
pub proof fn lemma_sanitize_completeness(h: Seq<MessageView>, i: int)
    requires
        0 <= i < h.len(),
        declares_tool_calls(h[i]),
    ensures
        ({
            let declared = h[i].tool_calls.unwrap();
            let answered = tool_run_ids(h, i + 1);
            let kept = declared.filter(|c: ToolCallView| answered.contains(c.id));
            let after = sanitize_spec(h)[i];
            &&& ids_of(kept) == ids_of(declared).intersect(answered)
            &&& after.tool_calls == (if kept.len() == 0 {
                None::<Seq<ToolCallView>>
            } else {
                Some(kept)
            })
            &&& (ids_of(declared).intersect(answered) == Set::<Seq<char>>::empty()
                <==> after.tool_calls is None)
        }),
{
    let declared = h[i].tool_calls.unwrap();
    let answered = tool_run_ids(h, i + 1);
    let pred = |c: ToolCallView| answered.contains(c.id);
    let kept = declared.filter(pred);
    lemma_ids_of_filter(declared, answered);
    if kept.len() == 0 {
        assert(ids_of(kept) =~= Set::<Seq<char>>::empty());
    } else {
        assert(ids_of(kept).contains(kept[0].id));
        assert(ids_of(kept) != Set::<Seq<char>>::empty());
    }
}

} // verus!
