//! Retrieval and host-info data types, and the verified text assembly around
//! them: search hits, retrieved chunks, the XML context block handed to the
//! model, and the static host capability stubs.

use vstd::prelude::*;
use vstd::string::StrSliceExecFns;
use vstd::string::StringExecFns;
use crate::prompts::{is_ws, is_ws_exec};
use crate::strutil::{dec_rep, u64_to_dec};

verus! {

/// One text chunk of the retrieval index.
#[derive(Debug)]
pub struct Chunk {
    pub id: String,
    pub path: String,
    pub content: String,
}

/// Mathematical model of a `Chunk`.
pub struct ChunkView {
    pub id: Seq<char>,
    pub path: Seq<char>,
    pub content: Seq<char>,
}

impl View for Chunk {
    type V = ChunkView;

    open spec fn view(&self) -> ChunkView {
        ChunkView { id: self.id@, path: self.path@, content: self.content@ }
    }
}

/// One keyword-search hit.
#[derive(Debug)]
pub struct MatchResult {
    pub path: String,
    pub line_number: u64,
    pub content: String,
}

/// Mathematical model of a `MatchResult`.
pub struct MatchResultView {
    pub path: Seq<char>,
    pub line_number: u64,
    pub content: Seq<char>,
}

impl View for MatchResult {
    type V = MatchResultView;

    open spec fn view(&self) -> MatchResultView {
        MatchResultView { path: self.path@, line_number: self.line_number, content: self.content@ }
    }
}

/// The chunk a keyword hit becomes: its id names the path and line.
pub open spec fn keyword_chunk_spec(m: MatchResultView) -> ChunkView {
    ChunkView {
        id: m.path + "::L"@ + dec_rep(m.line_number as nat),
        path: m.path,
        content: m.content,
    }
}

/// Turns keyword-search hits into chunks, keeping at most the first five.
pub fn keyword_chunks(matches: &Vec<MatchResult>) -> (r: Vec<Chunk>)
    ensures
        r@.len() == if matches@.len() < 5 {
            matches@.len()
        } else {
            5nat
        },
        forall|k: int| 0 <= k < r@.len() ==> r@[k]@ == keyword_chunk_spec(#[trigger] matches@[k]@),
{
    let mut r: Vec<Chunk> = Vec::new();
    let n = if matches.len() < 5 {
        matches.len()
    } else {
        5
    };
    let mut k: usize = 0;
    while k < n
        invariant
            n <= matches@.len(),
            k <= n,
            r@.len() == k,
            forall|j: int| 0 <= j < k ==> r@[j]@ == keyword_chunk_spec(#[trigger] matches@[j]@),
        decreases n - k,
    {
        let m = &matches[k];
        let mut id = m.path.clone();
        id.append("::L");
        let line = u64_to_dec(m.line_number);
        id.append(line.as_str());
        r.push(Chunk { id, path: m.path.clone(), content: m.content.clone() });
        k += 1;
    }
    r
}

/// The length of the longest white-space suffix.
pub open spec fn ws_suffix_len(s: Seq<char>) -> int
    decreases s.len(),
{
    if s.len() > 0 && is_ws(s.last()) {
        1 + ws_suffix_len(s.drop_last())
    } else {
        0
    }
}

/// The string with white space removed from both ends.
pub open spec fn trim_spec(s: Seq<char>) -> Seq<char> {
    let t = s.subrange(crate::prompts::ws_prefix_len(s), s.len() as int);
    t.subrange(0, t.len() - ws_suffix_len(t))
}

proof fn lemma_ws_suffix_len(s: Seq<char>, m: int)
    requires
        0 <= m <= s.len(),
        forall|k: int| m <= k < s.len() ==> is_ws(#[trigger] s[k]),
        m == 0 || !is_ws(s[m - 1]),
    ensures
        ws_suffix_len(s) == s.len() - m,
    decreases s.len() - m,
{
    if m < s.len() {
        assert(is_ws(s.last()));
        lemma_ws_suffix_len(s.drop_last(), m);
    }
}

/// Removes white space from both ends of a string.
pub fn trim_exec(s: &str) -> (r: String)
    ensures
        r@ == trim_spec(s@),
{
    let n = s.unicode_len();
    let mut b: usize = 0;
    while b < n && is_ws_exec(s.get_char(b))
        invariant
            b <= n,
            n == s@.len(),
            forall|k: int| 0 <= k < b ==> is_ws(#[trigger] s@[k]),
        decreases n - b,
    {
        b += 1;
    }
    proof {
        crate::prompts::lemma_ws_prefix_len(s@, b as int);
    }
    let mut e: usize = n;
    while e > b && is_ws_exec(s.get_char(e - 1))
        invariant
            b <= e <= n,
            n == s@.len(),
            forall|k: int| e <= k < n ==> is_ws(#[trigger] s@[k]),
        decreases e,
    {
        e -= 1;
    }
    let ghost t = s@.subrange(b as int, n as int);
    proof {
        assert forall|k: int| e - b <= k < t.len() implies is_ws(#[trigger] t[k]) by {
            assert(t[k] == s@[b + k]);
        }
        if e > b {
            assert(t[e - b - 1] == s@[e - 1]);
        }
        lemma_ws_suffix_len(t, e - b);
    }
    let r = s.substring_char(b, e);
    proof {
        assert(r@ =~= t.subrange(0, t.len() - ws_suffix_len(t)));
    }
    r.to_owned()
}

/// The XML element one retrieved chunk contributes to the context block.
pub open spec fn chunk_xml(c: ChunkView) -> Seq<char> {
    "  <file path=\""@ + c.path + "\">\n    "@ + trim_spec(c.content) + "\n  </file>\n"@
}

/// The chunk elements in order.
pub open spec fn chunks_xml(chunks: Seq<ChunkView>) -> Seq<char>
    decreases chunks.len(),
{
    if chunks.len() == 0 {
        Seq::empty()
    } else {
        chunks_xml(chunks.drop_last()) + chunk_xml(chunks.last())
    }
}

/// The models of a chunk list.
pub open spec fn chunks_view(v: Seq<Chunk>) -> Seq<ChunkView> {
    v.map_values(|c: Chunk| c@)
}

/// The grounding context handed to the model: at most the first ten chunks,
/// each as a file element with trimmed content, inside a context element.
pub open spec fn context_xml_spec(chunks: Seq<ChunkView>) -> Seq<char> {
    let taken = if chunks.len() <= 10 {
        chunks
    } else {
        chunks.take(10)
    };
    "<context>\n"@ + chunks_xml(taken) + "</context>"@
}

/// Assembles the grounding context block from retrieved chunks.
pub fn build_context(chunks: &Vec<Chunk>) -> (r: String)
    ensures
        r@ == context_xml_spec(chunks_view(chunks@)),
{
    let mut out = String::from_str("<context>\n");
    let n = if chunks.len() <= 10 {
        chunks.len()
    } else {
        10
    };
    let ghost taken = if chunks_view(chunks@).len() <= 10 {
        chunks_view(chunks@)
    } else {
        chunks_view(chunks@).take(10)
    };
    proof {
        assert(taken =~= chunks_view(chunks@).take(n as int));
        assert(chunks_view(chunks@).take(0int) =~= Seq::<ChunkView>::empty());
    }
    let mut k: usize = 0;
    while k < n
        invariant
            n <= chunks@.len(),
            k <= n,
            taken == chunks_view(chunks@).take(n as int),
            out@ == "<context>\n"@ + chunks_xml(chunks_view(chunks@).take(k as int)),
        decreases n - k,
    {
        let c = &chunks[k];
        let ghost prefix = chunks_view(chunks@).take(k as int);
        out.append("  <file path=\"");
        out.append(c.path.as_str());
        out.append("\">\n    ");
        let trimmed = trim_exec(c.content.as_str());
        out.append(trimmed.as_str());
        out.append("\n  </file>\n");
        proof {
            let next = chunks_view(chunks@).take(k + 1);
            assert(next.drop_last() =~= prefix);
            assert(next.last() == chunks@[k as int]@);
            assert(out@ =~= "<context>\n"@ + chunks_xml(next));
        }
        k += 1;
    }
    out.append("</context>");
    proof {
        assert(out@ =~= context_xml_spec(chunks_view(chunks@)));
    }
    out
}

/// What is known of the host GPU.
#[derive(Debug)]
pub struct GpuInfo {
    pub name: String,
    pub vendor: String,
    pub memory_total: Option<u64>,
}

/// Reports the host GPU; no probe is performed, so the generic placeholder
/// is returned.
pub fn detect_gpu_info() -> (r: Result<GpuInfo, String>)
    ensures
        r matches Ok(g) && g.name@ == "Unknown GPU"@ && g.vendor@ == "Unknown"@ && g.memory_total
            is None,
{
    Ok(
        GpuInfo {
            name: String::from_str("Unknown GPU"),
            vendor: String::from_str("Unknown"),
            memory_total: None,
        },
    )
}

/// Reports whether the host runs on battery; no probe is performed, so mains
/// power is assumed.
pub fn is_on_battery() -> (r: Result<bool, String>)
    ensures
        r == Ok::<bool, String>(false),
{
    Ok(false)
}

} // verus!
