//! The tool dispatcher: maps a tool name and an argument payload to a
//! sandboxed filesystem operation, confined to the project root.
//!
//! The filesystem itself is a collaborator supplied by the host through
//! [`FsCollaborator`]; everything decided here — argument extraction and
//! aliases, defaults, the unknown-tool failure, and the sandbox gate — is
//! verified.

use vstd::prelude::*;
use vstd::string::StrSliceExecFns;
use vstd::string::StringExecFns;
use crate::sandbox::path_escapes;
use crate::strutil::{str_eq, concat3};

verus! {

/// The string-typed arguments a tool call's payload may carry; each is
/// present when the payload is a JSON object with a string at that key.
#[derive(Debug)]
pub struct ToolArgs {
    pub rel_path: Option<String>,
    pub file_path: Option<String>,
    pub dir_path: Option<String>,
    pub content: Option<String>,
}

/// Mathematical model of `ToolArgs`.
pub struct ToolArgsView {
    pub rel_path: Option<Seq<char>>,
    pub file_path: Option<Seq<char>>,
    pub dir_path: Option<Seq<char>>,
    pub content: Option<Seq<char>>,
}

impl View for ToolArgs {
    type V = ToolArgsView;

    open spec fn view(&self) -> ToolArgsView {
        ToolArgsView {
            rel_path: crate::messages::opt_str_view(self.rel_path),
            file_path: crate::messages::opt_str_view(self.file_path),
            dir_path: crate::messages::opt_str_view(self.dir_path),
            content: crate::messages::opt_str_view(self.content),
        }
    }
}

/// The arguments extracted from a tool-call payload: the error is the JSON
/// parser's message for a malformed payload; otherwise, for each known key,
/// the string value at that key if the payload is an object holding one.
pub uninterp spec fn tool_args_of(payload: Seq<char>) -> Result<ToolArgsView, Seq<char>>;

/// Relies on `serde_json::from_str` to parse the payload and on
/// `serde_json::Value::get` / `Value::as_str` to extract the string value at
/// each known argument key; the outcome is a function of the payload alone.
#[verifier::external_body]
pub fn parse_tool_args(payload: &str) -> (r: Result<ToolArgs, String>)
    ensures
        r matches Ok(a) ==> tool_args_of(payload@) matches Ok(v) && a@ == v,
        r matches Err(e) ==> tool_args_of(payload@) matches Err(v) && e@ == v,
{
    let v: serde_json::Value = match serde_json::from_str(payload) {
        Ok(v) => v,
        Err(e) => return Err(e.to_string()),
    };
    Ok(ToolArgs {
        rel_path: v.get("rel_path").and_then(|x| x.as_str()).map(|s| s.to_string()),
        file_path: v.get("file_path").and_then(|x| x.as_str()).map(|s| s.to_string()),
        dir_path: v.get("dir_path").and_then(|x| x.as_str()).map(|s| s.to_string()),
        content: v.get("content").and_then(|x| x.as_str()).map(|s| s.to_string()),
    })
}

/// One sandboxed filesystem operation a tool call resolves to.
#[derive(Debug)]
pub enum ToolRequest {
    ListDir { rel_path: String },
    ReadFile { rel_path: String },
    WriteFile { rel_path: String, content: String },
}

/// Mathematical model of a `ToolRequest`.
pub enum ToolRequestView {
    ListDir { rel_path: Seq<char> },
    ReadFile { rel_path: Seq<char> },
    WriteFile { rel_path: Seq<char>, content: Seq<char> },
}

impl View for ToolRequest {
    type V = ToolRequestView;

    open spec fn view(&self) -> ToolRequestView {
        match self {
            ToolRequest::ListDir { rel_path } => ToolRequestView::ListDir { rel_path: rel_path@ },
            ToolRequest::ReadFile { rel_path } => ToolRequestView::ReadFile {
                rel_path: rel_path@,
            },
            ToolRequest::WriteFile { rel_path, content } => ToolRequestView::WriteFile {
                rel_path: rel_path@,
                content: content@,
            },
        }
    }
}

/// The first present string, or the default.
pub open spec fn first_or(
    a: Option<Seq<char>>,
    b: Option<Seq<char>>,
    dflt: Seq<char>,
) -> Seq<char> {
    match a {
        Some(x) => x,
        None => match b {
            Some(y) => y,
            None => dflt,
        },
    }
}

/// The string when present, or the default.
pub open spec fn present_or(a: Option<Seq<char>>, dflt: Seq<char>) -> Seq<char> {
    match a {
        Some(x) => x,
        None => dflt,
    }
}

/// The failure text for a tool that is not in the dispatcher's set.
pub open spec fn unknown_tool_error(name: Seq<char>) -> Seq<char> {
    "Tool "@ + name + " not implemented or allowed in Agent System"@
}

/// The operation a tool name and its extracted arguments resolve to.
///
/// A file read takes `rel_path`, accepting `file_path` as an alias, and
/// defaults to the empty path; a directory listing takes `rel_path`,
/// accepting `dir_path` as an alias, and defaults to the current directory;
/// a file write takes `rel_path` and `content`, each defaulting to empty.
/// Any other name is the unknown-tool failure.
pub open spec fn plan_spec(name: Seq<char>, a: ToolArgsView) -> Result<ToolRequestView, Seq<char>> {
    if name == "agent_read_file"@ {
        Ok(ToolRequestView::ReadFile { rel_path: first_or(a.rel_path, a.file_path, ""@) })
    } else if name == "agent_list_dir"@ {
        Ok(ToolRequestView::ListDir { rel_path: first_or(a.rel_path, a.dir_path, "."@) })
    } else if name == "agent_write_file"@ {
        Ok(
            ToolRequestView::WriteFile {
                rel_path: present_or(a.rel_path, ""@),
                content: present_or(a.content, ""@),
            },
        )
    } else {
        Err(unknown_tool_error(name))
    }
}

fn pick_or(a: &Option<String>, b: &Option<String>, dflt: &str) -> (r: String)
    ensures
        r@ == first_or(crate::messages::opt_str_view(*a), crate::messages::opt_str_view(*b), dflt@),
{
    match a {
        Some(x) => x.clone(),
        None => match b {
            Some(y) => y.clone(),
            None => dflt.to_owned(),
        },
    }
}

fn pick_one_or(a: &Option<String>, dflt: &str) -> (r: String)
    ensures
        r@ == present_or(crate::messages::opt_str_view(*a), dflt@),
{
    match a {
        Some(x) => x.clone(),
        None => dflt.to_owned(),
    }
}

/// Resolves a tool name and extracted arguments to the operation to perform.
pub fn plan_tool_call(tool_name: &str, args: &ToolArgs) -> (r: Result<ToolRequest, String>)
    ensures
        r matches Ok(req) ==> plan_spec(tool_name@, args@) == Ok::<ToolRequestView, Seq<char>>(
            req@,
        ),
        r matches Err(e) ==> plan_spec(tool_name@, args@) == Err::<ToolRequestView, Seq<char>>(e@),
{
    if str_eq(tool_name, "agent_read_file") {
        Ok(ToolRequest::ReadFile { rel_path: pick_or(&args.rel_path, &args.file_path, "") })
    } else if str_eq(tool_name, "agent_list_dir") {
        Ok(ToolRequest::ListDir { rel_path: pick_or(&args.rel_path, &args.dir_path, ".") })
    } else if str_eq(tool_name, "agent_write_file") {
        Ok(
            ToolRequest::WriteFile {
                rel_path: pick_one_or(&args.rel_path, ""),
                content: pick_one_or(&args.content, ""),
            },
        )
    } else {
        Err(concat3("Tool ", tool_name, " not implemented or allowed in Agent System"))
    }
}

/// The filesystem collaborator: performs sandboxed file operations against a
/// project root. Hosts and tests supply implementations; nothing here is
/// assumed about their behaviour, so the dispatcher handles every outcome.
pub trait FsCollaborator {
    /// Lists the entry names of a directory under the root.
    fn list_dir(&mut self, root: &str, rel_path: &str) -> Result<Vec<String>, String>;

    /// Reads a file under the root as text.
    fn read_file(&mut self, root: &str, rel_path: &str) -> Result<String, String>;

    /// Creates or overwrites a file under the root, returning a success
    /// marker.
    fn write_file(&mut self, root: &str, rel_path: &str, content: &str) -> Result<String, String>;
}

/// The views of the strings in a sequence.
pub open spec fn strs_views(v: Seq<String>) -> Seq<Seq<char>> {
    v.map_values(|s: String| s@)
}

/// The entries joined by newlines.
pub open spec fn joined_lines(v: Seq<Seq<char>>) -> Seq<char>
    decreases v.len(),
{
    if v.len() == 0 {
        Seq::empty()
    } else if v.len() == 1 {
        v[0]
    } else {
        joined_lines(v.drop_last()) + seq!['\n'] + v.last()
    }
}

/// Joins directory entries with newlines, as the listing tool returns them.
pub fn join_lines(v: &Vec<String>) -> (r: String)
    ensures
        r@ == joined_lines(strs_views(v@)),
{
    proof {
        reveal_strlit("\n");
    }
    if v.len() == 0 {
        let r = String::new();
        proof {
            assert(r@ =~= joined_lines(strs_views(v@)));
        }
        return r;
    }
    let mut s: String = v[0].clone();
    let mut i: usize = 1;
    proof {
        assert(strs_views(v@).take(1) =~= seq![v@[0]@]);
        assert(joined_lines(strs_views(v@).take(1)) == v@[0]@);
    }
    while i < v.len()
        invariant
            1 <= i <= v@.len(),
            s@ == joined_lines(strs_views(v@).take(i as int)),
        decreases v@.len() - i,
    {
        let ghost prefix = strs_views(v@).take(i as int);
        s.append("\n");
        s.append(v[i].as_str());
        proof {
            reveal_strlit("\n");
            let next = strs_views(v@).take(i + 1);
            assert(next.drop_last() =~= prefix);
            assert(next.last() == v@[i as int]@);
            assert(s@ =~= joined_lines(prefix) + seq!['\n'] + v@[i as int]@);
        }
        i += 1;
    }
    proof {
        assert(strs_views(v@).take(v@.len() as int) =~= strs_views(v@));
    }
    s
}

/// The failure text for a path that leaves the sandbox.
pub open spec fn sandbox_error(rel_path: Seq<char>) -> Seq<char> {
    "Path "@ + rel_path + " escapes the project root"@
}

/// Executes one tool call against the filesystem collaborator.
///
/// An unknown tool name fails with the unknown-tool text; a resolved path
/// that escapes the project root fails with the sandbox text and the
/// collaborator is not consulted; otherwise the matching collaborator
/// operation runs, a directory listing's entries are joined with newlines,
/// and any collaborator failure is returned as this call's failure.
pub fn execute_tool_internal<F: FsCollaborator>(
    fs: &mut F,
    tool_name: &str,
    args: &ToolArgs,
    project_root: &str,
) -> (r: Result<String, String>)
    ensures
        plan_spec(tool_name@, args@) matches Err(e) ==> (r matches Err(msg) && msg@ == e),
        plan_spec(tool_name@, args@) matches Ok(req) ==> (path_escapes(req_rel_path(req)) ==> (
        r matches Err(msg) && msg@ == sandbox_error(req_rel_path(req)))),
{
    let req = match plan_tool_call(tool_name, args) {
        Ok(req) => req,
        Err(e) => {
            return Err(e);
        },
    };
    match req {
        ToolRequest::ListDir { rel_path } => {
            if !crate::sandbox::path_stays_in_root(rel_path.as_str()) {
                return Err(concat3("Path ", rel_path.as_str(), " escapes the project root"));
            }
            match fs.list_dir(project_root, rel_path.as_str()) {
                Ok(entries) => Ok(join_lines(&entries)),
                Err(e) => Err(e),
            }
        },
        ToolRequest::ReadFile { rel_path } => {
            if !crate::sandbox::path_stays_in_root(rel_path.as_str()) {
                return Err(concat3("Path ", rel_path.as_str(), " escapes the project root"));
            }
            fs.read_file(project_root, rel_path.as_str())
        },
        ToolRequest::WriteFile { rel_path, content } => {
            if !crate::sandbox::path_stays_in_root(rel_path.as_str()) {
                return Err(concat3("Path ", rel_path.as_str(), " escapes the project root"));
            }
            fs.write_file(project_root, rel_path.as_str(), content.as_str())
        },
    }
}

/// The relative path a resolved tool request will touch.
pub open spec fn req_rel_path(req: ToolRequestView) -> Seq<char> {
    match req {
        ToolRequestView::ListDir { rel_path } => rel_path,
        ToolRequestView::ReadFile { rel_path } => rel_path,
        ToolRequestView::WriteFile { rel_path, content } => rel_path,
    }
}

} // verus!
