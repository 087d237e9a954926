//! Prompt templates: a prompt file is a YAML front matter block between
//! `---` delimiters followed by markdown content. The framing grammar, the
//! metadata assembly and the variable collection are verified; the YAML
//! reading and the template rendering call outside crates through trusted
//! items.

use vstd::prelude::*;
use vstd::string::StrSliceExecFns;
use vstd::string::StringExecFns;
use crate::strutil::str_eq;

verus! {

/// Who may use a prompt template.
#[derive(Clone, Copy, Debug, PartialEq, Eq, Structural)]
pub enum AccessTier {
    Public,
    Protected,
    Private,
}

/// The metadata a prompt file's front matter declares.
#[derive(Debug)]
pub struct PromptMetadata {
    pub name: String,
    pub description: String,
    pub version: String,
    pub author: Option<String>,
    pub access_tier: AccessTier,
    pub variables: Vec<String>,
    pub tools: Vec<String>,
}

/// Mathematical model of `PromptMetadata`.
pub struct PromptMetadataView {
    pub name: Seq<char>,
    pub description: Seq<char>,
    pub version: Seq<char>,
    pub author: Option<Seq<char>>,
    pub access_tier: AccessTier,
    pub variables: Seq<Seq<char>>,
    pub tools: Seq<Seq<char>>,
}

impl View for PromptMetadata {
    type V = PromptMetadataView;

    open spec fn view(&self) -> PromptMetadataView {
        PromptMetadataView {
            name: self.name@,
            description: self.description@,
            version: self.version@,
            author: crate::messages::opt_str_view(self.author),
            access_tier: self.access_tier,
            variables: crate::tools::strs_views(self.variables@),
            tools: crate::tools::strs_views(self.tools@),
        }
    }
}

/// A loaded prompt: its metadata, its markdown content, and the file path it
/// came from when stored on disk.
#[derive(Debug)]
pub struct PromptTemplate {
    pub metadata: PromptMetadata,
    pub content: String,
    pub path: Option<String>,
}

/// Whether a character has the Unicode white-space property, as both the
/// leading-trim and the whitespace class of the injection patterns use it.
pub open spec fn is_ws(c: char) -> bool {
    ||| c == '\u{9}'
    ||| c == '\u{A}'
    ||| c == '\u{B}'
    ||| c == '\u{C}'
    ||| c == '\u{D}'
    ||| c == ' '
    ||| c == '\u{85}'
    ||| c == '\u{A0}'
    ||| c == '\u{1680}'
    ||| ('\u{2000}' <= c && c <= '\u{200A}')
    ||| c == '\u{2028}'
    ||| c == '\u{2029}'
    ||| c == '\u{202F}'
    ||| c == '\u{205F}'
    ||| c == '\u{3000}'
}

/// Decides the Unicode white-space property.
pub fn is_ws_exec(c: char) -> (r: bool)
    ensures
        r == is_ws(c),
{
    c == '\u{9}' || c == '\u{A}' || c == '\u{B}' || c == '\u{C}' || c == '\u{D}' || c == ' ' || c
        == '\u{85}' || c == '\u{A0}' || c == '\u{1680}' || ('\u{2000}' <= c && c <= '\u{200A}') || c
        == '\u{2028}' || c == '\u{2029}' || c == '\u{202F}' || c == '\u{205F}' || c == '\u{3000}'
}

/// The length of the longest white-space prefix.
pub open spec fn ws_prefix_len(s: Seq<char>) -> int
    decreases s.len(),
{
    if s.len() > 0 && is_ws(s[0]) {
        1 + ws_prefix_len(s.drop_first())
    } else {
        0
    }
}

/// The string with its white-space prefix removed.
pub open spec fn trim_start_spec(s: Seq<char>) -> Seq<char> {
    s.subrange(ws_prefix_len(s), s.len() as int)
}

pub proof fn lemma_ws_prefix_len(s: Seq<char>, m: int)
    requires
        0 <= m <= s.len(),
        forall|k: int| 0 <= k < m ==> is_ws(#[trigger] s[k]),
        m == s.len() || !is_ws(s[m]),
    ensures
        ws_prefix_len(s) == m,
    decreases m,
{
    if m == 0 {
    } else {
        assert(is_ws(s[0]));
        lemma_ws_prefix_len(s.drop_first(), m - 1);
    }
}

fn ws_prefix_len_exec(s: &str) -> (r: usize)
    ensures
        r == ws_prefix_len(s@),
        r <= s@.len(),
{
    let n = s.unicode_len();
    let mut i: usize = 0;
    while i < n
        invariant
            n == s@.len(),
            i <= n,
            forall|k: int| 0 <= k < i ==> is_ws(#[trigger] s@[k]),
        decreases n - i,
    {
        if !is_ws_exec(s.get_char(i)) {
            proof {
                lemma_ws_prefix_len(s@, i as int);
            }
            return i;
        }
        i += 1;
    }
    proof {
        lemma_ws_prefix_len(s@, n as int);
    }
    n
}

/// The length of the opening front matter delimiter (`---` and a newline) at
/// the start of the trimmed text, or zero when there is none.
pub open spec fn open_len(t: Seq<char>) -> int {
    if t.len() >= 4 && t[0] == '-' && t[1] == '-' && t[2] == '-' {
        if t[3] == '\n' {
            4
        } else if t.len() >= 5 && t[3] == '\r' && t[4] == '\n' {
            5
        } else {
            0
        }
    } else {
        0
    }
}

/// The length of a closing front matter delimiter (a newline, `---`, and a
/// newline) starting at `p`, or zero when none starts there.
pub open spec fn delim_len_at(t: Seq<char>, p: int) -> int {
    if 0 <= p && p + 5 <= t.len() && t[p] == '\n' && t[p + 1] == '-' && t[p + 2] == '-' && t[p + 3]
        == '-' {
        if t[p + 4] == '\n' {
            5
        } else if p + 6 <= t.len() && t[p + 4] == '\r' && t[p + 5] == '\n' {
            6
        } else {
            0
        }
    } else if 0 <= p && p + 7 <= t.len() && t[p] == '\r' && t[p + 1] == '\n' && t[p + 2] == '-' && t[
        p + 3] == '-' && t[p + 4] == '-' {
        if t[p + 5] == '\n' {
            6
        } else if p + 8 <= t.len() && t[p + 5] == '\r' && t[p + 6] == '\n' {
            7
        } else {
            0
        }
    } else {
        0
    }
}

/// The first position at or after `from` where a closing delimiter starts,
/// or a negative value when there is none.
pub open spec fn first_delim(t: Seq<char>, from: int) -> int
    decreases t.len() - from,
{
    if from < 0 || from >= t.len() {
        -1
    } else if delim_len_at(t, from) > 0 {
        from
    } else {
        first_delim(t, from + 1)
    }
}

/// How a prompt file splits into front matter and content: after leading
/// white space the text must open with `---` and a newline; the YAML block
/// runs to the earliest closing delimiter; the rest is the markdown content,
/// still untrimmed.
pub open spec fn frame_of(content: Seq<char>) -> Option<(Seq<char>, Seq<char>)> {
    let t = trim_start_spec(content);
    let ol = open_len(t);
    if ol == 0 {
        None
    } else {
        let p = first_delim(t, ol);
        if p < 0 {
            None
        } else {
            Some((t.subrange(ol, p), t.subrange(p + delim_len_at(t, p), t.len() as int)))
        }
    }
}

proof fn lemma_first_delim_found(t: Seq<char>, from: int, p: int)
    requires
        0 <= from <= p < t.len(),
        forall|q: int| from <= q < p ==> delim_len_at(t, q) == 0,
        delim_len_at(t, p) > 0,
    ensures
        first_delim(t, from) == p,
    decreases p - from,
{
    if from < p {
        lemma_first_delim_found(t, from + 1, p);
    }
}

proof fn lemma_first_delim_none(t: Seq<char>, from: int)
    requires
        0 <= from,
        forall|q: int| from <= q < t.len() ==> delim_len_at(t, q) == 0,
    ensures
        first_delim(t, from) < 0,
    decreases t.len() - from,
{
    if from < t.len() {
        lemma_first_delim_none(t, from + 1);
    }
}

/// A YAML document as `serde_yaml` represents it, carried opaquely between
/// the trusted parse and the trusted field reads.
#[verifier::external_type_specification]
#[verifier::external_body]
pub struct ExYamlValue(serde_yaml::Value);

/// Whether this text is a YAML document the parser accepts.
pub uninterp spec fn yaml_parses(s: Seq<char>) -> bool;

/// Relies on `serde_yaml::from_str::<serde_yaml::Value>`: whether a text
/// parses is a function of the text alone.
#[verifier::external_body]
fn yaml_parse(s: &str) -> (r: Result<serde_yaml::Value, String>)
    ensures
        r is Ok <==> yaml_parses(s@),
{
    serde_yaml::from_str::<serde_yaml::Value>(s).map_err(|e| e.to_string())
}

/// Relies on `serde_yaml::Value::get` and `Value::as_str`: the string value
/// at this key of a mapping, when there is one.
#[verifier::external_body]
fn yaml_str_field(v: &serde_yaml::Value, key: &str) -> Option<String> {
    v.get(key).and_then(|x| x.as_str()).map(|s| s.to_string())
}

/// Relies on `serde_yaml::Value::get`, `Value::as_sequence` and
/// `Value::as_str`: the list of strings at this key of a mapping. `Ok(None)`
/// when the key is absent; the error when it is present but not a sequence
/// of strings.
#[verifier::external_body]
fn yaml_str_list_field(v: &serde_yaml::Value, key: &str) -> Result<Option<Vec<String>>, ()> {
    match v.get(key) {
        None => Ok(None),
        Some(x) => match x.as_sequence() {
            None => Err(()),
            Some(items) => match items.iter().map(
                |it| it.as_str().map(|s| s.to_string()),
            ).collect::<Option<Vec<String>>>() {
                Some(list) => Ok(Some(list)),
                None => Err(()),
            },
        },
    }
}

/// The access tier a front matter string names.
pub open spec fn tier_of_str(s: Seq<char>) -> Option<AccessTier> {
    if s == "public"@ {
        Some(AccessTier::Public)
    } else if s == "protected"@ {
        Some(AccessTier::Protected)
    } else if s == "private"@ {
        Some(AccessTier::Private)
    } else {
        None
    }
}

/// How metadata is assembled from the front matter's fields: `name`,
/// `description`, `version` and a recognized `access_tier` are required;
/// `author` is optional; `variables` and `tools` default to empty lists but
/// are rejected when present with another shape.
pub open spec fn metadata_from_fields_spec(
    name: Option<Seq<char>>,
    description: Option<Seq<char>>,
    version: Option<Seq<char>>,
    author: Option<Seq<char>>,
    access_tier: Option<Seq<char>>,
    variables: Result<Option<Seq<Seq<char>>>, ()>,
    tools: Result<Option<Seq<Seq<char>>>, ()>,
) -> Result<PromptMetadataView, Seq<char>> {
    if name is None {
        Err("missing or non-string field: name"@)
    } else if description is None {
        Err("missing or non-string field: description"@)
    } else if version is None {
        Err("missing or non-string field: version"@)
    } else if access_tier is None {
        Err("missing or non-string field: access_tier"@)
    } else if tier_of_str(access_tier.unwrap()) is None {
        Err("unknown access_tier value"@)
    } else if variables is Err {
        Err("field variables must be a list of strings"@)
    } else if tools is Err {
        Err("field tools must be a list of strings"@)
    } else {
        Ok(
            PromptMetadataView {
                name: name.unwrap(),
                description: description.unwrap(),
                version: version.unwrap(),
                author,
                access_tier: tier_of_str(access_tier.unwrap()).unwrap(),
                variables: variables.unwrap().unwrap_or(Seq::empty()),
                tools: tools.unwrap().unwrap_or(Seq::empty()),
            },
        )
    }
}

/// The model of an optional string list field.
pub open spec fn opt_list_view(v: Result<Option<Vec<String>>, ()>) -> Result<
    Option<Seq<Seq<char>>>,
    (),
> {
    match v {
        Ok(Some(list)) => Ok(Some(crate::tools::strs_views(list@))),
        Ok(None) => Ok(None),
        Err(()) => Err(()),
    }
}

/// Assembles prompt metadata from the front matter's extracted fields.
pub fn metadata_from_fields(
    name: Option<String>,
    description: Option<String>,
    version: Option<String>,
    author: Option<String>,
    access_tier: Option<String>,
    variables: Result<Option<Vec<String>>, ()>,
    tools: Result<Option<Vec<String>>, ()>,
) -> (r: Result<PromptMetadata, String>)
    ensures
        ({
            let spec_r = metadata_from_fields_spec(
                crate::messages::opt_str_view(name),
                crate::messages::opt_str_view(description),
                crate::messages::opt_str_view(version),
                crate::messages::opt_str_view(author),
                crate::messages::opt_str_view(access_tier),
                opt_list_view(variables),
                opt_list_view(tools),
            );
            &&& (r matches Ok(m) ==> (spec_r matches Ok(v) && m@ == v))
            &&& (r matches Err(e) ==> (spec_r matches Err(v) && e@ == v))
        }),
{
    let name = match name {
        Some(x) => x,
        None => {
            return Err(String::from_str("missing or non-string field: name"));
        },
    };
    let description = match description {
        Some(x) => x,
        None => {
            return Err(String::from_str("missing or non-string field: description"));
        },
    };
    let version = match version {
        Some(x) => x,
        None => {
            return Err(String::from_str("missing or non-string field: version"));
        },
    };
    let tier_str = match access_tier {
        Some(x) => x,
        None => {
            return Err(String::from_str("missing or non-string field: access_tier"));
        },
    };
    let access_tier = if str_eq(tier_str.as_str(), "public") {
        AccessTier::Public
    } else if str_eq(tier_str.as_str(), "protected") {
        AccessTier::Protected
    } else if str_eq(tier_str.as_str(), "private") {
        AccessTier::Private
    } else {
        return Err(String::from_str("unknown access_tier value"));
    };
    let variables = match variables {
        Ok(Some(list)) => list,
        Ok(None) => Vec::new(),
        Err(()) => {
            return Err(String::from_str("field variables must be a list of strings"));
        },
    };
    let tools = match tools {
        Ok(Some(list)) => list,
        Ok(None) => Vec::new(),
        Err(()) => {
            return Err(String::from_str("field tools must be a list of strings"));
        },
    };
    proof {
        assert(crate::tools::strs_views(Seq::<String>::empty()) =~= Seq::<Seq<char>>::empty());
    }
    Ok(PromptMetadata { name, description, version, author, access_tier, variables, tools })
}

/// The rejection text for a file that does not open with a front matter
/// block.
pub open spec fn invalid_format_text() -> Seq<char> {
    "Invalid prompt format: File must start with a YAML front matter block delimited by ---"@
}

/// The prefix of the rejection text for front matter whose YAML is refused.
pub open spec fn yaml_failed_prefix() -> Seq<char> {
    "YAML validation failed. Please check your metadata format (--- block). Detail: "@
}

/// Splits a prompt file into its metadata and its markdown content.
///
/// After leading white space the file must open with `---` and a newline;
/// the YAML block runs to the earliest line holding only `---`; the metadata
/// is assembled from the block's fields and the returned content is the rest
/// of the file with leading white space removed.
pub fn parse_front_matter(content: &str) -> (r: Result<(PromptMetadata, String), String>)
    ensures
        frame_of(content@) is None ==> (r matches Err(e) && e@ == invalid_format_text()),
        frame_of(content@) matches Some(f) ==> {
            &&& (!yaml_parses(f.0) ==> r is Err)
            &&& (r matches Ok(pair) ==> (yaml_parses(f.0) && pair.1@ == trim_start_spec(f.1)))
        },
{
    let n = content.unicode_len();
    let wp = ws_prefix_len_exec(content);
    let t = content.substring_char(wp, n);
    proof {
        assert(t@ == trim_start_spec(content@));
    }
    let tn = t.unicode_len();
    let ol: usize = if tn >= 4 && t.get_char(0) == '-' && t.get_char(1) == '-' && t.get_char(2)
        == '-' {
        if t.get_char(3) == '\n' {
            4
        } else if tn >= 5 && t.get_char(3) == '\r' && t.get_char(4) == '\n' {
            5
        } else {
            0
        }
    } else {
        0
    };
    if ol == 0 {
        proof {
            assert(open_len(t@) == 0);
        }
        return Err(
            String::from_str(
                "Invalid prompt format: File must start with a YAML front matter block delimited by ---",
            ),
        );
    }
    assert(ol == open_len(t@));
    let mut p: usize = ol;
    while p < tn
        invariant
            tn == t@.len(),
            t@ == trim_start_spec(content@),
            4 <= ol <= p <= tn,
            ol == open_len(t@),
            forall|q: int| ol <= q < p ==> delim_len_at(t@, q) == 0,
        decreases tn - p,
    {
        let dl: usize = if tn - p >= 5 && t.get_char(p) == '\n' && t.get_char(p + 1) == '-'
            && t.get_char(p + 2) == '-' && t.get_char(p + 3) == '-' {
            if t.get_char(p + 4) == '\n' {
                5
            } else if tn - p >= 6 && t.get_char(p + 4) == '\r' && t.get_char(p + 5) == '\n' {
                6
            } else {
                0
            }
        } else if tn - p >= 7 && t.get_char(p) == '\r' && t.get_char(p + 1) == '\n' && t.get_char(
            p + 2,
        ) == '-' && t.get_char(p + 3) == '-' && t.get_char(p + 4) == '-' {
            if t.get_char(p + 5) == '\n' {
                6
            } else if tn - p >= 8 && t.get_char(p + 5) == '\r' && t.get_char(p + 6) == '\n' {
                7
            } else {
                0
            }
        } else {
            0
        };
        assert(dl == delim_len_at(t@, p as int));
        if dl > 0 {
            proof {
                lemma_first_delim_found(t@, ol as int, p as int);
            }
            assert(frame_of(content@) is Some);
            let yaml = t.substring_char(ol, p);
            let rest = t.substring_char(p + dl, tn);
            let ghost f = frame_of(content@).unwrap();
            proof {
                assert(yaml@ == f.0);
                assert(rest@ == f.1);
            }
            let doc = match yaml_parse(yaml) {
                Ok(doc) => doc,
                Err(e) => {
                    let mut msg = String::from_str(
                        "YAML validation failed. Please check your metadata format (--- block). Detail: ",
                    );
                    msg.append(e.as_str());
                    return Err(msg);
                },
            };
            let metadata = match metadata_from_fields(
                yaml_str_field(&doc, "name"),
                yaml_str_field(&doc, "description"),
                yaml_str_field(&doc, "version"),
                yaml_str_field(&doc, "author"),
                yaml_str_field(&doc, "access_tier"),
                yaml_str_list_field(&doc, "variables"),
                yaml_str_list_field(&doc, "tools"),
            ) {
                Ok(m) => m,
                Err(e) => {
                    let mut msg = String::from_str(
                        "YAML validation failed. Please check your metadata format (--- block). Detail: ",
                    );
                    msg.append(e.as_str());
                    return Err(msg);
                },
            };
            let rn = rest.unicode_len();
            let rwp = ws_prefix_len_exec(rest);
            let markdown = rest.substring_char(rwp, rn);
            proof {
                assert(markdown@ == trim_start_spec(f.1));
            }
            return Ok((metadata, markdown.to_owned()));
        }
        p += 1;
    }
    proof {
        lemma_first_delim_none(t@, ol as int);
        assert(frame_of(content@) is None);
    }
    Err(
        String::from_str(
            "Invalid prompt format: File must start with a YAML front matter block delimited by ---",
        ),
    )
}

/// Loads a prompt from its file text: the front matter becomes the metadata,
/// the rest the content, and `path` records where it came from.
pub fn load_prompt_from_str(content: &str, path: Option<String>) -> (r: Result<
    PromptTemplate,
    String,
>)
    ensures
        frame_of(content@) is None ==> r is Err,
        frame_of(content@) matches Some(f) ==> {
            &&& (!yaml_parses(f.0) ==> r is Err)
            &&& (r matches Ok(t) ==> (yaml_parses(f.0) && t.content@ == trim_start_spec(f.1)
                && crate::messages::opt_str_view(t.path) == crate::messages::opt_str_view(path)))
        },
{
    match parse_front_matter(content) {
        Ok((metadata, markdown)) => Ok(PromptTemplate { metadata, content: markdown, path }),
        Err(e) => Err(e),
    }
}

/// The directory prompts are stored under, relative to the working
/// directory.
pub fn get_prompt_root() -> (r: String)
    ensures
        r@ == ".ifai/prompts"@,
{
    String::from_str(".ifai/prompts")
}

/// The index of the last `/`, or a negative value when there is none.
pub open spec fn last_slash(s: Seq<char>) -> int
    decreases s.len(),
{
    if s.len() == 0 {
        -1
    } else if s.last() == '/' {
        s.len() - 1
    } else {
        last_slash(s.drop_last())
    }
}

/// The string with trailing `/` characters removed.
pub open spec fn strip_trailing_slashes(s: Seq<char>) -> Seq<char>
    decreases s.len(),
{
    if s.len() > 0 && s.last() == '/' {
        strip_trailing_slashes(s.drop_last())
    } else {
        s
    }
}

/// The project name a root path yields: the path's last `/`-separated
/// component, ignoring trailing slashes; a path with no usable component
/// falls back to a fixed placeholder.
pub open spec fn project_name_spec(root: Seq<char>) -> Seq<char> {
    let t = strip_trailing_slashes(root);
    let c = t.subrange(last_slash(t) + 1, t.len() as int);
    if c.len() == 0 || c == seq!['.'] || c == seq!['.', '.'] {
        "Unknown Project"@
    } else {
        c
    }
}

proof fn lemma_strip_trailing(s: Seq<char>, m: int)
    requires
        0 <= m <= s.len(),
        forall|k: int| m <= k < s.len() ==> s[k] == '/',
        m == 0 || s[m - 1] != '/',
    ensures
        strip_trailing_slashes(s) == s.subrange(0, m),
    decreases s.len() - m,
{
    if m == s.len() {
        assert(s.subrange(0, m) =~= s);
    } else {
        assert(s.last() == '/');
        lemma_strip_trailing(s.drop_last(), m);
        assert(s.drop_last().subrange(0, m) =~= s.subrange(0, m));
    }
}

proof fn lemma_last_slash(s: Seq<char>, m: int)
    requires
        -1 <= m < s.len(),
        forall|k: int| m < k < s.len() ==> s[k] != '/',
        m == -1 || s[m] == '/',
    ensures
        last_slash(s) == m,
    decreases s.len(),
{
    if s.len() > 0 {
        if m == s.len() - 1 {
        } else {
            assert(s.last() != '/');
            lemma_last_slash(s.drop_last(), m);
        }
    }
}

fn project_name(root: &str) -> (r: String)
    ensures
        r@ == project_name_spec(root@),
{
    let n = root.unicode_len();
    let mut e: usize = n;
    while e > 0 && root.get_char(e - 1) == '/'
        invariant
            e <= n,
            n == root@.len(),
            forall|k: int| e <= k < n ==> root@[k] == '/',
        decreases e,
    {
        e -= 1;
    }
    proof {
        lemma_strip_trailing(root@, e as int);
    }
    let ghost t = strip_trailing_slashes(root@);
    let mut b: usize = e;
    while b > 0 && root.get_char(b - 1) != '/'
        invariant
            b <= e <= n,
            n == root@.len(),
            forall|k: int| b <= k < e ==> root@[k] != '/',
        decreases b,
    {
        b -= 1;
    }
    proof {
        assert(t =~= root@.subrange(0, e as int));
        assert forall|k: int| b <= k < t.len() implies t[k] != '/' by {
            assert(t[k] == root@[k]);
        }
        lemma_last_slash(t, b - 1);
    }
    let c = root.substring_char(b, e);
    proof {
        assert(c@ =~= t.subrange(last_slash(t) + 1, t.len() as int));
    }
    let cn = e - b;
    if cn == 0 || (cn == 1 && root.get_char(b) == '.') || (cn == 2 && root.get_char(b) == '.'
        && root.get_char(b + 1) == '.') {
        proof {
            if cn == 1 {
                assert(c@ =~= seq!['.']);
            }
            if cn == 2 {
                assert(c@ =~= seq!['.', '.']);
            }
        }
        String::from_str("Unknown Project")
    } else {
        proof {
            if c@.len() == 1 {
                assert(c@[0] == root@[b as int]);
                assert(c@ != seq!['.']);
            }
            if c@.len() == 2 {
                assert(c@[0] == root@[b as int] && c@[1] == root@[b + 1]);
                assert(c@ != seq!['.', '.']);
            }
            assert(c@ != seq!['.']);
            assert(c@ != seq!['.', '.']);
        }
        c.to_owned()
    }
}

/// Relies on `chrono::Local::now` and `DateTime::format`: the current local
/// date rendered as `%A, %B %d, %Y` and the current local time as
/// `%H:%M:%S`. The values depend on the clock and the machine's time zone,
/// so nothing is promised of them.
#[verifier::external_body]
fn now_date_time() -> (String, String) {
    let now = chrono::Local::now();
    (now.format("%A, %B %d, %Y").to_string(), now.format("%H:%M:%S").to_string())
}

/// Collects the variable bindings a prompt template may reference: the
/// project name and root, the current date and time, and the user name.
///
/// The date and time values come from the clock and are unconstrained; every
/// other binding is pinned.
pub fn collect_system_variables(project_root: &str) -> (r: Vec<(String, String)>)
    ensures
        r@.len() == 5,
        r@[0].0@ == "PROJECT_NAME"@ && r@[0].1@ == project_name_spec(project_root@),
        r@[1].0@ == "CWD"@ && r@[1].1@ == project_root@,
        r@[2].0@ == "CURRENT_DATE"@,
        r@[3].0@ == "CURRENT_TIME"@,
        r@[4].0@ == "USER_NAME"@ && r@[4].1@ == "Developer"@,
{
    let (date, time) = now_date_time();
    let mut r: Vec<(String, String)> = Vec::new();
    r.push((String::from_str("PROJECT_NAME"), project_name(project_root)));
    r.push((String::from_str("CWD"), project_root.to_owned()));
    r.push((String::from_str("CURRENT_DATE"), date));
    r.push((String::from_str("CURRENT_TIME"), time));
    r.push((String::from_str("USER_NAME"), String::from_str("Developer")));
    r
}

/// The models of a variable binding list.
pub open spec fn pairs_view(v: Seq<(String, String)>) -> Seq<(Seq<char>, Seq<char>)> {
    v.map_values(|p: (String, String)| (p.0@, p.1@))
}

/// What rendering a template against a variable map yields (the rendered
/// text, or the renderer's error text): a function of the template and the
/// bindings alone.
pub uninterp spec fn hb_rendered(template: Seq<char>, vars: Seq<(Seq<char>, Seq<char>)>) -> Result<
    Seq<char>,
    Seq<char>,
>;

/// Relies on `handlebars::Handlebars::render_template` with strict mode off:
/// rendering is deterministic in the template text and the variable
/// bindings.
#[verifier::external_body]
fn hb_render(template: &str, vars: &Vec<(String, String)>) -> (r: Result<String, String>)
    ensures
        r matches Ok(s) ==> (hb_rendered(template@, pairs_view(vars@)) matches Ok(v) && s@ == v),
        r matches Err(e) ==> (hb_rendered(template@, pairs_view(vars@)) matches Err(v) && e@ == v),
{
    let mut reg = handlebars::Handlebars::new();
    reg.set_strict_mode(false);
    let data: std::collections::HashMap<&str, &str> = vars.iter().map(
        |p| (p.0.as_str(), p.1.as_str()),
    ).collect();
    reg.render_template(template, &data).map_err(|e| e.to_string())
}

/// Renders a prompt template against variable bindings.
pub fn render_template(template_content: &str, variables: &Vec<(String, String)>) -> (r: Result<
    String,
    String,
>)
    ensures
        r matches Ok(s) ==> (hb_rendered(template_content@, pairs_view(variables@)) matches Ok(v)
            && s@ == v),
        r matches Err(e) ==> (hb_rendered(template_content@, pairs_view(variables@)) matches Err(v)
            && e@ == v),
{
    hb_render(template_content, variables)
}

/// The fallback system prompt when no template is available.
pub open spec fn default_system_prompt() -> Seq<char> {
    "You are a helpful AI programming assistant."@
}

/// Builds the main system prompt from whichever template source is at hand.
///
/// A project-local template takes precedence over the built-in one; when the
/// chosen source fails to load, or neither is present, the fixed fallback
/// prompt is returned. A loaded template is rendered against the collected
/// system variables, falling back to its raw content when rendering fails.
pub fn get_main_system_prompt(
    project_root: &str,
    local_template: Option<&str>,
    builtin_template: Option<&str>,
) -> (r: String)
    ensures
        local_template is None && builtin_template is None ==> r@ == default_system_prompt(),
        local_template matches Some(c) ==> (frame_of(c@) is None ==> r@
            == default_system_prompt()),
        local_template is None ==> (builtin_template matches Some(c) ==> (frame_of(c@) is None
            ==> r@ == default_system_prompt())),
{
    let source: Option<&str> = match local_template {
        Some(c) => Some(c),
        None => builtin_template,
    };
    let template = match source {
        Some(c) => match load_prompt_from_str(c, None) {
            Ok(t) => Some(t),
            Err(_) => None,
        },
        None => None,
    };
    match template {
        Some(t) => {
            let variables = collect_system_variables(project_root);
            match render_template(t.content.as_str(), &variables) {
                Ok(s) => s,
                Err(_) => t.content,
            }
        },
        None => String::from_str("You are a helpful AI programming assistant."),
    }
}

} // verus!
