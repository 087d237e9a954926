//! Prompt-injection screening: a prompt's content is rejected when it holds
//! one of a fixed set of suspicious phrases, matched case-insensitively with
//! arbitrary white space between the words.
//!
//! Case folding maps exactly the characters whose simple Unicode fold is an
//! ASCII lowercase letter: `A`-`Z`, the long s, and the Kelvin sign.

use vstd::prelude::*;
use vstd::string::StrSliceExecFns;
use vstd::string::StringExecFns;
use crate::prompts::is_ws;
use crate::prompts::is_ws_exec;

verus! {

/// Simple case folding, restricted to folds that land in ASCII lowercase.
pub open spec fn fold_char(c: char) -> char {
    if 'A' <= c && c <= 'Z' {
        ((c as int + 32) as u8) as char
    } else if c == '\u{17F}' {
        's'
    } else if c == '\u{212A}' {
        'k'
    } else {
        c
    }
}

fn fold_char_exec(c: char) -> (r: char)
    ensures
        r == fold_char(c),
{
    if 'A' <= c && c <= 'Z' {
        (((c as u32) as u8) + 32) as char
    } else if c == '\u{17F}' {
        's'
    } else if c == '\u{212A}' {
        'k'
    } else {
        c
    }
}

proof fn lemma_ws_folds_to_itself(c: char)
    requires
        is_ws(c),
    ensures
        fold_char(c) == c,
{
}

/// The pattern word `w` matches at position `i` of the folded text.
pub open spec fn word_at(t: Seq<char>, i: int, w: Seq<char>) -> bool {
    &&& 0 <= i
    &&& i + w.len() <= t.len()
    &&& forall|k: int| 0 <= k < w.len() ==> fold_char(t[i + k]) == #[trigger] w[k]
}

/// A separating run: at least one white-space character fills `[a, a + g)`.
pub open spec fn gap_ok(t: Seq<char>, a: int, g: int) -> bool {
    &&& g >= 1
    &&& a + g <= t.len()
    &&& forall|k: int| a <= k < a + g ==> is_ws(#[trigger] t[k])
}

/// The pattern words match in order from position `i`, each pair separated
/// by at least one white-space character.
pub open spec fn words_match_at(t: Seq<char>, i: int, words: Seq<Seq<char>>) -> bool
    decreases words.len(),
{
    if words.len() == 0 {
        true
    } else if words.len() == 1 {
        word_at(t, i, words[0])
    } else {
        &&& word_at(t, i, words[0])
        &&& exists|g: int|
            #[trigger] gap_ok(t, i + words[0].len(), g) && words_match_at(
                t,
                i + words[0].len() + g,
                words.drop_first(),
            )
    }
}

/// The word-sequence pattern occurs somewhere in the text.
pub open spec fn contains_words(t: Seq<char>, words: Seq<Seq<char>>) -> bool {
    exists|i: int| 0 <= i <= t.len() && #[trigger] words_match_at(t, i, words)
}

/// A usable pattern word: non-empty, and opening with a character that is
/// not white space (every word here is lowercase ASCII letters).
pub open spec fn word_ok(w: Seq<char>) -> bool {
    w.len() > 0 && !is_ws(w[0])
}

/// The views of a sequence of string slices.
pub open spec fn slices_views(v: Seq<&str>) -> Seq<Seq<char>> {
    v.map_values(|w: &str| w@)
}

proof fn lemma_words_match_intro(t: Seq<char>, i: int, words: Seq<Seq<char>>, g: int)
    requires
        words.len() >= 2,
        word_at(t, i, words[0]),
        gap_ok(t, i + words[0].len(), g),
        words_match_at(t, i + words[0].len() + g, words.drop_first()),
    ensures
        words_match_at(t, i, words),
{
}

proof fn lemma_words_match_elim(t: Seq<char>, i: int, words: Seq<Seq<char>>) -> (g: int)
    requires
        words.len() >= 2,
        words_match_at(t, i, words),
    ensures
        gap_ok(t, i + words[0].len(), g),
        words_match_at(t, i + words[0].len() + g, words.drop_first()),
{
    let g = choose|g: int|
        #[trigger] gap_ok(t, i + words[0].len(), g) && words_match_at(
            t,
            i + words[0].len() + g,
            words.drop_first(),
        );
    g
}

fn word_at_exec(t: &str, i: usize, w: &str) -> (r: bool)
    ensures
        r == word_at(t@, i as int, w@),
{
    let tl = t.unicode_len();
    let wl = w.unicode_len();
    if wl > tl || i > tl - wl {
        return false;
    }
    let mut k: usize = 0;
    while k < wl
        invariant
            tl == t@.len(),
            wl == w@.len(),
            i + wl <= tl,
            k <= wl,
            forall|j: int| 0 <= j < k ==> fold_char(t@[i + j]) == #[trigger] w@[j],
        decreases wl - k,
    {
        if fold_char_exec(t.get_char(i + k)) != w.get_char(k) {
            return false;
        }
        k += 1;
    }
    true
}

fn ws_run_end(t: &str, a: usize) -> (b: usize)
    requires
        a <= t@.len(),
    ensures
        a <= b <= t@.len(),
        forall|k: int| a <= k < b ==> is_ws(#[trigger] t@[k]),
        b == t@.len() || !is_ws(t@[b as int]),
{
    let n = t.unicode_len();
    let mut b = a;
    while b < n && is_ws_exec(t.get_char(b))
        invariant
            a <= b <= n,
            n == t@.len(),
            forall|k: int| a <= k < b ==> is_ws(#[trigger] t@[k]),
        decreases n - b,
    {
        b += 1;
    }
    b
}

fn words_match_exec(t: &str, i: usize, words: &Vec<&str>, wi: usize) -> (r: bool)
    requires
        wi <= words@.len(),
        i <= t@.len(),
        forall|j: int| 0 <= j < words@.len() ==> word_ok((#[trigger] words@[j])@),
    ensures
        r == words_match_at(t@, i as int, slices_views(words@).skip(wi as int)),
    decreases words@.len() - wi,
{
    let ghost rest = slices_views(words@).skip(wi as int);
    if wi == words.len() {
        proof {
            assert(rest.len() == 0);
        }
        return true;
    }
    proof {
        assert(rest[0] == words@[wi as int]@);
    }
    if !word_at_exec(t, i, words[wi]) {
        return false;
    }
    if wi + 1 == words.len() {
        proof {
            assert(rest.len() == 1);
        }
        return true;
    }
    let tl = t.unicode_len();
    let wl = words[wi].unicode_len();
    proof {
        assert(word_at(t@, i as int, words@[wi as int]@));
        assert(i + wl <= tl);
    }
    let a = i + wl;
    let b = ws_run_end(t, a);
    let ghost rest2 = slices_views(words@).skip(wi + 1);
    proof {
        assert(rest.drop_first() =~= rest2);
        assert(rest2.len() > 0);
        assert(rest2[0] == words@[wi + 1]@);
        assert(word_ok(rest2[0]));
    }
    if b == a {
        proof {
            assert(a == i + rest[0].len());
            if words_match_at(t@, i as int, rest) {
                let g = lemma_words_match_elim(t@, i as int, rest);
                assert(gap_ok(t@, a as int, g));
                assert(is_ws(t@[a as int]));
                assert(false);
            }
        }
        return false;
    }
    let sub = words_match_exec(t, b, words, wi + 1);
    proof {
        assert(a == i + rest[0].len());
        assert(rest.drop_first() == rest2);
        if sub {
            assert(words_match_at(t@, b as int, rest2));
            assert(gap_ok(t@, i + rest[0].len(), b - a));
            lemma_words_match_intro(t@, i as int, rest, b - a);
        } else {
            if words_match_at(t@, i as int, rest) {
                let g = lemma_words_match_elim(t@, i as int, rest);
                assert(gap_ok(t@, a as int, g));
                let j = i + rest[0].len() + g;
                assert(words_match_at(t@, j, rest2));
                if rest2.len() == 1 {
                    assert(word_at(t@, j, rest2[0]));
                } else {
                    assert(word_at(t@, j, rest2[0]));
                }
                assert(j < t@.len());
                assert(fold_char(t@[j]) == rest2[0][0]);
                if j < b {
                    assert(is_ws(t@[j]));
                    lemma_ws_folds_to_itself(t@[j]);
                    assert(is_ws(rest2[0][0]));
                    assert(false);
                } else if j > b {
                    assert(is_ws(t@[b as int]));
                    assert(false);
                } else {
                    assert(words_match_at(t@, b as int, rest2));
                    assert(false);
                }
            }
            assert(!words_match_at(t@, i as int, rest));
        }
    }
    sub
}

fn contains_words_exec(t: &str, words: &Vec<&str>) -> (r: bool)
    requires
        forall|j: int| 0 <= j < words@.len() ==> word_ok((#[trigger] words@[j])@),
    ensures
        r == contains_words(t@, slices_views(words@)),
{
    let n = t.unicode_len();
    let mut i: usize = 0;
    while i <= n
        invariant
            n == t@.len(),
            i <= n,
            forall|j: int| 0 <= j < words@.len() ==> word_ok((#[trigger] words@[j])@),
            forall|q: int| 0 <= q < i ==> !words_match_at(t@, q, slices_views(words@)),
        decreases n - i,
    {
        proof {
            assert(slices_views(words@).skip(0) =~= slices_views(words@));
        }
        if words_match_exec(t, i, words, 0) {
            proof {
                assert(words_match_at(t@, i as int, slices_views(words@)));
            }
            return true;
        }
        if i == n {
            return false;
        }
        i += 1;
    }
    false
}

/// An optional white-space run `[a, a + g)` followed by a colon at `a + g`.
pub open spec fn colon_gap_ok(t: Seq<char>, a: int, g: int) -> bool {
    &&& g >= 0
    &&& a + g < t.len()
    &&& (forall|k: int| a <= k < a + g ==> is_ws(#[trigger] t[k]))
    &&& t[a + g] == ':'
}

/// The word `system`, optional white space, then a colon, at position `i` of
/// the folded text.
pub open spec fn system_colon_at(t: Seq<char>, i: int) -> bool {
    &&& word_at(t, i, "system"@)
    &&& exists|g: int| #[trigger] colon_gap_ok(t, i + "system"@.len(), g)
}

/// The `system:` pattern occurs somewhere in the text.
pub open spec fn contains_system_colon(t: Seq<char>) -> bool {
    exists|i: int| 0 <= i <= t.len() && #[trigger] system_colon_at(t, i)
}

proof fn lemma_system_colon_intro(t: Seq<char>, i: int, g: int)
    requires
        word_at(t, i, "system"@),
        colon_gap_ok(t, i + "system"@.len(), g),
    ensures
        system_colon_at(t, i),
{
}

proof fn lemma_system_colon_elim(t: Seq<char>, i: int) -> (g: int)
    requires
        system_colon_at(t, i),
    ensures
        colon_gap_ok(t, i + "system"@.len(), g),
{
    let g = choose|g: int| #[trigger] colon_gap_ok(t, i + "system"@.len(), g);
    g
}

fn system_colon_exec(t: &str, i: usize) -> (r: bool)
    requires
        i <= t@.len(),
    ensures
        r == system_colon_at(t@, i as int),
{
    let w = "system";
    if !word_at_exec(t, i, w) {
        return false;
    }
    let n = t.unicode_len();
    let wl = w.unicode_len();
    proof {
        assert(word_at(t@, i as int, "system"@));
        assert(i + wl <= n);
    }
    let a = i + wl;
    proof {
        assert(a == i + "system"@.len());
    }
    let b = ws_run_end(t, a);
    let hit = b < n && t.get_char(b) == ':';
    proof {
        assert(a == i + "system"@.len());
        if hit {
            assert(colon_gap_ok(t@, a as int, b - a));
            lemma_system_colon_intro(t@, i as int, b - a);
        } else {
            if system_colon_at(t@, i as int) {
                let g = lemma_system_colon_elim(t@, i as int);
                assert(colon_gap_ok(t@, a as int, g));
                let j = i + "system"@.len() + g;
                if j < b {
                    assert(is_ws(t@[j]));
                    assert(false);
                } else if j > b {
                    assert(is_ws(t@[b as int]));
                    assert(false);
                } else {
                    assert(!(b < t@.len() && t@[b as int] == ':'));
                    assert(false);
                }
            }
            assert(!system_colon_at(t@, i as int));
        }
    }
    hit
}

fn contains_system_colon_exec(t: &str) -> (r: bool)
    ensures
        r == contains_system_colon(t@),
{
    let n = t.unicode_len();
    let mut i: usize = 0;
    while i <= n
        invariant
            n == t@.len(),
            i <= n,
            forall|q: int| 0 <= q < i ==> !system_colon_at(t@, q),
        decreases n - i,
    {
        if system_colon_exec(t, i) {
            return true;
        }
        if i == n {
            return false;
        }
        i += 1;
    }
    false
}

/// The first suspicious phrase: `ignore previous instructions`.
pub open spec fn pattern_ignore() -> Seq<Seq<char>> {
    seq!["ignore"@, "previous"@, "instructions"@]
}

/// The second suspicious phrase: `forget everything we talked`.
pub open spec fn pattern_forget() -> Seq<Seq<char>> {
    seq!["forget"@, "everything"@, "we"@, "talked"@]
}

/// The third suspicious phrase: `you are now a`.
pub open spec fn pattern_you_are() -> Seq<Seq<char>> {
    seq!["you"@, "are"@, "now"@, "a"@]
}

/// Screens prompt content for injection phrases.
///
/// The content is rejected with a diagnostic naming the first matching
/// pattern, in this order: `ignore previous instructions`, `forget
/// everything we talked`, `you are now a` (each case-insensitive, any white
/// space between words), and `system` followed by optional white space and a
/// colon. Content matching none of them is accepted.
pub fn validate_prompt_content(content: &str) -> (r: Result<(), String>)
    ensures
        contains_words(content@, pattern_ignore()) ==> (r matches Err(e) && e@
            == "Potential prompt injection detected: '(?i)ignore\\s+previous\\s+instructions'"@),
        !contains_words(content@, pattern_ignore()) && contains_words(content@, pattern_forget())
            ==> (r matches Err(e) && e@
            == "Potential prompt injection detected: '(?i)forget\\s+everything\\s+we\\s+talked'"@),
        !contains_words(content@, pattern_ignore()) && !contains_words(content@, pattern_forget())
            && contains_words(content@, pattern_you_are()) ==> (r matches Err(e) && e@
            == "Potential prompt injection detected: '(?i)you\\s+are\\s+now\\s+a'"@),
        !contains_words(content@, pattern_ignore()) && !contains_words(content@, pattern_forget())
            && !contains_words(content@, pattern_you_are()) && contains_system_colon(content@) ==> (
        r matches Err(e) && e@ == "Potential prompt injection detected: '(?i)system\\s*:\\s*'"@),
        r is Ok <==> {
            &&& !contains_words(content@, pattern_ignore())
            &&& !contains_words(content@, pattern_forget())
            &&& !contains_words(content@, pattern_you_are())
            &&& !contains_system_colon(content@)
        },
{
    proof {
        reveal_strlit("ignore");
        reveal_strlit("previous");
        reveal_strlit("instructions");
        reveal_strlit("forget");
        reveal_strlit("everything");
        reveal_strlit("we");
        reveal_strlit("talked");
        reveal_strlit("you");
        reveal_strlit("are");
        reveal_strlit("now");
        reveal_strlit("a");
    }
    let w1: Vec<&str> = vec!["ignore", "previous", "instructions"];
    let w2: Vec<&str> = vec!["forget", "everything", "we", "talked"];
    let w3: Vec<&str> = vec!["you", "are", "now", "a"];
    proof {
        assert(slices_views(w1@) =~= pattern_ignore());
        assert(slices_views(w2@) =~= pattern_forget());
        assert(slices_views(w3@) =~= pattern_you_are());
        assert(word_ok("ignore"@)) by {
            assert("ignore"@[0] == 'i');
        }
        assert(word_ok("previous"@)) by {
            assert("previous"@[0] == 'p');
        }
        assert(word_ok("instructions"@)) by {
            assert("instructions"@[0] == 'i');
        }
        assert(word_ok("forget"@)) by {
            assert("forget"@[0] == 'f');
        }
        assert(word_ok("everything"@)) by {
            assert("everything"@[0] == 'e');
        }
        assert(word_ok("we"@)) by {
            assert("we"@[0] == 'w');
        }
        assert(word_ok("talked"@)) by {
            assert("talked"@[0] == 't');
        }
        assert(word_ok("you"@)) by {
            assert("you"@[0] == 'y');
        }
        assert(word_ok("are"@)) by {
            assert("are"@[0] == 'a');
        }
        assert(word_ok("now"@)) by {
            assert("now"@[0] == 'n');
        }
        assert(word_ok("a"@)) by {
            assert("a"@[0] == 'a');
        }
    }
    if contains_words_exec(content, &w1) {
        return Err(
            String::from_str(
                "Potential prompt injection detected: '(?i)ignore\\s+previous\\s+instructions'",
            ),
        );
    }
    if contains_words_exec(content, &w2) {
        return Err(
            String::from_str(
                "Potential prompt injection detected: '(?i)forget\\s+everything\\s+we\\s+talked'",
            ),
        );
    }
    if contains_words_exec(content, &w3) {
        return Err(
            String::from_str("Potential prompt injection detected: '(?i)you\\s+are\\s+now\\s+a'"),
        );
    }
    if contains_system_colon_exec(content) {
        return Err(
            String::from_str("Potential prompt injection detected: '(?i)system\\s*:\\s*'"),
        );
    }
    Ok(())
}

} // verus!
