//! The sandbox invariant: every file tool operation takes a relative path
//! that is resolved against the project root and must not escape it.
//!
//! A path is judged purely lexically, with `/` as the separator: it escapes
//! when it is absolute, or when at some prefix the number of `..` segments
//! exceeds the number of ordinary segments before it. Empty and `.` segments
//! do not change the depth.

use vstd::prelude::*;
use vstd::string::StrSliceExecFns;

verus! {

/// How one segment changes the depth below the project root.
pub open spec fn seg_delta(seg: Seq<char>) -> int {
    if seg.len() == 0 || seg == seq!['.'] {
        0
    } else if seg == seq!['.', '.'] {
        -1
    } else {
        1
    }
}

/// The index of the first `/` in `s`, or `s.len()` when there is none.
pub open spec fn first_sep(s: Seq<char>) -> int
    decreases s.len(),
{
    if s.len() == 0 {
        0
    } else if s[0] == '/' {
        0
    } else {
        1 + first_sep(s.drop_first())
    }
}

/// Whether resolving `s` segment by segment, starting `depth` levels below
/// the root, ever rises above the root.
pub open spec fn escapes_from(s: Seq<char>, depth: int) -> bool
    decreases s.len(),
{
    let k = first_sep(s);
    if k < 0 || k >= s.len() {
        depth + seg_delta(s) < 0
    } else {
        let d2 = depth + seg_delta(s.take(k));
        d2 < 0 || escapes_from(s.subrange(k + 1, s.len() as int), d2)
    }
}

/// Whether a path escapes the project root: it is absolute, or some prefix
/// of its segments resolves above the root.
pub open spec fn path_escapes(s: Seq<char>) -> bool {
    (s.len() > 0 && s[0] == '/') || escapes_from(s, 0)
}

proof fn lemma_first_sep(s: Seq<char>, m: int)
    requires
        0 <= m <= s.len(),
        forall|k: int| 0 <= k < m ==> s[k] != '/',
        m == s.len() || s[m] == '/',
    ensures
        first_sep(s) == m,
    decreases m,
{
    if m == 0 {
    } else {
        assert(s[0] != '/');
        lemma_first_sep(s.drop_first(), m - 1);
    }
}

/// Decides whether a relative path stays inside the project root.
///
/// Returns `true` exactly when the path does not escape: it is not absolute
/// and no prefix of its `/`-separated segments resolves above the root.
pub fn path_stays_in_root(rel: &str) -> (r: bool)
    ensures
        r == !path_escapes(rel@),
{
    let n = rel.unicode_len();
    if n > 0 && rel.get_char(0) == '/' {
        return false;
    }
    assert(rel@.subrange(0, n as int) =~= rel@);
    let mut depth: usize = 0;
    let mut i: usize = 0;
    let mut start: usize = 0;
    let mut all_dots: bool = true;
    while i < n
        invariant
            n == rel@.len(),
            0 <= start <= i <= n,
            depth <= start,
            all_dots <==> (forall|k: int| start <= k < i ==> rel@[k] == '.'),
            forall|k: int| start <= k < i ==> rel@[k] != '/',
            path_escapes(rel@) == escapes_from(
                rel@.subrange(start as int, n as int),
                depth as int,
            ),
        decreases n - i,
    {
        let c = rel.get_char(i);
        if c == '/' {
            let ghost s = rel@.subrange(start as int, n as int);
            let ghost seg = rel@.subrange(start as int, i as int);
            proof {
                assert forall|k: int| 0 <= k < seg.len() implies seg[k] != '/' by {
                    assert(seg[k] == rel@[start + k]);
                }
                assert(s[i - start] == rel@[i as int]);
                lemma_first_sep(s, i - start);
                assert(s.take(i - start) =~= seg);
                assert(s.subrange(i - start + 1, s.len() as int) =~= rel@.subrange(
                    i + 1,
                    n as int,
                ));
            }
            let seg_len = i - start;
            if seg_len == 0 || (all_dots && seg_len == 1) {
                proof {
                    if seg_len == 1 {
                        assert(seg[0] == rel@[start as int]);
                        assert(seg =~= seq!['.']);
                    }
                    assert(seg_delta(seg) == 0);
                }
            } else if all_dots && seg_len == 2 {
                proof {
                    assert(seg[0] == rel@[start as int] && seg[1] == rel@[start + 1]);
                    assert(seg =~= seq!['.', '.']);
                    assert(seg_delta(seg) == -1);
                }
                if depth == 0 {
                    return false;
                }
                depth -= 1;
            } else {
                proof {
                    if seg.len() == 1 {
                        assert(!all_dots);
                        assert(rel@[start as int] != '.');
                        assert(seg != seq!['.']);
                        assert(seg != seq!['.', '.']);
                    } else if seg.len() == 2 {
                        assert(!all_dots);
                        assert(seg != seq!['.']);
                        if seg == seq!['.', '.'] {
                            assert(rel@[start as int] == '.' && rel@[start + 1] == '.');
                            assert(forall|k: int| start <= k < i ==> rel@[k] == '.');
                        }
                    } else {
                        assert(seg != seq!['.']);
                        assert(seg != seq!['.', '.']);
                    }
                    assert(seg_delta(seg) == 1);
                }
                depth += 1;
            }
            start = i + 1;
            all_dots = true;
        } else {
            if c != '.' {
                all_dots = false;
            }
        }
        i += 1;
    }
    let ghost s = rel@.subrange(start as int, n as int);
    let ghost seg = s;
    proof {
        assert forall|k: int| 0 <= k < s.len() implies s[k] != '/' by {
            assert(s[k] == rel@[start + k]);
        }
        lemma_first_sep(s, s.len() as int);
    }
    let seg_len = n - start;
    if seg_len == 0 || (all_dots && seg_len == 1) {
        proof {
            if seg_len == 1 {
                assert(seg[0] == rel@[start as int]);
                assert(seg =~= seq!['.']);
            }
            assert(seg_delta(seg) == 0);
        }
        true
    } else if all_dots && seg_len == 2 {
        proof {
            assert(seg[0] == rel@[start as int] && seg[1] == rel@[start + 1]);
            assert(seg =~= seq!['.', '.']);
            assert(seg_delta(seg) == -1);
        }
        depth >= 1
    } else {
        proof {
            if seg.len() == 1 {
                assert(rel@[start as int] != '.');
                assert(seg != seq!['.']);
                assert(seg != seq!['.', '.']);
            } else if seg.len() == 2 {
                assert(seg != seq!['.']);
                if seg == seq!['.', '.'] {
                    assert(rel@[start as int] == '.' && rel@[start + 1] == '.');
                }
            } else {
                assert(seg != seq!['.']);
                assert(seg != seq!['.', '.']);
            }
            assert(seg_delta(seg) == 1);
        }
        true
    }
}

} // verus!
