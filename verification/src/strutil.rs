//! Small verified string helpers shared across the crate: character-exact
//! equality, concatenation, joining, and decimal rendering of integers.

use vstd::prelude::*;
use vstd::string::StrSliceExecFns;
use vstd::string::StringExecFns;

verus! {

/// Character-exact equality of two string slices.
pub fn str_eq(a: &str, b: &str) -> (r: bool)
    ensures
        r == (a@ == b@),
{
    let alen = a.unicode_len();
    let blen = b.unicode_len();
    if alen != blen {
        return false;
    }
    let mut i: usize = 0;
    while i < alen
        invariant
            alen == a@.len(),
            alen == b@.len(),
            i <= alen,
            forall|k: int| 0 <= k < i ==> a@[k] == b@[k],
        decreases alen - i,
    {
        if a.get_char(i) != b.get_char(i) {
            return false;
        }
        i += 1;
    }
    proof {
        assert(a@ =~= b@);
    }
    true
}

/// Concatenation of two string slices into a fresh `String`.
pub fn concat2(a: &str, b: &str) -> (r: String)
    ensures
        r@ == a@ + b@,
{
    let mut s = a.to_owned();
    s.append(b);
    s
}

/// Concatenation of three string slices into a fresh `String`.
pub fn concat3(a: &str, b: &str, c: &str) -> (r: String)
    ensures
        r@ == a@ + b@ + c@,
{
    let mut s = a.to_owned();
    s.append(b);
    s.append(c);
    s
}

/// The set of views of the strings in a sequence.
pub open spec fn strs_set(v: Seq<String>) -> Set<Seq<char>> {
    Set::new(|x: Seq<char>| exists|j: int| 0 <= j < v.len() && v[j]@ == x)
}

/// Whether some string in the vector has the same characters as `s`.
pub fn contains_str(v: &Vec<String>, s: &str) -> (r: bool)
    ensures
        r == strs_set(v@).contains(s@),
{
    let mut i: usize = 0;
    while i < v.len()
        invariant
            i <= v.len(),
            forall|k: int| 0 <= k < i ==> v@[k]@ != s@,
        decreases v.len() - i,
    {
        if str_eq(v[i].as_str(), s) {
            assert(strs_set(v@).contains(s@));
            return true;
        }
        i += 1;
    }
    false
}

/// The decimal digit character for a value below ten.
pub open spec fn digit_char(d: nat) -> char
    recommends
        d < 10,
{
    if d == 0 {
        '0'
    } else if d == 1 {
        '1'
    } else if d == 2 {
        '2'
    } else if d == 3 {
        '3'
    } else if d == 4 {
        '4'
    } else if d == 5 {
        '5'
    } else if d == 6 {
        '6'
    } else if d == 7 {
        '7'
    } else if d == 8 {
        '8'
    } else {
        '9'
    }
}

/// The decimal rendering of a natural number, most significant digit first.
pub open spec fn dec_rep(n: nat) -> Seq<char>
    decreases n,
{
    if n < 10 {
        seq![digit_char(n)]
    } else {
        dec_rep(n / 10) + seq![digit_char(n % 10)]
    }
}

fn digit_str(d: u64) -> (r: &'static str)
    requires
        d < 10,
    ensures
        r@ == seq![digit_char(d as nat)],
{
    let r: &'static str = if d == 0 {
        proof {
            reveal_strlit("0");
        }
        "0"
    } else if d == 1 {
        proof {
            reveal_strlit("1");
        }
        "1"
    } else if d == 2 {
        proof {
            reveal_strlit("2");
        }
        "2"
    } else if d == 3 {
        proof {
            reveal_strlit("3");
        }
        "3"
    } else if d == 4 {
        proof {
            reveal_strlit("4");
        }
        "4"
    } else if d == 5 {
        proof {
            reveal_strlit("5");
        }
        "5"
    } else if d == 6 {
        proof {
            reveal_strlit("6");
        }
        "6"
    } else if d == 7 {
        proof {
            reveal_strlit("7");
        }
        "7"
    } else if d == 8 {
        proof {
            reveal_strlit("8");
        }
        "8"
    } else {
        proof {
            reveal_strlit("9");
        }
        "9"
    };
    proof {
        assert(r@ =~= seq![digit_char(d as nat)]);
    }
    r
}

fn push_dec(s: &mut String, n: u64)
    ensures
        final(s)@ == old(s)@ + dec_rep(n as nat),
    decreases n,
{
    if n < 10 {
        s.append(digit_str(n));
    } else {
        push_dec(s, n / 10);
        s.append(digit_str(n % 10));
        proof {
            assert(old(s)@ + dec_rep((n / 10) as nat) + seq![digit_char((n % 10) as nat)] =~= old(
                s,
            )@ + dec_rep(n as nat));
        }
    }
}

/// The decimal rendering of an integer as a `String`.
pub fn u64_to_dec(n: u64) -> (r: String)
    ensures
        r@ == dec_rep(n as nat),
{
    let mut s = String::new();
    push_dec(&mut s, n);
    proof {
        assert(s@ =~= dec_rep(n as nat));
    }
    s
}

} // verus!
