//! How fruit names are normalised and compared.
//!
//! A name is trimmed of surrounding whitespace before it is stored, and two
//! names are the same when they differ at most in the case of ASCII letters.

use vstd::prelude::*;
use vstd::std_specs::iter::IteratorSpec;

verus! {

/// Whether `c` is whitespace: one of the characters that Unicode marks
/// White_Space.
pub open spec fn is_space(c: char) -> bool {
    let u = c as u32;
    ||| 0x0009 <= u <= 0x000D
    ||| u == 0x0020
    ||| u == 0x0085
    ||| u == 0x00A0
    ||| u == 0x1680
    ||| 0x2000 <= u <= 0x200A
    ||| u == 0x2028
    ||| u == 0x2029
    ||| u == 0x202F
    ||| u == 0x205F
    ||| u == 0x3000
}

/// The code point of `c`, with an ASCII upper-case letter replaced by its
/// lower-case form.
pub open spec fn folded(c: char) -> u32 {
    let u = c as u32;
    if 0x41 <= u <= 0x5A {
        (u + 0x20) as u32
    } else {
        u
    }
}

/// `s` without the whitespace it starts with.
pub open spec fn trim_start(s: Seq<char>) -> Seq<char>
    decreases s.len(),
{
    if s.len() > 0 && is_space(s.first()) {
        trim_start(s.drop_first())
    } else {
        s
    }
}

/// `s` without the whitespace it ends with.
pub open spec fn trim_end(s: Seq<char>) -> Seq<char>
    decreases s.len(),
{
    if s.len() > 0 && is_space(s.last()) {
        trim_end(s.drop_last())
    } else {
        s
    }
}

/// `s` without the whitespace around it.
pub open spec fn trimmed(s: Seq<char>) -> Seq<char> {
    trim_end(trim_start(s))
}

/// The folded code points of a name.
pub open spec fn fold(s: Seq<char>) -> Seq<u32> {
    s.map_values(|c: char| folded(c))
}

/// Whether two names are the same but for the case of ASCII letters.
pub open spec fn same_name(a: Seq<char>, b: Seq<char>) -> bool {
    fold(a) == fold(b)
}

/// Where the leading whitespace of `s` ends, `trim_start` cuts.
proof fn lemma_trim_start_cuts_at(s: Seq<char>, k: int)
    requires
        0 <= k <= s.len(),
        forall|j: int| 0 <= j < k ==> is_space(#[trigger] s[j]),
        k < s.len() ==> !is_space(s[k]),
    ensures
        trim_start(s) == s.subrange(k, s.len() as int),
    decreases k,
{
    if k == 0 {
        assert(s.subrange(0, s.len() as int) =~= s);
    } else {
        let rest = s.drop_first();
        assert forall|j: int| 0 <= j < k - 1 implies is_space(#[trigger] rest[j]) by {
            assert(rest[j] == s[j + 1]);
        }
        lemma_trim_start_cuts_at(rest, k - 1);
        assert(rest.subrange(k - 1, rest.len() as int) =~= s.subrange(k, s.len() as int));
    }
}

/// Where the trailing whitespace of `s` begins, `trim_end` cuts.
proof fn lemma_trim_end_cuts_at(s: Seq<char>, k: int)
    requires
        0 <= k <= s.len(),
        forall|j: int| k <= j < s.len() ==> is_space(#[trigger] s[j]),
        0 < k ==> !is_space(s[k - 1]),
    ensures
        trim_end(s) == s.subrange(0, k),
    decreases s.len() - k,
{
    if k == s.len() {
        assert(s.subrange(0, k) =~= s);
    } else {
        let rest = s.drop_last();
        lemma_trim_end_cuts_at(rest, k);
        assert(rest.subrange(0, k) =~= s.subrange(0, k));
    }
}

/// Whether `c` is whitespace.
pub fn is_whitespace(c: char) -> (r: bool)
    ensures
        r == is_space(c),
{
    let u: u32 = c as u32;
    (0x0009 <= u && u <= 0x000D) || u == 0x0020 || u == 0x0085 || u == 0x00A0 || u == 0x1680 || (
    0x2000 <= u && u <= 0x200A) || u == 0x2028 || u == 0x2029 || u == 0x202F || u == 0x205F || u
        == 0x3000
}

/// The code point of `c`, lower-cased if `c` is an ASCII capital.
pub fn fold_ascii_case(c: char) -> (r: u32)
    ensures
        r == folded(c),
{
    let u: u32 = c as u32;
    if 0x41 <= u && u <= 0x5A {
        u + 0x20
    } else {
        u
    }
}

/// Removes the whitespace around `s`.
pub fn trim<'a>(s: &'a str) -> (r: &'a str)
    ensures
        r@ == trimmed(s@),
{
    let n = s.unicode_len();
    let mut chars = s.chars();
    let mut i: usize = 0;
    let mut start: usize = 0;
    let mut end: usize = 0;
    loop
        invariant
            n == s@.len(),
            i <= n,
            chars.remaining() == s@.subrange(i as int, n as int),
            start <= end <= i,
            forall|j: int| 0 <= j < start ==> is_space(#[trigger] s@[j]),
            forall|j: int| end <= j < i ==> is_space(#[trigger] s@[j]),
            end == 0 ==> start == 0,
            end > 0 ==> start < end && !is_space(s@[start as int]) && !is_space(s@[end - 1]),
        ensures
            i == n,
        decreases n - i,
    {
        match chars.next() {
            None => {
                break ;
            },
            Some(c) => {
                if !is_whitespace(c) {
                    if end == 0 {
                        start = i;
                    }
                    end = i + 1;
                }
                i += 1;
            },
        }
    }
    proof {
        if end == 0 {
            // Nothing but whitespace: the front is cut at the very end.
            lemma_trim_start_cuts_at(s@, n as int);
            assert(s@.subrange(0, 0) =~= s@.subrange(n as int, n as int));
        } else {
            let kept = s@.subrange(start as int, n as int);
            lemma_trim_start_cuts_at(s@, start as int);
            lemma_trim_end_cuts_at(kept, end - start);
            assert(kept.subrange(0, end - start) =~= s@.subrange(start as int, end as int));
        }
    }
    s.substring_char(start, end)
}

/// Whether `a` and `b` are the same name: equal but for the case of ASCII
/// letters.
pub fn names_match(a: &str, b: &str) -> (r: bool)
    ensures
        r == same_name(a@, b@),
{
    let mut left = a.chars();
    let mut right = b.chars();
    let ghost mut seen: int = 0;
    loop
        invariant
            0 <= seen <= a@.len(),
            seen <= b@.len(),
            left.remaining() == a@.subrange(seen, a@.len() as int),
            right.remaining() == b@.subrange(seen, b@.len() as int),
            forall|j: int| 0 <= j < seen ==> folded(#[trigger] a@[j]) == folded(b@[j]),
        decreases a@.len() - seen,
    {
        match (left.next(), right.next()) {
            (None, None) => {
                assert(fold(a@) =~= fold(b@));
                return true;
            },
            (Some(x), Some(y)) => {
                if fold_ascii_case(x) != fold_ascii_case(y) {
                    assert(fold(a@)[seen] != fold(b@)[seen]);
                    return false;
                }
                proof {
                    seen = seen + 1;
                }
            },
            _ => {
                assert(fold(a@).len() != fold(b@).len());
                return false;
            },
        }
    }
}

} // verus!
