//! White-space trimming over character sequences.
//!
//! Submitted content is stored with its leading and trailing white space
//! stripped. `trim_seq` is the specification of that stripping; `trim_string`
//! is the verified executable counterpart.

use vstd::prelude::*;
use vstd::string::StrSliceExecFns;

verus! {

/// A character that counts as white space: the Unicode `White_Space` set.
pub open spec fn is_ws_char(c: char) -> bool {
    let u = c as u32;
    ||| (0x09 <= u && u <= 0x0D)
    ||| u == 0x20
    ||| u == 0x85
    ||| u == 0xA0
    ||| u == 0x1680
    ||| (0x2000 <= u && u <= 0x200A)
    ||| u == 0x2028
    ||| u == 0x2029
    ||| u == 0x202F
    ||| u == 0x205F
    ||| u == 0x3000
}

/// Executable test for `is_ws_char`.
pub fn is_ws(c: char) -> (b: bool)
    ensures
        b == is_ws_char(c),
{
    let u = c as u32;
    (0x09 <= u && u <= 0x0D) || u == 0x20 || u == 0x85 || u == 0xA0 || u == 0x1680 || (0x2000 <= u
        && u <= 0x200A) || u == 0x2028 || u == 0x2029 || u == 0x202F || u == 0x205F || u == 0x3000
}

/// Length of the longest all-white-space prefix of `s`.
pub open spec fn ws_prefix_len(s: Seq<char>) -> int
    decreases s.len(),
{
    if s.len() == 0 {
        0
    } else if !is_ws_char(s[0]) {
        0
    } else {
        1 + ws_prefix_len(s.subrange(1, s.len() as int))
    }
}

/// Length of the longest all-white-space suffix of `s`.
pub open spec fn ws_suffix_len(s: Seq<char>) -> int
    decreases s.len(),
{
    if s.len() == 0 {
        0
    } else if !is_ws_char(s[s.len() - 1]) {
        0
    } else {
        1 + ws_suffix_len(s.subrange(0, s.len() - 1))
    }
}

/// `s` with leading and trailing white space removed.
pub open spec fn trim_seq(s: Seq<char>) -> Seq<char> {
    if ws_prefix_len(s) == s.len() {
        Seq::empty()
    } else {
        s.subrange(ws_prefix_len(s), s.len() - ws_suffix_len(s))
    }
}

/// `s` carries no white space at either end.
pub open spec fn is_trimmed(s: Seq<char>) -> bool {
    s.len() > 0 ==> (!is_ws_char(s[0]) && !is_ws_char(s[s.len() - 1]))
}

pub proof fn lemma_ws_prefix_len_props(s: Seq<char>)
    ensures
        0 <= ws_prefix_len(s) <= s.len(),
        forall|j: int| 0 <= j < ws_prefix_len(s) ==> is_ws_char(#[trigger] s[j]),
        ws_prefix_len(s) < s.len() ==> !is_ws_char(s[ws_prefix_len(s)]),
    decreases s.len(),
{
    if s.len() == 0 || !is_ws_char(s[0]) {
    } else {
        let t = s.subrange(1, s.len() as int);
        lemma_ws_prefix_len_props(t);
        assert forall|j: int| 0 <= j < ws_prefix_len(s) implies is_ws_char(#[trigger] s[j]) by {
            if j > 0 {
                assert(s[j] == t[j - 1]);
            }
        }
        if ws_prefix_len(s) < s.len() {
            assert(s[ws_prefix_len(s)] == t[ws_prefix_len(s) - 1]);
        }
    }
}

/// A position that is preceded only by white space and does not itself hold
/// white space is exactly the white-space prefix length.
pub proof fn lemma_ws_prefix_len_is(s: Seq<char>, i: int)
    requires
        0 <= i <= s.len(),
        forall|j: int| 0 <= j < i ==> is_ws_char(#[trigger] s[j]),
        i < s.len() ==> !is_ws_char(s[i]),
    ensures
        ws_prefix_len(s) == i,
    decreases s.len(),
{
    if s.len() == 0 {
    } else if i == 0 {
    } else {
        let t = s.subrange(1, s.len() as int);
        assert(is_ws_char(s[0]));
        assert forall|j: int| 0 <= j < i - 1 implies is_ws_char(#[trigger] t[j]) by {
            assert(t[j] == s[j + 1]);
        }
        if i - 1 < t.len() {
            assert(t[i - 1] == s[i]);
        }
        lemma_ws_prefix_len_is(t, i - 1);
    }
}

pub proof fn lemma_ws_suffix_len_props(s: Seq<char>)
    ensures
        0 <= ws_suffix_len(s) <= s.len(),
        forall|j: int| s.len() - ws_suffix_len(s) <= j < s.len() ==> is_ws_char(#[trigger] s[j]),
        ws_suffix_len(s) < s.len() ==> !is_ws_char(s[s.len() - 1 - ws_suffix_len(s)]),
    decreases s.len(),
{
    if s.len() == 0 || !is_ws_char(s[s.len() - 1]) {
    } else {
        let t = s.subrange(0, s.len() - 1);
        lemma_ws_suffix_len_props(t);
        assert forall|j: int| s.len() - ws_suffix_len(s) <= j < s.len() implies is_ws_char(
            #[trigger] s[j],
        ) by {
            if j < s.len() - 1 {
                assert(s[j] == t[j]);
            }
        }
        if ws_suffix_len(s) < s.len() {
            assert(s[s.len() - 1 - ws_suffix_len(s)] == t[t.len() - 1 - ws_suffix_len(t)]);
        }
    }
}

/// A count of trailing positions that are all white space, bounded on the left
/// by a non-white-space character, is exactly the white-space suffix length.
pub proof fn lemma_ws_suffix_len_is(s: Seq<char>, k: int)
    requires
        0 <= k <= s.len(),
        forall|j: int| s.len() - k <= j < s.len() ==> is_ws_char(#[trigger] s[j]),
        k < s.len() ==> !is_ws_char(s[s.len() - 1 - k]),
    ensures
        ws_suffix_len(s) == k,
    decreases s.len(),
{
    if s.len() == 0 {
    } else if k == 0 {
    } else {
        let t = s.subrange(0, s.len() - 1);
        assert(is_ws_char(s[s.len() - 1]));
        assert forall|j: int| t.len() - (k - 1) <= j < t.len() implies is_ws_char(
            #[trigger] t[j],
        ) by {
            assert(t[j] == s[j]);
        }
        if k - 1 < t.len() {
            assert(t[t.len() - 1 - (k - 1)] == s[s.len() - 1 - k]);
        }
        lemma_ws_suffix_len_is(t, k - 1);
    }
}

/// Trimming never lengthens a sequence, and what it returns carries no white
/// space at either end.
pub proof fn lemma_trim_seq_props(s: Seq<char>)
    ensures
        trim_seq(s).len() <= s.len(),
        is_trimmed(trim_seq(s)),
{
    lemma_ws_prefix_len_props(s);
    lemma_ws_suffix_len_props(s);
    let p = ws_prefix_len(s);
    let q = ws_suffix_len(s);
    if p == s.len() {
    } else {
        if q == s.len() {
            assert(is_ws_char(s[p]));
            assert(false);
        }
        assert(!is_ws_char(s[s.len() - 1 - q]));
        assert(p <= s.len() - 1 - q);
        let t = trim_seq(s);
        assert(t[0] == s[p]);
        assert(t[t.len() - 1] == s[s.len() - 1 - q]);
    }
}

/// Strip leading and trailing white space from a string.
pub fn trim_string(s: &str) -> (r: String)
    ensures
        r@ == trim_seq(s@),
{
    let n = s.unicode_len();
    let mut start: usize = 0;
    while start < n && is_ws(s.get_char(start))
        invariant
            n == s@.len(),
            start <= n,
            forall|j: int| 0 <= j < start ==> is_ws_char(#[trigger] s@[j]),
        decreases n - start,
    {
        start = start + 1;
    }
    if start == n {
        proof {
            lemma_ws_prefix_len_is(s@, n as int);
        }
        return String::new();
    }
    proof {
        lemma_ws_prefix_len_is(s@, start as int);
    }
    let mut end: usize = n;
    while is_ws(s.get_char(end - 1))
        invariant
            n == s@.len(),
            start < end <= n,
            !is_ws_char(s@[start as int]),
            forall|j: int| end <= j < n ==> is_ws_char(#[trigger] s@[j]),
        decreases end,
    {
        end = end - 1;
    }
    proof {
        lemma_ws_suffix_len_is(s@, n - end);
    }
    let t = s.substring_char(start, end);
    t.to_owned()
}

} // verus!
