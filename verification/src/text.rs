use vstd::prelude::*;
use vstd::string::{StringExecFns, StrSliceExecFns};

verus! {

/// `p` occurs in `t` starting at position `i`.
pub open spec fn matches_at(t: Seq<char>, p: Seq<char>, i: int) -> bool {
    &&& 0 <= i
    &&& i + p.len() <= t.len()
    &&& t.subrange(i, i + p.len()) == p
}

/// The position of the first occurrence of `p` in `t` at or after `i`.
pub open spec fn first_match_from(t: Seq<char>, p: Seq<char>, i: int) -> Option<int>
    decreases t.len() - i,
{
    if i < 0 || i + p.len() > t.len() {
        None
    } else if p.len() == 0 {
        Some(i)
    } else if matches_at(t, p, i) {
        Some(i)
    } else {
        first_match_from(t, p, i + 1)
    }
}

/// Finds the first occurrence of `pat` in `text`, by character position.
pub fn find_substr(text: &str, pat: &str) -> (r: Option<usize>)
    ensures
        match r {
            Some(i) => {
                &&& first_match_from(text@, pat@, 0) == Some(i as int)
                &&& matches_at(text@, pat@, i as int)
                &&& forall|j: int| 0 <= j < i ==> !matches_at(text@, pat@, j)
            },
            None => {
                &&& first_match_from(text@, pat@, 0) is None
                &&& forall|j: int| !matches_at(text@, pat@, j)
            },
        },
{
    let n = text.unicode_len();
    let m = pat.unicode_len();
    if m > n {
        return None;
    }
    let mut i: usize = 0;
    while i <= n - m
        invariant
            m <= n == text@.len(),
            m == pat@.len(),
            i <= n - m + 1,
            first_match_from(text@, pat@, 0) == first_match_from(text@, pat@, i as int),
            forall|j: int| 0 <= j < i ==> !matches_at(text@, pat@, j),
        decreases n - i,
    {
        let mut k: usize = 0;
        while k < m && text.get_char(i + k) == pat.get_char(k)
            invariant
                m <= n == text@.len(),
                m == pat@.len(),
                i + m <= n,
                k <= m,
                forall|l: int| 0 <= l < k ==> text@[i + l] == pat@[l],
            decreases m - k,
        {
            k = k + 1;
        }
        if k == m {
            proof {
                assert(text@.subrange(i as int, i + m) =~= pat@);
            }
            return Some(i);
        }
        proof {
            assert(!matches_at(text@, pat@, i as int)) by {
                if matches_at(text@, pat@, i as int) {
                    assert(text@.subrange(i as int, i + m)[k as int] == pat@[k as int]);
                }
            }
        }
        i = i + 1;
    }
    proof {
        assert(forall|j: int| i <= j ==> !matches_at(text@, pat@, j));
    }
    None
}

/// A character the surrounding text is stripped of.
pub open spec fn is_space(c: char) -> bool {
    c == ' ' || c == '\t' || c == '\n' || c == '\r'
}

/// `t` with leading and trailing space characters removed.
pub open spec fn spec_trim(t: Seq<char>) -> Seq<char>
    decreases t.len(),
{
    if t.len() > 0 && is_space(t.first()) {
        spec_trim(t.drop_first())
    } else if t.len() > 0 && is_space(t.last()) {
        spec_trim(t.drop_last())
    } else {
        t
    }
}

/// The trimmed text is the subrange that drops exactly the space characters
/// at either end.
proof fn lemma_trim_subrange(t: Seq<char>, a: int, b: int)
    requires
        0 <= a <= b <= t.len(),
        forall|j: int| 0 <= j < a ==> is_space(#[trigger] t[j]),
        forall|j: int| b <= j < t.len() ==> is_space(#[trigger] t[j]),
        a < b ==> !is_space(t[a]) && !is_space(t[b - 1]),
    ensures
        spec_trim(t) == t.subrange(a, b),
    decreases t.len(),
{
    if t.len() == 0 {
        assert(spec_trim(t) =~= t.subrange(a, b));
    } else if a == 0 && b == 0 {
        assert(is_space(t.first()));
        lemma_trim_subrange(t.drop_first(), 0, 0);
        assert(t.drop_first().subrange(0, 0) =~= t.subrange(0, 0));
    } else if a > 0 {
        assert(is_space(t.first()));
        let s = t.drop_first();
        assert(forall|j: int| 0 <= j < a - 1 ==> is_space(#[trigger] s[j]));
        assert(forall|j: int| b - 1 <= j < s.len() ==> is_space(#[trigger] s[j]));
        lemma_trim_subrange(s, a - 1, b - 1);
        assert(s.subrange(a - 1, b - 1) =~= t.subrange(a, b));
    } else if b < t.len() {
        assert(!is_space(t[0]));
        assert(is_space(t.last()));
        let s = t.drop_last();
        assert(forall|j: int| b <= j < s.len() ==> is_space(#[trigger] s[j]));
        lemma_trim_subrange(s, 0, b);
        assert(s.subrange(0, b) =~= t.subrange(0, b));
    } else {
        assert(!is_space(t.first()));
        assert(spec_trim(t) == t);
        assert(t.subrange(0, t.len() as int) =~= t);
    }
}

fn is_space_char(c: char) -> (r: bool)
    ensures
        r == is_space(c),
{
    c == ' ' || c == '\t' || c == '\n' || c == '\r'
}

/// Strips leading and trailing space characters.
pub fn trim_str(s: &str) -> (r: String)
    ensures
        r@ == spec_trim(s@),
{
    let n = s.unicode_len();
    let mut a: usize = 0;
    while a < n && is_space_char(s.get_char(a))
        invariant
            a <= n == s@.len(),
            forall|j: int| 0 <= j < a ==> is_space(#[trigger] s@[j]),
        decreases n - a,
    {
        a = a + 1;
    }
    let mut b: usize = n;
    while b > a && is_space_char(s.get_char(b - 1))
        invariant
            a <= b <= n == s@.len(),
            forall|j: int| b <= j < n ==> is_space(#[trigger] s@[j]),
        decreases b,
    {
        b = b - 1;
    }
    let out = s.substring_char(a, b);
    proof {
        lemma_trim_subrange(s@, a as int, b as int);
    }
    String::from_str(out)
}

} // verus!
