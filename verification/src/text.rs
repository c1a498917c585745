//! Whitespace classification and trimming of `&str` values.

use vstd::prelude::*;

verus! {

/// A character with the Unicode `White_Space` property: the characters
/// that leading/trailing trimming removes from a caller-supplied name.
pub open spec fn is_space(c: char) -> bool {
    c == ' ' || c == '\t' || c == '\n' || c == '\u{0B}' || c == '\u{0C}' || c == '\r'
        || c == '\u{85}' || c == '\u{A0}' || c == '\u{1680}'
        || ('\u{2000}' <= c && c <= '\u{200A}')
        || c == '\u{2028}' || c == '\u{2029}' || c == '\u{202F}' || c == '\u{205F}'
        || c == '\u{3000}'
}

/// Decides the Unicode `White_Space` property, exactly as `is_space` states it.
pub fn is_space_char(c: char) -> (r: bool)
    ensures
        r == is_space(c),
{
    c == ' ' || c == '\t' || c == '\n' || c == '\u{0B}' || c == '\u{0C}' || c == '\r'
        || c == '\u{85}' || c == '\u{A0}' || c == '\u{1680}'
        || ('\u{2000}' <= c && c <= '\u{200A}')
        || c == '\u{2028}' || c == '\u{2029}' || c == '\u{202F}' || c == '\u{205F}'
        || c == '\u{3000}'
}

/// `s` with leading whitespace removed.
pub open spec fn trim_start(s: Seq<char>) -> Seq<char>
    decreases s.len(),
{
    if s.len() > 0 && is_space(s[0]) {
        trim_start(s.drop_first())
    } else {
        s
    }
}

/// `s` with trailing whitespace removed.
pub open spec fn trim_end(s: Seq<char>) -> Seq<char>
    decreases s.len(),
{
    if s.len() > 0 && is_space(s[s.len() - 1]) {
        trim_end(s.drop_last())
    } else {
        s
    }
}

/// `s` with both leading and trailing whitespace removed.
pub open spec fn trim(s: Seq<char>) -> Seq<char> {
    trim_end(trim_start(s))
}

/// Removes leading and trailing whitespace, exactly as `trim` states it.
pub fn trim_str<'a>(s: &'a str) -> (r: &'a str)
    ensures
        r@ == trim(s@),
{
    let n: usize = s.unicode_len();
    let mut i: usize = 0;
    proof {
        assert(s@.subrange(0, n as int) =~= s@);
    }
    while i < n && is_space_char(s.get_char(i))
        invariant
            i <= n,
            n == s@.len(),
            trim_start(s@) == trim_start(s@.subrange(i as int, n as int)),
        decreases n - i,
    {
        proof {
            assert(s@.subrange(i as int, n as int).drop_first() =~= s@.subrange(
                i as int + 1,
                n as int,
            ));
        }
        i = i + 1;
    }
    proof {
        assert(trim_start(s@) == s@.subrange(i as int, n as int));
    }
    let mut j: usize = n;
    while j > i && is_space_char(s.get_char(j - 1))
        invariant
            i <= j <= n,
            n == s@.len(),
            trim_start(s@) == s@.subrange(i as int, n as int),
            trim_end(s@.subrange(i as int, n as int)) == trim_end(
                s@.subrange(i as int, j as int),
            ),
        decreases j,
    {
        proof {
            assert(s@.subrange(i as int, j as int).drop_last() =~= s@.subrange(
                i as int,
                j as int - 1,
            ));
        }
        j = j - 1;
    }
    proof {
        assert(trim(s@) == s@.subrange(i as int, j as int));
    }
    s.substring_char(i, j)
}

/// `a` witnesses where the leading whitespace of `s` ends.
spec fn trim_start_at(s: Seq<char>, a: int) -> bool {
    &&& 0 <= a <= s.len()
    &&& trim_start(s) == s.subrange(a, s.len() as int)
    &&& forall|k: int| 0 <= k < a ==> is_space(s[k])
    &&& a < s.len() ==> !is_space(s[a])
}

/// `b` witnesses where the trailing whitespace of `s` begins.
spec fn trim_end_at(s: Seq<char>, b: int) -> bool {
    &&& 0 <= b <= s.len()
    &&& trim_end(s) == s.subrange(0, b)
    &&& forall|k: int| b <= k < s.len() ==> is_space(s[k])
    &&& b > 0 ==> !is_space(s[b - 1])
}

/// `i` and `j` witness that `trim(s)` is the contiguous middle of `s`:
/// everything dropped on either side is whitespace, and what is kept
/// neither starts nor ends with whitespace.
pub open spec fn trim_bounds(s: Seq<char>, i: int, j: int) -> bool {
    &&& 0 <= i <= j <= s.len()
    &&& trim(s) == s.subrange(i, j)
    &&& forall|k: int| 0 <= k < i ==> is_space(s[k])
    &&& forall|k: int| j <= k < s.len() ==> is_space(s[k])
    &&& i < j ==> !is_space(s[i]) && !is_space(s[j - 1])
}

proof fn lemma_trim_start_shape(s: Seq<char>)
    ensures
        exists|a: int| trim_start_at(s, a),
    decreases s.len(),
{
    if s.len() > 0 && is_space(s[0]) {
        lemma_trim_start_shape(s.drop_first());
        let a0 = choose|a: int| trim_start_at(s.drop_first(), a);
        assert(s.drop_first().subrange(a0, s.drop_first().len() as int) =~= s.subrange(
            a0 + 1,
            s.len() as int,
        ));
        assert forall|k: int| 0 <= k < a0 + 1 implies is_space(s[k]) by {
            if k > 0 {
                assert(is_space(s.drop_first()[k - 1]));
            }
        }
        assert(trim_start_at(s, a0 + 1));
    } else {
        assert(s.subrange(0, s.len() as int) =~= s);
        assert(trim_start_at(s, 0));
    }
}

proof fn lemma_trim_end_shape(s: Seq<char>)
    ensures
        exists|b: int| trim_end_at(s, b),
    decreases s.len(),
{
    if s.len() > 0 && is_space(s[s.len() - 1]) {
        lemma_trim_end_shape(s.drop_last());
        let b0 = choose|b: int| trim_end_at(s.drop_last(), b);
        assert(s.drop_last().subrange(0, b0) =~= s.subrange(0, b0));
        assert forall|k: int| b0 <= k < s.len() implies is_space(s[k]) by {
            if k < s.len() - 1 {
                assert(is_space(s.drop_last()[k]));
            }
        }
        assert(trim_end_at(s, b0));
    } else {
        assert(s.subrange(0, s.len() as int) =~= s);
        assert(trim_end_at(s, s.len() as int));
    }
}

/// Law: trimming keeps exactly the contiguous middle of the string.
/// There are bounds `i <= j` with `trim(s) == s[i .. j]`, every
/// character outside them is whitespace, and a non-empty result
/// neither starts nor ends with whitespace.
pub proof fn lemma_trim_characterization(s: Seq<char>)
    ensures
        exists|i: int, j: int| trim_bounds(s, i, j),
{
    lemma_trim_start_shape(s);
    let a = choose|a: int| trim_start_at(s, a);
    let t = trim_start(s);
    lemma_trim_end_shape(t);
    let b = choose|b: int| trim_end_at(t, b);
    assert(t.subrange(0, b) =~= s.subrange(a, a + b));
    assert forall|k: int| a + b <= k < s.len() implies is_space(s[k]) by {
        assert(is_space(t[k - a]));
    }
    if a < a + b {
        assert(!is_space(t[0]));
        assert(!is_space(t[b - 1]));
    }
    assert(trim_bounds(s, a, a + b));
}

/// Law: a string of whitespace alone trims to the empty string.
pub proof fn lemma_trim_of_all_space(s: Seq<char>)
    requires
        forall|k: int| 0 <= k < s.len() ==> is_space(s[k]),
    ensures
        trim(s).len() == 0,
{
    lemma_trim_characterization(s);
    let (i, j) = choose|i: int, j: int| trim_bounds(s, i, j);
    if i < j {
        assert(is_space(s[i]));
    }
}

/// Law: a string with at least one non-whitespace character trims to a
/// non-empty string.
pub proof fn lemma_trim_keeps_content(s: Seq<char>)
    requires
        exists|k: int| 0 <= k < s.len() && !is_space(s[k]),
    ensures
        trim(s).len() > 0,
{
    lemma_trim_characterization(s);
    let (i, j) = choose|i: int, j: int| trim_bounds(s, i, j);
    let k = choose|k: int| 0 <= k < s.len() && !is_space(s[k]);
    if k < i || j <= k {
        assert(is_space(s[k]));
    }
}

} // verus!
