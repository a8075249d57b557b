//! String helpers shared by the extraction engine: trimming and joining.

use vstd::prelude::*;
use vstd::string::*;

verus! {

/// Whether `c` is white space in the sense of `char::is_whitespace`.
pub uninterp spec fn white_space(c: char) -> bool;

/// `char::is_whitespace`: whether `c` has the Unicode property `White_Space`.
#[verifier::external_body]
pub(crate) fn is_whitespace(c: char) -> (b: bool)
    ensures
        b == white_space(c),
{
    c.is_whitespace()
}

/// The number of white-space characters at the front of `s`.
pub open spec fn leading_blank(s: Seq<char>) -> nat
    decreases s.len(),
{
    if s.len() > 0 && white_space(s[0]) {
        1 + leading_blank(s.drop_first())
    } else {
        0
    }
}

/// The number of white-space characters at the back of `s`.
pub open spec fn trailing_blank(s: Seq<char>) -> nat
    decreases s.len(),
{
    if s.len() > 0 && white_space(s.last()) {
        1 + trailing_blank(s.drop_last())
    } else {
        0
    }
}

/// `s` without the white space at its two ends.
pub open spec fn trimmed(s: Seq<char>) -> Seq<char> {
    let rest = s.skip(leading_blank(s) as int);
    rest.take(rest.len() - trailing_blank(rest))
}

/// Whether every character of `s` is white space.
pub open spec fn blank(s: Seq<char>) -> bool {
    forall|i: int| 0 <= i < s.len() ==> white_space(#[trigger] s[i])
}

/// The parts written one after the other with `sep` between neighbours.
pub open spec fn joined(parts: Seq<Seq<char>>, sep: Seq<char>) -> Seq<char>
    decreases parts.len(),
{
    if parts.len() == 0 {
        Seq::empty()
    } else if parts.len() == 1 {
        parts[0]
    } else {
        joined(parts.drop_last(), sep) + sep + parts.last()
    }
}

/// A run of `n` white-space characters that ends the sequence or stops at a
/// visible character is the whole leading run.
pub proof fn lemma_leading_blank(s: Seq<char>, n: int)
    requires
        0 <= n <= s.len(),
        forall|i: int| 0 <= i < n ==> white_space(#[trigger] s[i]),
        n == s.len() || !white_space(s[n]),
    ensures
        leading_blank(s) == n,
    decreases n,
{
    if n > 0 {
        lemma_leading_blank(s.drop_first(), n - 1);
    }
}

/// The mirror image of `lemma_leading_blank` for the back of the sequence.
pub proof fn lemma_trailing_blank(s: Seq<char>, n: int)
    requires
        0 <= n <= s.len(),
        forall|i: int| s.len() - n <= i < s.len() ==> white_space(#[trigger] s[i]),
        n == s.len() || !white_space(s[s.len() - n - 1]),
    ensures
        trailing_blank(s) == n,
    decreases n,
{
    if n > 0 {
        lemma_trailing_blank(s.drop_last(), n - 1);
    }
}

/// Trimming leaves nothing exactly when the sequence is blank.
pub proof fn lemma_trimmed_empty_iff_blank(s: Seq<char>)
    ensures
        trimmed(s).len() == 0 <==> blank(s),
{
    lemma_blank_runs(s);
    lemma_blank_runs(s.skip(leading_blank(s) as int));
    if blank(s) {
        lemma_leading_blank(s, s.len() as int);
    }
}

/// What the two counts say of the characters they cover and of the first
/// character beyond each.
pub proof fn lemma_blank_runs(s: Seq<char>)
    ensures
        leading_blank(s) <= s.len(),
        trailing_blank(s) <= s.len(),
        forall|i: int| 0 <= i < leading_blank(s) ==> white_space(#[trigger] s[i]),
        forall|i: int| s.len() - trailing_blank(s) <= i < s.len() ==> white_space(#[trigger] s[i]),
        leading_blank(s) < s.len() ==> !white_space(s[leading_blank(s) as int]),
        trailing_blank(s) < s.len() ==> !white_space(s[s.len() - trailing_blank(s) - 1]),
    decreases s.len(),
{
    if s.len() > 0 {
        if white_space(s[0]) {
            let rest = s.drop_first();
            lemma_blank_runs(rest);
            assert forall|i: int| 0 <= i < leading_blank(s) implies white_space(
                #[trigger] s[i],
            ) by {
                if i > 0 {
                    assert(s[i] == rest[i - 1]);
                }
            }
        }
        if white_space(s.last()) {
            let rest = s.drop_last();
            lemma_blank_runs(rest);
            assert forall|i: int| s.len() - trailing_blank(s) <= i < s.len() implies white_space(
                #[trigger] s[i],
            ) by {
                if i < s.len() - 1 {
                    assert(s[i] == rest[i]);
                }
            }
            if trailing_blank(s) < s.len() {
                assert(s[s.len() - trailing_blank(s) - 1] == rest[rest.len() - trailing_blank(rest)
                    - 1]);
            }
        }
    }
}

/// The slice of `s` that is left when the white space at both ends is
/// removed, as `str::trim` returns it.
pub fn trim(s: &str) -> (r: &str)
    ensures
        r@ == trimmed(s@),
{
    let total = s.unicode_len();
    let mut first: usize = 0;
    let mut after_last: usize = 0;
    let mut i: usize = 0;
    for c in it: s.chars()
        invariant
            i == it.index(),
            it.seq() == s@,
            total == s@.len(),
            i <= total,
            after_last <= i,
            after_last == 0 ==> forall|k: int| 0 <= k < i ==> white_space(#[trigger] s@[k]),
            after_last == 0 ==> first == 0,
            after_last > 0 ==> first < after_last,
            after_last > 0 ==> !white_space(s@[first as int]),
            after_last > 0 ==> !white_space(s@[after_last - 1]),
            after_last > 0 ==> forall|k: int| 0 <= k < first ==> white_space(#[trigger] s@[k]),
            forall|k: int| after_last <= k < i ==> white_space(#[trigger] s@[k]),
    {
        if !is_whitespace(c) {
            if after_last == 0 {
                first = i;
            }
            after_last = i + 1;
        }
        i = i + 1;
    }
    proof {
        if after_last == 0 {
            lemma_leading_blank(s@, total as int);
        } else {
            lemma_leading_blank(s@, first as int);
            lemma_trailing_blank(s@.skip(first as int), total - after_last);
        }
    }
    s.substring_char(first, after_last)
}

/// The strings of `parts` written one after the other with `sep` between
/// neighbours.
pub fn join(parts: &Vec<String>, sep: &str) -> (r: String)
    ensures
        r@ == joined(parts.deep_view(), sep@),
{
    let mut out = String::new();
    let mut i: usize = 0;
    while i < parts.len()
        invariant
            i <= parts.len(),
            out@ == joined(parts.deep_view().take(i as int), sep@),
        decreases parts.len() - i,
    {
        assert(parts.deep_view().take(i + 1).drop_last() =~= parts.deep_view().take(i as int));
        if i > 0 {
            out.append(sep);
        }
        out.append(parts[i].as_str());
        i = i + 1;
    }
    assert(parts.deep_view().take(i as int) =~= parts.deep_view());
    out
}

} // verus!
