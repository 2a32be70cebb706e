//! Text normalisation shared by the other modules: white space, trimming and
//! comparison of strings, stated over sequences of characters.

use vstd::prelude::*;
use vstd::string::*;

verus! {

/// Whether `c` has Unicode's `White_Space` property: the blank, the controls
/// from tab to carriage return, next line, the no-break spaces, the Ogham
/// space mark, the spaces of the general punctuation block, the line and
/// paragraph separators, and the ideographic space.
pub open spec fn white_space(c: char) -> bool {
    let n = c as u32;
    ||| n == 0x20
    ||| 0x09 <= n <= 0x0D
    ||| n == 0x85
    ||| n == 0xA0
    ||| n == 0x1680
    ||| 0x2000 <= n <= 0x200A
    ||| n == 0x2028
    ||| n == 0x2029
    ||| n == 0x202F
    ||| n == 0x205F
    ||| n == 0x3000
}

/// Whether `c` is white space.
pub fn is_white_space(c: char) -> (r: bool)
    ensures
        r == white_space(c),
{
    let n: u32 = c as u32;
    n == 0x20 || (0x09 <= n && n <= 0x0D) || n == 0x85 || n == 0xA0 || n == 0x1680 || (0x2000 <= n
        && n <= 0x200A) || n == 0x2028 || n == 0x2029 || n == 0x202F || n == 0x205F || n == 0x3000
}

/// Calls `==` on two string slices. The contract claims that two slices are
/// equal exactly when they hold the same characters in the same order.
#[verifier::external_body]
pub(crate) fn same_text(a: &str, b: &str) -> (r: bool)
    ensures
        r == (a@ == b@),
{
    a == b
}

/// Every character of `s` is white space; the empty text is blank.
pub open spec fn blank(s: Seq<char>) -> bool {
    forall|i: int| 0 <= i < s.len() ==> white_space(#[trigger] s[i])
}

/// The number of white space characters at the front of `s`.
pub open spec fn leading_white(s: Seq<char>) -> nat
    decreases s.len(),
{
    if s.len() == 0 || !white_space(s[0]) {
        0
    } else {
        1 + leading_white(s.drop_first())
    }
}

/// The number of white space characters at the back of `s`.
pub open spec fn trailing_white(s: Seq<char>) -> nat
    decreases s.len(),
{
    if s.len() == 0 || !white_space(s.last()) {
        0
    } else {
        1 + trailing_white(s.drop_last())
    }
}

/// `s` without its leading and trailing white space.
pub open spec fn trimmed(s: Seq<char>) -> Seq<char> {
    if leading_white(s) >= s.len() {
        Seq::empty()
    } else {
        s.subrange(leading_white(s) as int, s.len() - trailing_white(s))
    }
}

/// The leading white space of `s` ends at `a` when everything before `a` is
/// white space and `a` is the end of `s` or holds another character.
pub proof fn lemma_leading_white(s: Seq<char>, a: int)
    requires
        0 <= a <= s.len(),
        forall|k: int| 0 <= k < a ==> white_space(#[trigger] s[k]),
        a == s.len() || !white_space(s[a]),
    ensures
        leading_white(s) == a,
    decreases a,
{
    if a > 0 {
        let rest = s.drop_first();
        assert forall|k: int| 0 <= k < a - 1 implies white_space(#[trigger] rest[k]) by {
            assert(rest[k] == s[k + 1]);
        }
        if a < s.len() {
            assert(rest[a - 1] == s[a]);
        }
        lemma_leading_white(rest, a - 1);
    }
}

/// The trailing white space of `s` starts at `b` when everything from `b` on
/// is white space and `b` is the start of `s` or follows another character.
pub proof fn lemma_trailing_white(s: Seq<char>, b: int)
    requires
        0 <= b <= s.len(),
        forall|k: int| b <= k < s.len() ==> white_space(#[trigger] s[k]),
        b == 0 || !white_space(s[b - 1]),
    ensures
        trailing_white(s) == s.len() - b,
    decreases s.len() - b,
{
    if b < s.len() {
        let rest = s.drop_last();
        assert forall|k: int| b <= k < rest.len() implies white_space(#[trigger] rest[k]) by {
            assert(rest[k] == s[k]);
        }
        if b > 0 {
            assert(rest[b - 1] == s[b - 1]);
        }
        lemma_trailing_white(rest, b);
    }
}

/// Trimming leaves nothing exactly when the text is blank.
pub proof fn lemma_trimmed_empty_iff_blank(s: Seq<char>)
    ensures
        trimmed(s).len() == 0 <==> blank(s),
        blank(s) ==> trimmed(s) == Seq::<char>::empty(),
        !blank(s) ==> !white_space(trimmed(s).first()) && !white_space(trimmed(s).last()),
{
    lemma_white_runs(s);
    let a = leading_white(s) as int;
    if a < s.len() {
        assert(!white_space(s[a]));
        let b = s.len() - trailing_white(s);
        assert(a < b) by {
            if b <= a {
                assert(white_space(s[a]));
            }
        }
        assert(trimmed(s).first() == s[a]);
        assert(trimmed(s).last() == s[b - 1]);
    }
}

/// What the two counts mean: the characters they cover are white space, and
/// the character next to each run, if there is one, is not.
pub proof fn lemma_white_runs(s: Seq<char>)
    ensures
        leading_white(s) <= s.len(),
        trailing_white(s) <= s.len(),
        forall|k: int| 0 <= k < leading_white(s) ==> white_space(#[trigger] s[k]),
        leading_white(s) < s.len() ==> !white_space(s[leading_white(s) as int]),
        forall|k: int| s.len() - trailing_white(s) <= k < s.len() ==> white_space(#[trigger] s[k]),
        trailing_white(s) < s.len() ==> !white_space(s[s.len() - trailing_white(s) - 1]),
    decreases s.len(),
{
    if s.len() > 0 {
        if white_space(s[0]) {
            let rest = s.drop_first();
            lemma_white_runs(rest);
            assert forall|k: int| 0 <= k < leading_white(s) implies white_space(#[trigger] s[k]) by {
                if k > 0 {
                    assert(s[k] == rest[k - 1]);
                }
            }
            if leading_white(s) < s.len() {
                assert(s[leading_white(s) as int] == rest[leading_white(rest) as int]);
            }
        }
        if white_space(s.last()) {
            let rest = s.drop_last();
            lemma_white_runs(rest);
            assert forall|k: int| s.len() - trailing_white(s) <= k < s.len() implies white_space(
                #[trigger] s[k],
            ) by {
                if k < s.len() - 1 {
                    assert(s[k] == rest[k]);
                }
            }
            if trailing_white(s) < s.len() {
                assert(s[s.len() - trailing_white(s) - 1] == rest[rest.len() - trailing_white(rest)
                    - 1]);
            }
        }
    }
}

/// The trimmed text of `s`, or nothing where `s` is blank.
pub open spec fn non_blank(s: Seq<char>) -> Option<Seq<char>> {
    if trimmed(s).len() == 0 {
        None
    } else {
        Some(trimmed(s))
    }
}

/// Removes leading and trailing white space.
pub fn trim(s: &str) -> (r: &str)
    ensures
        r@ == trimmed(s@),
{
    let n: usize = s.unicode_len();
    let mut start: usize = 0;
    let mut end: usize = 0;
    let mut i: usize = 0;
    for c in it: s.chars()
        invariant
            it.seq() == s@,
            n == s@.len(),
            i == it.index(),
            start <= end <= i,
            end == 0 ==> start == 0,
            forall|k: int| 0 <= k < (if end == 0 { i } else { start }) ==> white_space(#[trigger] s@[k]),
            forall|k: int| end <= k < i ==> white_space(#[trigger] s@[k]),
            end > 0 ==> !white_space(s@[start as int]) && !white_space(s@[end - 1]),
    {
        if !is_white_space(c) {
            if end == 0 {
                start = i;
            }
            end = i + 1;
        }
        i = i + 1;
    }
    proof {
        if end == 0 {
            lemma_leading_white(s@, n as int);
        } else {
            lemma_leading_white(s@, start as int);
            lemma_trailing_white(s@, end as int);
        }
    }
    s.substring_char(start, end)
}

/// Trims `value`; a blank text stands for nothing.
pub fn non_blank_text(value: &str) -> (r: Option<String>)
    ensures
        r.deep_view() == non_blank(value@),
        r is None <==> blank(value@),
{
    proof {
        lemma_trimmed_empty_iff_blank(value@);
    }
    let kept = trim(value);
    if kept.is_empty() {
        None
    } else {
        Some(kept.to_owned())
    }
}

} // verus!
