//! Trimming of what the user typed.

use vstd::prelude::*;

verus! {

/// Whether `c` has the Unicode property White_Space, as `char::is_whitespace`
/// tells it.
pub uninterp spec fn is_white_space(c: char) -> bool;

/// Asks std whether a character is white space.
///
/// The body calls `char::is_whitespace`, whose answer depends on the
/// character alone; the contract gives that answer its name,
/// [`is_white_space`], and claims nothing else of it.
#[verifier::external_body]
fn char_is_white_space(c: char) -> (white: bool)
    ensures
        white == is_white_space(c),
{
    c.is_whitespace()
}

/// The length of `text` in bytes, as `str::len` counts it.
pub open spec fn byte_length(text: Seq<char>) -> usize {
    vstd::utf8::encode_utf8(text).len() as usize
}

/// How many characters of white space `s` begins with.
pub open spec fn white_prefix(s: Seq<char>) -> nat
    decreases s.len(),
{
    if s.len() > 0 && is_white_space(s.first()) {
        1 + white_prefix(s.drop_first())
    } else {
        0
    }
}

/// How many characters of white space `s` ends with.
pub open spec fn white_suffix(s: Seq<char>) -> nat
    decreases s.len(),
{
    if s.len() > 0 && is_white_space(s.last()) {
        1 + white_suffix(s.drop_last())
    } else {
        0
    }
}

/// `s` without the white space it begins with.
pub open spec fn trimmed_start(s: Seq<char>) -> Seq<char> {
    s.skip(white_prefix(s) as int)
}

/// `s` without the white space it begins and ends with.
pub open spec fn trimmed(s: Seq<char>) -> Seq<char> {
    let rest = trimmed_start(s);
    rest.take(rest.len() - white_suffix(rest))
}

/// The white space that a sequence begins or ends with is no longer than the
/// sequence.
pub proof fn lemma_white_bounds(s: Seq<char>)
    ensures
        white_prefix(s) <= s.len(),
        white_suffix(s) <= s.len(),
    decreases s.len(),
{
    if s.len() > 0 {
        lemma_white_bounds(s.drop_first());
        lemma_white_bounds(s.drop_last());
    }
}

/// What trimming leaves neither begins nor ends with white space, and it is
/// empty exactly when every character is white space.
pub proof fn lemma_trimmed_ends(s: Seq<char>)
    ensures
        trimmed(s).len() > 0 ==> !is_white_space(trimmed(s).first()) && !is_white_space(
            trimmed(s).last(),
        ),
        trimmed(s).len() == 0 <==> (forall|i: int| 0 <= i < s.len() ==> is_white_space(#[trigger] s[i])),
{
    lemma_white_bounds(s);
    let rest = trimmed_start(s);
    lemma_white_bounds(rest);
    lemma_prefix_is_white(s);
    lemma_suffix_is_white(rest);
    let kept = trimmed(s);
    if kept.len() > 0 {
        assert(kept.first() == rest[0]);
        assert(kept.last() == rest[rest.len() - white_suffix(rest) - 1]);
        assert(rest[0] == s[white_prefix(s) as int]);
    } else {
        assert forall|i: int| 0 <= i < s.len() implies is_white_space(#[trigger] s[i]) by {
            if i >= white_prefix(s) {
                assert(s[i] == rest[i - white_prefix(s)]);
            }
        }
    }
    if forall|i: int| 0 <= i < s.len() ==> is_white_space(#[trigger] s[i]) {
        if white_prefix(s) < s.len() {
            assert(is_white_space(s[white_prefix(s) as int]));
        }
    }
}

/// The characters counted by `white_prefix` are white space, and the one
/// after them, if there is one, is not.
pub proof fn lemma_prefix_is_white(s: Seq<char>)
    ensures
        white_prefix(s) <= s.len(),
        forall|i: int| 0 <= i < white_prefix(s) ==> is_white_space(#[trigger] s[i]),
        white_prefix(s) < s.len() ==> !is_white_space(s[white_prefix(s) as int]),
    decreases s.len(),
{
    if s.len() > 0 && is_white_space(s.first()) {
        let rest = s.drop_first();
        lemma_prefix_is_white(rest);
        assert forall|i: int| 0 <= i < white_prefix(s) implies is_white_space(#[trigger] s[i]) by {
            if i > 0 {
                assert(s[i] == rest[i - 1]);
            }
        }
        if white_prefix(s) < s.len() {
            assert(s[white_prefix(s) as int] == rest[white_prefix(rest) as int]);
        }
    }
}

/// The characters counted by `white_suffix` are white space, and the one
/// before them, if there is one, is not.
pub proof fn lemma_suffix_is_white(s: Seq<char>)
    ensures
        white_suffix(s) <= s.len(),
        forall|i: int| s.len() - white_suffix(s) <= i < s.len() ==> is_white_space(#[trigger] s[i]),
        white_suffix(s) < s.len() ==> !is_white_space(s[s.len() - white_suffix(s) - 1]),
    decreases s.len(),
{
    if s.len() > 0 && is_white_space(s.last()) {
        let rest = s.drop_last();
        lemma_suffix_is_white(rest);
        assert forall|i: int| s.len() - white_suffix(s) <= i < s.len() implies is_white_space(
            #[trigger] s[i],
        ) by {
            if i < s.len() - 1 {
                assert(s[i] == rest[i]);
            }
        }
        if white_suffix(s) < s.len() {
            assert(s[s.len() - white_suffix(s) - 1] == rest[rest.len() - white_suffix(rest) - 1]);
        }
    }
}

/// A run of white space at the start of `s`, followed by something else or by
/// the end, is all the white space that `s` begins with.
proof fn lemma_prefix_found(s: Seq<char>, k: int)
    requires
        0 <= k <= s.len(),
        forall|i: int| 0 <= i < k ==> is_white_space(#[trigger] s[i]),
        k < s.len() ==> !is_white_space(s[k]),
    ensures
        white_prefix(s) == k,
    decreases s.len(),
{
    if k > 0 {
        assert(is_white_space(s[0]));
        let rest = s.drop_first();
        assert forall|i: int| 0 <= i < k - 1 implies is_white_space(#[trigger] rest[i]) by {
            assert(rest[i] == s[i + 1]);
        }
        lemma_prefix_found(rest, k - 1);
    }
}

/// A run of white space at the end of `s`, preceded by something else or by
/// the start, is all the white space that `s` ends with.
proof fn lemma_suffix_found(s: Seq<char>, k: int)
    requires
        0 <= k <= s.len(),
        forall|i: int| s.len() - k <= i < s.len() ==> is_white_space(#[trigger] s[i]),
        k < s.len() ==> !is_white_space(s[s.len() - k - 1]),
    ensures
        white_suffix(s) == k,
    decreases s.len(),
{
    if k > 0 {
        assert(is_white_space(s[s.len() - 1]));
        let rest = s.drop_last();
        assert forall|i: int| rest.len() - (k - 1) <= i < rest.len() implies is_white_space(
            #[trigger] rest[i],
        ) by {
            assert(rest[i] == s[i]);
        }
        lemma_suffix_found(rest, k - 1);
    }
}

/// Returns `text` without the white space around it, as `str::trim` does.
pub fn trim(text: &str) -> (kept: &str)
    ensures
        kept@ == trimmed(text@),
{
    let length: usize = text.unicode_len();
    let mut start: usize = 0;
    while start < length && char_is_white_space(text.get_char(start))
        invariant
            length == text@.len(),
            start <= length,
            forall|i: int| 0 <= i < start ==> is_white_space(#[trigger] text@[i]),
        decreases length - start,
    {
        start += 1;
    }
    let mut end: usize = length;
    while end > start && char_is_white_space(text.get_char(end - 1))
        invariant
            length == text@.len(),
            start <= end <= length,
            forall|i: int| end <= i < length ==> is_white_space(#[trigger] text@[i]),
        decreases end,
    {
        end -= 1;
    }
    proof {
        let whole = text@;
        lemma_prefix_found(whole, start as int);
        let rest = trimmed_start(whole);
        assert forall|i: int| rest.len() - (length - end) <= i < rest.len() implies is_white_space(
            #[trigger] rest[i],
        ) by {
            assert(rest[i] == whole[i + start]);
        }
        if length - end < rest.len() {
            assert(rest[rest.len() - (length - end) - 1] == whole[end - 1]);
        }
        lemma_suffix_found(rest, length - end);
        assert(whole.subrange(start as int, end as int) =~= trimmed(whole));
    }
    text.substring_char(start, end)
}

} // verus!
