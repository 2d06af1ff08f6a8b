//! Text as sequences of characters: where one text occurs in another, and
//! how occurrences behave when texts are joined.

use vstd::prelude::*;

verus! {

/// Whether `pattern` stands in `text` at character offset `at`.
pub open spec fn occurs_at(text: Seq<char>, pattern: Seq<char>, at: int) -> bool {
    &&& 0 <= at
    &&& at + pattern.len() <= text.len()
    &&& text.subrange(at, at + pattern.len()) == pattern
}

/// Whether `pattern` stands somewhere in `text`.
pub open spec fn contains(text: Seq<char>, pattern: Seq<char>) -> bool {
    exists|at: int| occurs_at(text, pattern, at)
}

/// Whether the character `c` is nowhere in `text`.
pub open spec fn lacks(text: Seq<char>, c: char) -> bool {
    forall|i: int| 0 <= i < text.len() ==> text[i] != c
}

/// Whether `text` consists of decimal digits only (the empty text does).
pub open spec fn is_digits(text: Seq<char>) -> bool {
    forall|i: int| 0 <= i < text.len() ==> '0' <= #[trigger] text[i] <= '9'
}

/// Whether the last character of `text` can only end an occurrence of
/// `pattern`: it stands nowhere in `pattern` but, possibly, at its end.
pub open spec fn closes_left(text: Seq<char>, pattern: Seq<char>) -> bool {
    &&& text.len() > 0
    &&& forall|k: int| 0 <= k < pattern.len() - 1 ==> pattern[k] != text.last()
}

/// Whether the first character of `text` can only begin an occurrence of
/// `pattern`: it stands nowhere in `pattern` but, possibly, at its start.
pub open spec fn closes_right(text: Seq<char>, pattern: Seq<char>) -> bool {
    &&& text.len() > 0
    &&& forall|k: int| 1 <= k < pattern.len() ==> pattern[k] != text.first()
}

/// Whether two texts are the same.
pub fn same_text(a: &str, b: &str) -> (same: bool)
    ensures
        same == (a@ == b@),
{
    let left = String::from_str(a);
    let right = String::from_str(b);
    left == right
}

/// An occurrence is character-wise agreement.
pub proof fn lemma_occurrence_chars(text: Seq<char>, pattern: Seq<char>, at: int)
    requires
        occurs_at(text, pattern, at),
    ensures
        forall|k: int| 0 <= k < pattern.len() ==> text[at + k] == pattern[k],
{
    assert forall|k: int| 0 <= k < pattern.len() implies text[at + k] == pattern[k] by {
        assert(text.subrange(at, at + pattern.len())[k] == text[at + k]);
    }
}

/// Character-wise agreement is an occurrence.
pub proof fn lemma_chars_occur(text: Seq<char>, pattern: Seq<char>, at: int)
    requires
        0 <= at,
        at + pattern.len() <= text.len(),
        forall|k: int| 0 <= k < pattern.len() ==> text[at + k] == pattern[k],
    ensures
        occurs_at(text, pattern, at),
        contains(text, pattern),
{
    assert(text.subrange(at, at + pattern.len()) =~= pattern);
    assert(occurs_at(text, pattern, at));
}

/// A text between two others occurs in the whole.
pub proof fn lemma_contains_middle(before: Seq<char>, pattern: Seq<char>, after: Seq<char>)
    ensures
        contains(before + pattern + after, pattern),
{
    let whole = before + pattern + after;
    let start = before.len() as int;
    assert(whole.subrange(start, start + pattern.len()) =~= pattern);
    assert(occurs_at(whole, pattern, start));
}

/// What occurs in a part occurs in the whole.
pub proof fn lemma_contains_grows(before: Seq<char>, text: Seq<char>, after: Seq<char>, pattern: Seq<char>)
    requires
        contains(text, pattern),
    ensures
        contains(before + text + after, pattern),
{
    let at = choose|at: int| occurs_at(text, pattern, at);
    let whole = before + text + after;
    lemma_occurrence_chars(text, pattern, at);
    assert forall|k: int| 0 <= k < pattern.len() implies whole[before.len() + at + k]
        == pattern[k] by {
        assert(whole[before.len() + at + k] == text[at + k]);
    }
    lemma_chars_occur(whole, pattern, before.len() + at);
}

/// A text that lacks a character of the pattern does not contain the pattern.
pub proof fn lemma_lacking_excludes(text: Seq<char>, pattern: Seq<char>, k: int)
    requires
        0 <= k < pattern.len(),
        lacks(text, pattern[k]),
    ensures
        !contains(text, pattern),
{
    if contains(text, pattern) {
        let at = choose|at: int| occurs_at(text, pattern, at);
        lemma_occurrence_chars(text, pattern, at);
        assert(text[at + k] == pattern[k]);
    }
}

/// Joining two texts that lack a character gives a text that lacks it.
pub proof fn lemma_lacks_join(left: Seq<char>, right: Seq<char>, c: char)
    requires
        lacks(left, c),
        lacks(right, c),
    ensures
        lacks(left + right, c),
{
}

/// Where the left text ends in a character that can only end the pattern,
/// no occurrence reaches across the join.
pub proof fn lemma_split_after(left: Seq<char>, right: Seq<char>, pattern: Seq<char>)
    requires
        closes_left(left, pattern),
    ensures
        contains(left + right, pattern) <==> contains(left, pattern) || contains(right, pattern),
{
    let whole = left + right;
    let n = left.len() as int;
    if contains(left, pattern) {
        assert((Seq::<char>::empty() + left) + right =~= whole);
        lemma_contains_grows(Seq::empty(), left, right, pattern);
    }
    if contains(right, pattern) {
        assert((left + right) + Seq::<char>::empty() =~= whole);
        lemma_contains_grows(left, right, Seq::empty(), pattern);
    }
    if contains(whole, pattern) {
        let at = choose|at: int| occurs_at(whole, pattern, at);
        lemma_occurrence_chars(whole, pattern, at);
        if at + pattern.len() <= n {
            assert forall|k: int| 0 <= k < pattern.len() implies left[at + k] == pattern[k] by {
                assert(whole[at + k] == left[at + k]);
            }
            lemma_chars_occur(left, pattern, at);
        } else if at >= n {
            assert forall|k: int| 0 <= k < pattern.len() implies right[at - n + k]
                == pattern[k] by {
                assert(whole[at + k] == right[at - n + k]);
            }
            lemma_chars_occur(right, pattern, at - n);
        } else {
            let k = n - 1 - at;
            assert(whole[at + k] == left.last());
            assert(pattern[k] == left.last());
            assert(false);
        }
    }
}

/// Where the right text begins with a character that can only begin the
/// pattern, no occurrence reaches across the join.
pub proof fn lemma_split_before(left: Seq<char>, right: Seq<char>, pattern: Seq<char>)
    requires
        closes_right(right, pattern),
    ensures
        contains(left + right, pattern) <==> contains(left, pattern) || contains(right, pattern),
{
    let whole = left + right;
    let n = left.len() as int;
    if contains(left, pattern) {
        assert((Seq::<char>::empty() + left) + right =~= whole);
        lemma_contains_grows(Seq::empty(), left, right, pattern);
    }
    if contains(right, pattern) {
        assert((left + right) + Seq::<char>::empty() =~= whole);
        lemma_contains_grows(left, right, Seq::empty(), pattern);
    }
    if contains(whole, pattern) {
        let at = choose|at: int| occurs_at(whole, pattern, at);
        lemma_occurrence_chars(whole, pattern, at);
        if at + pattern.len() <= n {
            assert forall|k: int| 0 <= k < pattern.len() implies left[at + k] == pattern[k] by {
                assert(whole[at + k] == left[at + k]);
            }
            lemma_chars_occur(left, pattern, at);
        } else if at >= n {
            assert forall|k: int| 0 <= k < pattern.len() implies right[at - n + k]
                == pattern[k] by {
                assert(whole[at + k] == right[at - n + k]);
            }
            lemma_chars_occur(right, pattern, at - n);
        } else {
            let k = n - at;
            assert(whole[at + k] == right.first());
            assert(pattern[k] == right.first());
            assert(false);
        }
    }
}

/// Whether the character `first` is nowhere in `text` followed at once by
/// the character `second`.
pub open spec fn lacks_pair(text: Seq<char>, first: char, second: char) -> bool {
    forall|i: int| 0 <= i < text.len() - 1 ==> !(text[i] == first && #[trigger] text[i + 1] == second)
}

/// A text that lacks a pair of neighbours of the pattern does not contain
/// the pattern.
pub proof fn lemma_lacking_pair_excludes(text: Seq<char>, pattern: Seq<char>, k: int)
    requires
        0 <= k < pattern.len() - 1,
        lacks_pair(text, pattern[k], pattern[k + 1]),
    ensures
        !contains(text, pattern),
{
    if contains(text, pattern) {
        let at = choose|at: int| occurs_at(text, pattern, at);
        lemma_occurrence_chars(text, pattern, at);
        assert(text[at + k] == pattern[k]);
        assert(text[at + k + 1] == pattern[k + 1]);
    }
}

/// Joining two texts that lack a pair gives a text that lacks it, provided
/// the pair does not form at the join.
pub proof fn lemma_lacks_pair_join(left: Seq<char>, right: Seq<char>, first: char, second: char)
    requires
        lacks_pair(left, first, second),
        lacks_pair(right, first, second),
        left.len() > 0 && right.len() > 0 ==> !(left.last() == first && right.first() == second),
    ensures
        lacks_pair(left + right, first, second),
{
    let whole = left + right;
    let n = left.len() as int;
    assert forall|i: int| 0 <= i < whole.len() - 1 implies !(whole[i] == first
        && #[trigger] whole[i + 1] == second) by {
        if i + 1 < n {
            assert(whole[i] == left[i]);
            assert(whole[i + 1] == left[i + 1]);
        } else if i >= n {
            assert(whole[i] == right[i - n]);
            assert(whole[i + 1] == right[i - n + 1]);
        } else {
            assert(whole[i] == left.last());
            assert(whole[i + 1] == right.first());
        }
    }
}

/// A text that lacks a character lacks every pair that begins or ends with it.
pub proof fn lemma_lacks_gives_lacks_pair(text: Seq<char>, first: char, second: char)
    requires
        lacks(text, first) || lacks(text, second),
    ensures
        lacks_pair(text, first, second),
{
}

/// An occurrence begins with the first character of the pattern: where the
/// text in front lacks that character, every occurrence lies behind it.
pub proof fn lemma_starts_later(front: Seq<char>, rest: Seq<char>, pattern: Seq<char>)
    requires
        pattern.len() > 0,
        lacks(front, pattern[0]),
    ensures
        contains(front + rest, pattern) <==> contains(rest, pattern),
{
    let whole = front + rest;
    let n = front.len() as int;
    if contains(rest, pattern) {
        assert((front + rest) + Seq::<char>::empty() =~= whole);
        lemma_contains_grows(front, rest, Seq::empty(), pattern);
    }
    if contains(whole, pattern) {
        let at = choose|at: int| occurs_at(whole, pattern, at);
        lemma_occurrence_chars(whole, pattern, at);
        assert(whole[at + 0] == pattern[0]);
        if at < n {
            assert(whole[at] == front[at]);
            assert(false);
        }
        assert forall|k: int| 0 <= k < pattern.len() implies rest[at - n + k] == pattern[k] by {
            assert(whole[at + k] == rest[at - n + k]);
        }
        lemma_chars_occur(rest, pattern, at - n);
    }
}

/// A value between two fixed texts that neither hold the pattern nor let
/// an occurrence reach over their edge: the pattern occurs in the whole
/// exactly if it occurs in the value.
pub proof fn lemma_one_hole(before: Seq<char>, value: Seq<char>, after: Seq<char>, pattern: Seq<char>)
    requires
        !contains(before, pattern),
        closes_left(before, pattern),
        !contains(after, pattern),
        closes_right(after, pattern),
    ensures
        contains(before + value + after, pattern) <==> contains(value, pattern),
{
    lemma_split_before(before + value, after, pattern);
    lemma_split_after(before, value, pattern);
}

/// Two values between three fixed texts of that kind: the pattern occurs
/// in the whole exactly if it occurs in one of the values.
pub proof fn lemma_two_holes(
    before: Seq<char>,
    first: Seq<char>,
    between: Seq<char>,
    second: Seq<char>,
    after: Seq<char>,
    pattern: Seq<char>,
)
    requires
        !contains(before, pattern),
        closes_left(before, pattern),
        !contains(between, pattern),
        closes_right(between, pattern),
        closes_left(between, pattern),
        !contains(after, pattern),
        closes_right(after, pattern),
    ensures
        contains(before + first + between + second + after, pattern) <==> contains(first, pattern)
            || contains(second, pattern),
{
    lemma_split_before(before + first + between + second, after, pattern);
    lemma_split_after(before + first + between, second, pattern);
    lemma_split_before(before + first, between, pattern);
    lemma_split_after(before, first, pattern);
}

} // verus!
