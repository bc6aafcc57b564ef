//! Comparison of string slices, character by character.

use vstd::prelude::*;
use vstd::string::{StrSliceExecFns, StringExecFns};

verus! {

/// Whether two string slices hold the same characters.
pub fn same_text(a: &str, b: &str) -> (same: bool)
    ensures
        same == (a@ == b@),
{
    let x = chars_of(a);
    let y = chars_of(b);
    if x.len() != y.len() {
        return false;
    }
    let mut i: usize = 0;
    while i < x.len()
        invariant
            i <= x.len(),
            x.len() == y.len(),
            x@ == a@,
            y@ == b@,
            forall|j: int| 0 <= j < i ==> a@[j] == b@[j],
        decreases x.len() - i,
    {
        if x[i] != y[i] {
            return false;
        }
        i += 1;
    }
    assert(a@ =~= b@);
    true
}

/// The lower-case form of an ASCII capital letter; any other character
/// unchanged.
pub open spec fn ascii_lower(c: char) -> char {
    if 'A' <= c <= 'Z' {
        ((c as u8) + 32) as char
    } else {
        c
    }
}

/// The characters of a text, each in its [`ascii_lower`] form.
pub open spec fn ascii_lowered(text: Seq<char>) -> Seq<char> {
    text.map_values(|c: char| ascii_lower(c))
}

/// The lower-case form of a character, by [`ascii_lower`].
pub fn to_ascii_lower(c: char) -> (lower: char)
    ensures
        lower == ascii_lower(c),
{
    if 'A' <= c && c <= 'Z' {
        ((c as u8) + 32) as char
    } else {
        c
    }
}

/// Whether two string slices hold the same characters when ASCII capitals
/// count as their lower-case letters.
pub fn same_text_ignore_ascii_case(a: &str, b: &str) -> (same: bool)
    ensures
        same == (ascii_lowered(a@) == ascii_lowered(b@)),
{
    let x = chars_of(a);
    let y = chars_of(b);
    if x.len() != y.len() {
        assert(ascii_lowered(a@).len() != ascii_lowered(b@).len());
        return false;
    }
    let mut i: usize = 0;
    while i < x.len()
        invariant
            i <= x.len(),
            x.len() == y.len(),
            x@ == a@,
            y@ == b@,
            forall|j: int| 0 <= j < i ==> ascii_lower(a@[j]) == ascii_lower(b@[j]),
        decreases x.len() - i,
    {
        if to_ascii_lower(x[i]) != to_ascii_lower(y[i]) {
            assert(ascii_lowered(a@)[i as int] != ascii_lowered(b@)[i as int]);
            return false;
        }
        i += 1;
    }
    assert(ascii_lowered(a@) =~= ascii_lowered(b@));
    true
}

/// The characters of a string slice.
pub fn chars_of(text: &str) -> (chars: Vec<char>)
    ensures
        chars@ == text@,
{
    let mut chars: Vec<char> = Vec::new();
    for c in it: text.chars()
        invariant
            it.seq() == text@,
            chars@ == it.seq().take(it.index() as int),
    {
        chars.push(c);
        assert(it.seq().take(it.index() + 1) =~= it.seq().take(it.index() as int).push(c));
    }
    assert(text@.take(text@.len() as int) =~= text@);
    chars
}

/// The position of the first `c` in a text, and the length of the text where
/// it holds no `c`.
pub open spec fn index_of_char(text: Seq<char>, c: char) -> int
    decreases text.len(),
{
    if text.len() == 0 {
        0
    } else if text[0] == c {
        0
    } else {
        1 + index_of_char(text.drop_first(), c)
    }
}

/// [`index_of_char`] is the one position before which no `c` stands and at
/// which the text has a `c` or ends.
pub proof fn lemma_index_of_char(text: Seq<char>, c: char, i: int)
    requires
        0 <= i <= text.len(),
        forall|j: int| 0 <= j < i ==> text[j] != c,
        i == text.len() || text[i] == c,
    ensures
        index_of_char(text, c) == i,
    decreases text.len(),
{
    if text.len() > 0 && i > 0 {
        let rest = text.drop_first();
        assert forall|j: int| 0 <= j < i - 1 implies rest[j] != c by {
            assert(rest[j] == text[j + 1]);
        }
        lemma_index_of_char(rest, c, i - 1);
    }
}

/// The position of the first `c` among the first `end` characters, and `end`
/// where there is none. An `end` past the last character counts as the
/// length.
pub fn find_char(chars: &Vec<char>, c: char, end: usize) -> (at: usize)
    ensures
        end <= chars.len() ==> at == index_of_char(chars@.take(end as int), c) && at <= end,
        end > chars.len() ==> at == index_of_char(chars@, c) && at <= chars.len(),
{
    let end: usize = if end <= chars.len() {
        end
    } else {
        chars.len()
    };
    let mut i: usize = 0;
    while i < end && chars[i] != c
        invariant
            i <= end <= chars.len(),
            forall|j: int| 0 <= j < i ==> chars@[j] != c,
        decreases end - i,
    {
        i += 1;
    }
    proof {
        lemma_index_of_char(chars@.take(end as int), c, i as int);
        assert(chars@.take(chars@.len() as int) =~= chars@);
    }
    i
}

/// The text before the first `c`; the whole text where it holds no `c`.
pub open spec fn before_first(text: Seq<char>, c: char) -> Seq<char> {
    text.take(index_of_char(text, c))
}

/// The texts before and after the first `c`; `None` where the text holds no
/// `c`.
pub open spec fn split_once(text: Seq<char>, c: char) -> Option<(Seq<char>, Seq<char>)> {
    let at = index_of_char(text, c);
    if at < text.len() {
        Some((text.take(at), text.skip(at + 1)))
    } else {
        None
    }
}

/// The text without one `c` at its end; the text itself where it does not end
/// in `c`.
pub open spec fn without_trailing(text: Seq<char>, c: char) -> Seq<char> {
    if text.len() > 0 && text.last() == c {
        text.drop_last()
    } else {
        text
    }
}

/// Whether a text ends in `suffix`.
pub open spec fn ends_with(text: Seq<char>, suffix: Seq<char>) -> bool {
    text.len() >= suffix.len() && text.skip(text.len() - suffix.len()) == suffix
}

/// Whether a string slice ends in `suffix`.
pub fn has_suffix(text: &str, suffix: &str) -> (found: bool)
    ensures
        found == ends_with(text@, suffix@),
{
    let x = chars_of(text);
    let y = chars_of(suffix);
    if x.len() < y.len() {
        return false;
    }
    let start: usize = x.len() - y.len();
    let mut i: usize = 0;
    while i < y.len()
        invariant
            i <= y.len(),
            start + y.len() == x.len(),
            x@ == text@,
            y@ == suffix@,
            forall|j: int| 0 <= j < i ==> text@[start + j] == suffix@[j],
        decreases y.len() - i,
    {
        if x[start + i] != y[i] {
            assert(text@.skip(start as int)[i as int] != suffix@[i as int]);
            return false;
        }
        i += 1;
    }
    assert(text@.skip(start as int) =~= suffix@);
    true
}

/// The concatenation of two string slices.
pub fn concat2(a: &str, b: &str) -> (joined: String)
    ensures
        joined@ == a@ + b@,
{
    let mut joined = String::from_str(a);
    joined.append(b);
    joined
}

/// Whether `pattern` stands in `text` at position `at`.
pub open spec fn occurs_at(text: Seq<char>, at: int, pattern: Seq<char>) -> bool {
    0 <= at && at + pattern.len() <= text.len() && text.subrange(at, at + pattern.len())
        == pattern
}

/// The text with every occurrence of `from` replaced by `to`, the occurrences
/// taken from left to right and none overlapping another. An empty `from`
/// occurs nowhere.
pub open spec fn replace_all(text: Seq<char>, from: Seq<char>, to: Seq<char>) -> Seq<char>
    decreases text.len(),
{
    if from.len() == 0 || text.len() == 0 {
        text
    } else if occurs_at(text, 0, from) {
        to + replace_all(text.skip(from.len() as int), from, to)
    } else {
        seq![text[0]] + replace_all(text.skip(1), from, to)
    }
}

/// Whether `pattern` stands in `chars` at position `at`.
pub fn matches_at(chars: &Vec<char>, at: usize, pattern: &Vec<char>) -> (found: bool)
    ensures
        found == occurs_at(chars@, at as int, pattern@),
{
    if at > chars.len() || pattern.len() > chars.len() - at {
        return false;
    }
    let mut i: usize = 0;
    while i < pattern.len()
        invariant
            i <= pattern.len(),
            at + pattern.len() <= chars.len(),
            forall|j: int| 0 <= j < i ==> chars@[at + j] == pattern@[j],
        decreases pattern.len() - i,
    {
        if chars[at + i] != pattern[i] {
            assert(chars@.subrange(at as int, at + pattern.len())[i as int] != pattern@[i as int]);
            return false;
        }
        i += 1;
    }
    assert(chars@.subrange(at as int, at + pattern.len()) =~= pattern@);
    true
}

/// Replaces every occurrence of `from` in `text` by `to`. An empty `from`
/// occurs nowhere.
pub fn replace(text: &str, from: &str, to: &str) -> (replaced: String)
    ensures
        replaced@ == replace_all(text@, from@, to@),
{
    let chars = chars_of(text);
    let pattern = chars_of(from);
    if pattern.len() == 0 {
        return text.to_owned();
    }
    let mut out = String::new();
    // What lies between `kept` and `i` is still to be copied.
    let mut kept: usize = 0;
    let mut i: usize = 0;
    proof {
        assert(text@.skip(0) =~= text@);
        assert(out@ + text@.subrange(0, 0) + replace_all(text@, from@, to@) =~= replace_all(
            text@,
            from@,
            to@,
        ));
    }
    while i < chars.len()
        invariant
            kept <= i <= chars.len(),
            chars@ == text@,
            pattern@ == from@,
            from@.len() > 0,
            replace_all(text@, from@, to@) == out@ + text@.subrange(kept as int, i as int)
                + replace_all(text@.skip(i as int), from@, to@),
        decreases chars.len() - i,
    {
        let ghost rest = text@.skip(i as int);
        let ghost done = out@;
        let ghost pending = text@.subrange(kept as int, i as int);
        proof {
            if i + from@.len() <= text@.len() {
                assert(rest.subrange(0, from@.len() as int) =~= text@.subrange(
                    i as int,
                    i + from@.len(),
                ));
            }
            assert(occurs_at(rest, 0, from@) == occurs_at(text@, i as int, from@));
        }
        if matches_at(&chars, i, &pattern) {
            out.append(text.substring_char(kept, i));
            out.append(to);
            i += pattern.len();
            kept = i;
            proof {
                let tail = replace_all(text@.skip(i as int), from@, to@);
                assert(rest.skip(from@.len() as int) =~= text@.skip(i as int));
                assert(text@.subrange(kept as int, i as int) =~= Seq::<char>::empty());
                assert(done + pending + (to@ + tail) =~= (done + pending + to@) + Seq::<
                    char,
                >::empty() + tail);
            }
        } else {
            proof {
                let tail = replace_all(text@.skip(i + 1), from@, to@);
                assert(rest[0] == text@[i as int]);
                assert(rest.skip(1) =~= text@.skip(i + 1));
                assert(text@.subrange(kept as int, i + 1) =~= pending.push(text@[i as int]));
                assert(done + pending + (seq![text@[i as int]] + tail) =~= done + pending.push(
                    text@[i as int],
                ) + tail);
            }
            i += 1;
        }
    }
    proof {
        assert(text@.skip(text@.len() as int) =~= Seq::<char>::empty());
        assert(out@ + text@.subrange(kept as int, i as int) + Seq::<char>::empty() =~= out@
            + text@.subrange(kept as int, i as int));
    }
    out.append(text.substring_char(kept, i));
    out
}

} // verus!
