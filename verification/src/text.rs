//! Character-level helpers for URL text.

use vstd::prelude::*;
use vstd::utf8::encode_utf8;
use vstd::utf8::encode_utf8_decode_utf8;

verus! {

/// Position of the first `needle` in `text`, or the length of `text` when it
/// does not occur.
pub open spec fn first_index_or_len(text: Seq<char>, needle: char) -> int {
    match text.index_of_first(needle) {
        Some(i) => i,
        None => text.len() as int,
    }
}

/// What follows the last `needle` in `text`; `None` when it does not occur.
pub open spec fn after_last(text: Seq<char>, needle: char) -> Option<Seq<char>> {
    match text.index_of_last(needle) {
        Some(i) => Some(text.skip(i + 1)),
        None => None,
    }
}

/// An index is the first occurrence of `needle` exactly when `needle` stands
/// there and nowhere before.
pub proof fn lemma_first_index_unique(text: Seq<char>, needle: char, at: int)
    requires
        0 <= at < text.len(),
        text[at] == needle,
        forall|j: int| 0 <= j < at ==> text[j] != needle,
    ensures
        text.index_of_first(needle) == Some(at),
{
    text.index_of_first_ensures(needle);
    assert(text.contains(needle));
    let found = text.index_of_first(needle).unwrap();
    if found < at {
        assert(text[found] != needle);
    } else if at < found {
        assert(text[at] != needle);
    }
}

/// An index is the last occurrence of `needle` exactly when `needle` stands
/// there and nowhere after.
pub proof fn lemma_last_index_unique(text: Seq<char>, needle: char, at: int)
    requires
        0 <= at < text.len(),
        text[at] == needle,
        forall|j: int| at < j < text.len() ==> text[j] != needle,
    ensures
        text.index_of_last(needle) == Some(at),
{
    text.index_of_last_ensures(needle);
    assert(text.contains(needle));
    let found = text.index_of_last(needle).unwrap();
    if found > at {
        assert(text[found] != needle);
    } else if at > found {
        assert(text[at] != needle);
    }
}

/// A text without `needle` has no first or last occurrence of it.
pub proof fn lemma_no_index_when_absent(text: Seq<char>, needle: char)
    requires
        forall|j: int| 0 <= j < text.len() ==> text[j] != needle,
    ensures
        text.index_of_first(needle) is None,
        text.index_of_last(needle) is None,
{
    text.index_of_first_ensures(needle);
    text.index_of_last_ensures(needle);
    if text.contains(needle) {
        let j = choose|j: int| 0 <= j < text.len() && text[j] == needle;
        assert(text[j] != needle);
    }
}

/// The characters of `text`, in order.
pub fn chars_of(text: &str) -> (chars: Vec<char>)
    ensures
        chars@ == text@,
{
    let mut chars: Vec<char> = Vec::new();
    for c in it: text.chars()
        invariant
            it.seq() == text@,
            chars@ == text@.take(it.index() as int),
    {
        chars.push(c);
        assert(chars@ =~= text@.take(it.index() + 1));
    }
    assert(text@.take(text@.len() as int) =~= text@);
    chars
}

/// Finds the first `needle` among the first `end` characters.
pub fn find_first(chars: &[char], end: usize, needle: char) -> (at: usize)
    requires
        end <= chars@.len(),
    ensures
        at == first_index_or_len(chars@.take(end as int), needle),
{
    let mut i: usize = 0;
    while i < end
        invariant
            i <= end <= chars@.len(),
            forall|j: int| 0 <= j < i ==> chars@[j] != needle,
        decreases end - i,
    {
        if chars[i] == needle {
            proof {
                lemma_first_index_unique(chars@.take(end as int), needle, i as int);
            }
            return i;
        }
        i += 1;
    }
    proof {
        lemma_no_index_when_absent(chars@.take(end as int), needle);
    }
    end
}

/// Finds where the text after the last `needle` begins, looking at the
/// characters from `start` up to `end`.
pub fn find_after_last(chars: &[char], start: usize, end: usize, needle: char) -> (begin: Option<
    usize,
>)
    requires
        start <= end <= chars@.len(),
    ensures
        match begin {
            Some(b) => start < b <= end && after_last(
                chars@.subrange(start as int, end as int),
                needle,
            ) == Some(chars@.subrange(b as int, end as int)),
            None => after_last(chars@.subrange(start as int, end as int), needle) is None,
        },
{
    let ghost window = chars@.subrange(start as int, end as int);
    let mut i: usize = end;
    while i > start
        invariant
            start <= i <= end <= chars@.len(),
            window == chars@.subrange(start as int, end as int),
            forall|j: int| i <= j < end ==> chars@[j] != needle,
        decreases i - start,
    {
        if chars[i - 1] == needle {
            proof {
                lemma_last_index_unique(window, needle, i - 1 - start);
                assert(window.skip(i - start) =~= chars@.subrange(i as int, end as int));
            }
            return Some(i);
        }
        i -= 1;
    }
    proof {
        lemma_no_index_when_absent(window, needle);
    }
    None
}

/// Whether two strings hold the same characters.
pub fn same_text(a: &str, b: &str) -> (same: bool)
    ensures
        same == (a@ == b@),
{
    let left = a.as_bytes();
    let right = b.as_bytes();
    proof {
        encode_utf8_decode_utf8(a@);
        encode_utf8_decode_utf8(b@);
    }
    if left.len() != right.len() {
        return false;
    }
    let mut i: usize = 0;
    while i < left.len()
        invariant
            i <= left@.len(),
            left@.len() == right@.len(),
            left@ == encode_utf8(a@),
            right@ == encode_utf8(b@),
            forall|j: int| 0 <= j < i ==> left@[j] == right@[j],
        decreases left.len() - i,
    {
        if left[i] != right[i] {
            return false;
        }
        i += 1;
    }
    assert(left@ =~= right@);
    true
}

} // verus!
