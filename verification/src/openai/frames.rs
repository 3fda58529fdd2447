//! Event frames of a streamed response.
//!
//! The service sends frames of the form `data: <payload>` that end in a
//! blank line. Frames do not line up with the chunks that the transport
//! delivers, so the text received so far is kept and cut at blank lines.

use crate::text::{
    chars_of, range_starts_with, starts_with, string_of_range, trim, trim_bounds,
};
use vstd::prelude::*;

verus! {

/// A frame ends at `i`: two line feeds stand at `i` and `i + 1`.
pub open spec fn break_at(s: Seq<char>, i: int) -> bool {
    0 <= i && i + 1 < s.len() && s[i] == '\n' && s[i + 1] == '\n'
}

/// The first position at or after `from` where a frame ends.
pub open spec fn find_break(s: Seq<char>, from: int) -> Option<int>
    decreases s.len() - from,
{
    if from < 0 || from + 1 >= s.len() {
        None
    } else if s[from] == '\n' && s[from + 1] == '\n' {
        Some(from)
    } else {
        find_break(s, from + 1)
    }
}

/// The marker that begins the payload line of a frame.
pub open spec fn data_prefix() -> Seq<char> {
    "data: "@
}

/// The payload that a frame carries: the text behind `data: `, trimmed. A
/// frame that is blank, that does not begin with the marker or whose payload
/// is blank carries none.
pub open spec fn payload_of(frame: Seq<char>) -> Option<Seq<char>> {
    let line = trim(frame);
    if line.len() == 0 || !starts_with(line, data_prefix()) {
        None
    } else {
        let data = trim(line.skip(data_prefix().len() as int));
        if data.len() == 0 {
            None
        } else {
            Some(data)
        }
    }
}

/// A break found by `find_break` is the first one at or after `from`, and
/// where it finds none there is none.
pub proof fn lemma_find_break_is_first(s: Seq<char>, from: int)
    requires
        0 <= from,
    ensures
        match find_break(s, from) {
            Some(p) => from <= p && break_at(s, p) && forall|j: int|
                from <= j < p ==> !break_at(s, j),
            None => forall|j: int| from <= j ==> !break_at(s, j),
        },
    decreases s.len() - from,
{
    if from + 1 >= s.len() {
    } else if s[from] == '\n' && s[from + 1] == '\n' {
    } else {
        lemma_find_break_is_first(s, from + 1);
    }
}

/// Searching a suffix finds what searching the whole text from the
/// suffix's start finds, moved by that start.
pub proof fn lemma_find_break_skip(s: Seq<char>, start: int, from: int)
    requires
        0 <= start <= s.len(),
        0 <= from,
    ensures
        find_break(s.skip(start), from) == match find_break(s, start + from) {
            Some(p) => Some(p - start),
            None => None,
        },
    decreases s.len() - start - from,
{
    let t = s.skip(start);
    if from + 1 >= t.len() {
    } else {
        assert(t[from] == s[start + from]);
        assert(t[from + 1] == s[start + from + 1]);
        if t[from] == '\n' && t[from + 1] == '\n' {
        } else {
            lemma_find_break_skip(s, start, from + 1);
        }
    }
}

/// The first position at or after `from` where a frame ends.
pub fn find_frame_end(chars: &Vec<char>, from: usize) -> (r: Option<usize>)
    requires
        from <= chars@.len(),
    ensures
        r is Some <==> find_break(chars@, from as int) is Some,
        r matches Some(p) ==> find_break(chars@, from as int) == Some(p as int) && from <= p
            && p + 1 < chars@.len(),
{
    let mut i: usize = from;
    while i < chars.len() && i + 1 < chars.len()
        invariant
            from <= i <= chars@.len(),
            find_break(chars@, from as int) == find_break(chars@, i as int),
        decreases chars@.len() - i,
    {
        if chars[i] == '\n' && chars[i + 1] == '\n' {
            return Some(i);
        }
        i += 1;
    }
    None
}

/// The bounds in `chars` of the payload of the frame `chars[from..to]`.
pub fn frame_payload(chars: &Vec<char>, from: usize, to: usize) -> (r: Option<(usize, usize)>)
    requires
        from <= to <= chars@.len(),
    ensures
        r is Some <==> payload_of(chars@.subrange(from as int, to as int)) is Some,
        r matches Some((a, b)) ==> from <= a <= b <= to && payload_of(
            chars@.subrange(from as int, to as int),
        ) == Some(chars@.subrange(a as int, b as int)),
{
    let (a, b) = trim_bounds(chars, from, to);
    if a == b {
        return None;
    }
    let prefix = chars_of("data: ");
    proof {
        reveal_strlit("data: ");
        assert(data_prefix().len() == 6);
    }
    if !range_starts_with(chars, a, b, &prefix) {
        return None;
    }
    let ghost line = chars@.subrange(a as int, b as int);
    assert(line.skip(6) == chars@.subrange(a + 6, b as int));
    let (c, d) = trim_bounds(chars, a + 6, b);
    if c == d {
        return None;
    }
    Some((c, d))
}

/// The payload of the frame `chars[from..to]`, as a string.
pub fn frame_payload_text(chars: &Vec<char>, from: usize, to: usize) -> (r: Option<String>)
    requires
        from <= to <= chars@.len(),
    ensures
        r is Some <==> payload_of(chars@.subrange(from as int, to as int)) is Some,
        r matches Some(t) ==> Some(t@) == payload_of(chars@.subrange(from as int, to as int)),
{
    match frame_payload(chars, from, to) {
        Some((a, b)) => Some(string_of_range(chars, a, b)),
        None => None,
    }
}

/// A frame end that was found stays the first one when more text arrives.
pub proof fn lemma_find_break_extend(s: Seq<char>, more: Seq<char>, from: int)
    requires
        0 <= from,
        find_break(s, from) is Some,
    ensures
        find_break(s + more, from) == find_break(s, from),
    decreases s.len() - from,
{
    let t = s + more;
    if from + 1 >= s.len() {
    } else {
        assert(t[from] == s[from] && t[from + 1] == s[from + 1]);
        if s[from] == '\n' && s[from + 1] == '\n' {
        } else {
            lemma_find_break_extend(s, more, from + 1);
        }
    }
}

} // verus!
