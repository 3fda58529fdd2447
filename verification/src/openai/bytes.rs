//! Facts about UTF-8 text that arrives in pieces.

use vstd::prelude::*;
use vstd::utf8::{
    decode_utf8, decode_utf8_split, is_char_boundary, length_of_first_scalar,
    partial_valid_partial_invalid_utf8, pop_first_scalar, take_first_scalar, valid_first_scalar,
    valid_utf8, valid_utf8_concat,
};

verus! {

/// The first character of text takes from one to four bytes, all of which
/// are there, and is text by itself.
pub proof fn lemma_first_scalar(bytes: Seq<u8>)
    requires
        valid_utf8(bytes),
        bytes.len() > 0,
    ensures
        1 <= length_of_first_scalar(bytes) <= 4,
        length_of_first_scalar(bytes) <= bytes.len(),
        valid_utf8(take_first_scalar(bytes)),
        valid_utf8(pop_first_scalar(bytes)),
        bytes == take_first_scalar(bytes) + pop_first_scalar(bytes),
{
    reveal_with_fuel(valid_utf8, 2);
    assert(bytes =~= take_first_scalar(bytes) + pop_first_scalar(bytes));
}

/// What follows text in a text is text.
pub proof fn lemma_valid_suffix(first: Seq<u8>, second: Seq<u8>)
    requires
        valid_utf8(first),
        valid_utf8(first + second),
    ensures
        valid_utf8(second),
{
    let whole = first + second;
    assert(whole.subrange(0, first.len() as int) =~= first);
    assert(whole.subrange(first.len() as int, whole.len() as int) =~= second);
    if !valid_utf8(second) {
        partial_valid_partial_invalid_utf8(whole, first.len() as int);
    }
}

/// Where a text begins with a text, the first text ends at a boundary
/// between two characters.
pub proof fn lemma_boundary_between(first: Seq<u8>, second: Seq<u8>)
    requires
        valid_utf8(first),
        valid_utf8(first + second),
    ensures
        is_char_boundary(first + second, first.len() as int),
    decreases first.len(),
{
    let whole = first + second;
    if first.len() > 0 {
        lemma_first_scalar(first);
        lemma_first_scalar(whole);
        let rest = pop_first_scalar(first);
        assert(length_of_first_scalar(whole) == length_of_first_scalar(first)) by {
            assert(whole[0] == first[0]);
        }
        assert(pop_first_scalar(whole) =~= rest + second);
        lemma_boundary_between(rest, second);
        assert(rest.len() == first.len() - length_of_first_scalar(first));
    }
}

/// The characters of two texts, one after the other, are the characters of
/// the one text that the two make.
pub proof fn lemma_decode_concat(first: Seq<u8>, second: Seq<u8>)
    requires
        valid_utf8(first),
        valid_utf8(second),
    ensures
        valid_utf8(first + second),
        decode_utf8(first + second) == decode_utf8(first) + decode_utf8(second),
{
    let whole = first + second;
    valid_utf8_concat(first, second);
    lemma_boundary_between(first, second);
    decode_utf8_split(whole, first.len() as int);
    assert(whole.subrange(0, first.len() as int) =~= first);
    assert(whole.subrange(first.len() as int, whole.len() as int) =~= second);
}

/// Text that is cut anywhere is text up to a point at most three bytes
/// before the cut: no character takes more than four bytes.
pub proof fn lemma_valid_prefix_nearby(bytes: Seq<u8>, cut: int)
    requires
        valid_utf8(bytes),
        0 <= cut <= bytes.len(),
    ensures
        exists|held: int| 0 <= held <= 3 && held <= cut && valid_utf8(#[trigger] bytes.take(cut - held)),
    decreases bytes.len(),
{
    if cut == 0 {
        assert(bytes.take(0) =~= Seq::<u8>::empty());
        assert(valid_utf8(bytes.take(0 - 0)));
    } else {
        lemma_first_scalar(bytes);
        let len = length_of_first_scalar(bytes);
        if cut < len {
            assert(bytes.take(cut - cut) =~= Seq::<u8>::empty());
            assert(valid_utf8(bytes.take(cut - cut)));
        } else {
            let head = take_first_scalar(bytes);
            let rest = pop_first_scalar(bytes);
            lemma_valid_prefix_nearby(rest, cut - len);
            let held = choose|held: int|
                0 <= held <= 3 && held <= cut - len && valid_utf8(
                    #[trigger] rest.take(cut - len - held),
                );
            valid_utf8_concat(head, rest.take(cut - len - held));
            assert(bytes.take(cut - held) =~= head + rest.take(cut - len - held));
        }
    }
}

} // verus!
