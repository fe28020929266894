//! Texts: whether two are the same, and how often a character occurs in one.

use vstd::prelude::*;
use vstd::utf8::{encode_utf8, encode_utf8_decode_utf8};

verus! {

broadcast use vstd::slice::group_slice_axioms;

/// Two texts are the same exactly where their UTF-8 bytes are.
pub proof fn lemma_same_bytes_same_text(left: Seq<char>, right: Seq<char>)
    ensures
        (encode_utf8(left) == encode_utf8(right)) <==> left == right,
{
    encode_utf8_decode_utf8(left);
    encode_utf8_decode_utf8(right);
}

/// Whether two texts are the same, character by character.
pub fn same_text(left: &str, right: &str) -> (same: bool)
    ensures
        same == (left@ == right@),
{
    let first: &[u8] = left.as_bytes();
    let second: &[u8] = right.as_bytes();
    proof {
        lemma_same_bytes_same_text(left@, right@);
    }
    if first.len() != second.len() {
        return false;
    }
    let mut i: usize = 0;
    while i < first.len()
        invariant
            i <= first.len(),
            first.len() == second.len(),
            first@ == encode_utf8(left@),
            second@ == encode_utf8(right@),
            forall|k: int| 0 <= k < i ==> first@[k] == second@[k],
        decreases first.len() - i,
    {
        if first[i] != second[i] {
            return false;
        }
        i = i + 1;
    }
    assert(first@ =~= second@);
    true
}

/// How often a character occurs in a text.
pub open spec fn occurrences(text: Seq<char>, c: char) -> nat
    decreases text.len(),
{
    if text.len() == 0 {
        0
    } else {
        occurrences(text.drop_last(), c) + if text.last() == c {
            1nat
        } else {
            0nat
        }
    }
}

/// The occurrences in two texts in a row are those in the one and those in
/// the other.
pub proof fn lemma_occurrences_add(front: Seq<char>, back: Seq<char>, c: char)
    ensures
        occurrences(front + back, c) == occurrences(front, c) + occurrences(back, c),
    decreases back.len(),
{
    if back.len() == 0 {
        assert(front + back =~= front);
    } else {
        assert((front + back).drop_last() =~= front + back.drop_last());
        lemma_occurrences_add(front, back.drop_last(), c);
    }
}

/// A character that is at no place of a text occurs zero times in it.
pub proof fn lemma_absent(text: Seq<char>, c: char)
    requires
        forall|i: int| 0 <= i < text.len() ==> (#[trigger] text[i]) != c,
    ensures
        occurrences(text, c) == 0,
    decreases text.len(),
{
    if text.len() > 0 {
        lemma_absent(text.drop_last(), c);
    }
}

} // verus!
