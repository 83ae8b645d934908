//! Generators for text, byte sequences and scalar sequences of a given length.

use crate::entropy::{alphanumeric_byte, uniform_u8};
use vstd::prelude::*;

verus! {

/// `String::push` appends one character to the end of the string. The
/// standard library is not verified here; this is its documented behaviour.
pub assume_specification[ String::push ](s: &mut String, ch: char)
    ensures
        final(s)@ == old(s)@.push(ch),
;

/// Whether `c` is one of the 62 symbols `a-z`, `A-Z`, `0-9`.
pub open spec fn is_alphanumeric(c: char) -> bool {
    ||| 'a' <= c <= 'z'
    ||| 'A' <= c <= 'Z'
    ||| '0' <= c <= '9'
}

/// Text of exactly `length` characters, all of them alphanumeric.
pub open spec fn is_alphanumeric_text(text: Seq<char>, length: nat) -> bool {
    &&& text.len() == length
    &&& forall|i: int| 0 <= i < text.len() ==> is_alphanumeric(#[trigger] text[i])
}

/// Every element of `values` is a possible result of calling `draw`.
pub open spec fn all_drawn<S, D: Fn() -> S>(values: Seq<S>, draw: D) -> bool {
    forall|i: int| 0 <= i < values.len() ==> draw.ensures((), #[trigger] values[i])
}

/// Alphanumeric text is printable ASCII throughout: it holds no NUL and no
/// character beyond `z`.
pub proof fn lemma_alphanumeric_text_is_ascii(text: Seq<char>, length: nat)
    requires
        is_alphanumeric_text(text, length),
    ensures
        forall|i: int| 0 <= i < text.len() ==> '0' <= #[trigger] text[i] <= 'z',
        forall|i: int| 0 <= i < text.len() ==> #[trigger] text[i] != '\0',
{
    assert forall|i: int| 0 <= i < text.len() implies '0' <= #[trigger] text[i] <= 'z' by {
        assert(is_alphanumeric(text[i]));
    }
}

/// A string of `length` characters, each drawn independently from the
/// alphanumeric alphabet. A `length` of zero gives the empty string.
pub fn random_string(length: usize) -> (text: String)
    ensures
        is_alphanumeric_text(text@, length as nat),
{
    let mut text = String::new();
    let mut n: usize = 0;
    while n < length
        invariant
            n <= length,
            is_alphanumeric_text(text@, n as nat),
        decreases length - n,
    {
        let b: u8 = alphanumeric_byte();
        text.push(b as char);
        n = n + 1;
    }
    text
}

/// A sequence of `length` bytes, each drawn independently and uniformly.
pub fn random_bytes(length: usize) -> (bytes: Vec<u8>)
    ensures
        bytes@.len() == length,
{
    let mut bytes: Vec<u8> = Vec::new();
    let mut n: usize = 0;
    while n < length
        invariant
            n <= length,
            bytes@.len() == n,
        decreases length - n,
    {
        bytes.push(uniform_u8());
        n = n + 1;
    }
    bytes
}

/// The empty byte sequence. It stands in for the payload of an image or a
/// point cloud, so that a fixture stays small whatever dimensions it declares.
pub fn empty_bytes() -> (bytes: Vec<u8>)
    ensures
        bytes@ == Seq::<u8>::empty(),
{
    Vec::new()
}

/// A sequence of `length` scalars, each the result of one call of `draw`,
/// in the order of the calls.
pub fn random_scalars<S, D: Fn() -> S>(length: usize, draw: &D) -> (values: Vec<S>)
    requires
        draw.requires(()),
    ensures
        values@.len() == length,
        all_drawn(values@, *draw),
{
    let mut values: Vec<S> = Vec::new();
    let mut n: usize = 0;
    while n < length
        invariant
            draw.requires(()),
            n <= length,
            values@.len() == n,
            all_drawn(values@, *draw),
        decreases length - n,
    {
        values.push(draw());
        n = n + 1;
    }
    values
}

} // verus!
