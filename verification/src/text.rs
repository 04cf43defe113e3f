//! Code points and the text they decode to.

use vstd::prelude::*;

verus! {

/// Whether `code` is a Unicode scalar value: a code point up to `0x10FFFF`
/// that is not a surrogate.
pub open spec fn is_scalar_value(code: u32) -> bool {
    code <= 0xD7FF || (0xE000 <= code && code <= 0x10FFFF)
}

/// Whether every element of `codes` is a Unicode scalar value.
pub open spec fn all_scalar_values(codes: Seq<u32>) -> bool {
    forall|i: int| 0 <= i < codes.len() ==> is_scalar_value(#[trigger] codes[i])
}

/// Whether `index` is the position of the first element of `codes` that is
/// not a Unicode scalar value.
pub open spec fn is_first_invalid(codes: Seq<u32>, index: int) -> bool {
    &&& 0 <= index < codes.len()
    &&& !is_scalar_value(codes[index])
    &&& forall|j: int| 0 <= j < index ==> is_scalar_value(#[trigger] codes[j])
}

/// The text whose characters have the given code points, in order.
pub open spec fn decoded_text(codes: Seq<u32>) -> Seq<char> {
    Seq::new(codes.len(), |i: int| codes[i] as char)
}

/// Decoding loses nothing: the decoded text is as long as the sequence, and
/// where every element is a Unicode scalar value, each character's code point
/// is the element it came from.
pub proof fn decoded_text_keeps_codes(codes: Seq<u32>)
    requires
        all_scalar_values(codes),
    ensures
        decoded_text(codes).len() == codes.len(),
        forall|i: int|
            0 <= i < codes.len() ==> (#[trigger] decoded_text(codes)[i]) as u32 == codes[i],
{
    assert forall|i: int| 0 <= i < codes.len() implies (#[trigger] decoded_text(codes)[i]) as u32
        == codes[i] by {
        assert(is_scalar_value(codes[i]));
    }
}

/// `core::char::CharTryFromError`, the error of `char::try_from`: carried
/// through as it is, never looked into.
#[verifier::external_type_specification]
#[verifier::external_body]
pub struct ExCharTryFromError(core::char::CharTryFromError);

/// `char::try_from` on a `u32`: trusted to succeed exactly on the Unicode
/// scalar values, giving the character whose code point is `code`.
#[verifier::external_body]
pub(crate) fn char_from_code(code: u32) -> (r: Result<char, core::char::CharTryFromError>)
    ensures
        r is Ok <==> is_scalar_value(code),
        r matches Ok(c) ==> c == code as char,
{
    char::try_from(code)
}

/// `String::push`: trusted to append the one character to the text.
pub assume_specification[ String::push ](text: &mut String, c: char)
    ensures
        final(text)@ == old(text)@.push(c),
;

/// Decodes `codes` into text, or reports the position of the first element
/// that is no character.
pub fn decode_text(codes: &Vec<u32>) -> (r: Result<String, usize>)
    ensures
        r is Ok <==> all_scalar_values(codes@),
        r matches Ok(text) ==> text@ == decoded_text(codes@),
        r matches Err(index) ==> is_first_invalid(codes@, index as int),
{
    let mut text = String::new();
    let mut i: usize = 0;
    while i < codes.len()
        invariant
            i <= codes.len(),
            forall|j: int| 0 <= j < i ==> is_scalar_value(#[trigger] codes@[j]),
            text@ == decoded_text(codes@.take(i as int)),
        decreases codes.len() - i,
    {
        match char_from_code(codes[i]) {
            Ok(c) => {
                text.push(c);
            },
            Err(_) => {
                return Err(i);
            },
        }
        assert(codes@.take(i + 1) == codes@.take(i as int).push(codes@[i as int]));
        assert(decoded_text(codes@.take(i + 1)) == decoded_text(codes@.take(i as int)).push(
            codes@[i as int] as char,
        ));
        i += 1;
    }
    assert(codes@.take(i as int) == codes@);
    Ok(text)
}

} // verus!
