//! The three request handlers of the service.

use vstd::prelude::*;
use vstd::string::StringExecFns;
use crate::payload::{Payload, PayloadView};
use crate::text::{all_scalar_values, decode_text, decoded_text, is_first_invalid};

verus! {

/// Why a payload could not be echoed: `value`, at position `index`, is the
/// first element of the sequence that is no character.
#[derive(Debug, Clone, Copy, PartialEq, Eq, Structural)]
pub struct DecodeError {
    pub index: usize,
    pub value: u32,
}

/// The status code under which a client error is reported.
pub const BAD_REQUEST: u16 = 400;

impl DecodeError {
    /// The status code to answer with: a rejected payload is the client's
    /// fault, whatever it held.
    pub fn status(&self) -> (r: u16)
        ensures
            r == BAD_REQUEST,
    {
        BAD_REQUEST
    }
}

/// The payload that the service hands out.
pub open spec fn fixed_payload() -> PayloadView {
    PayloadView { label: "foo"@, codes: seq![98u32, 97u32, 114u32] }
}

/// The greeting for `name`.
pub open spec fn greeting(name: Seq<char>) -> Seq<char> {
    "Hello "@ + name
}

/// The answer to a payload whose sequence decodes: the label, directly
/// followed by the decoded text.
pub open spec fn echo_text(payload: PayloadView) -> Seq<char> {
    payload.label + decoded_text(payload.codes)
}

/// The echo holds the label and one character for each element of the
/// sequence, and nothing else: it begins with the label, and what follows
/// the label is the decoded text.
pub proof fn echo_text_parts(payload: PayloadView)
    ensures
        echo_text(payload).len() == payload.label.len() + payload.codes.len(),
        echo_text(payload).take(payload.label.len() as int) == payload.label,
        echo_text(payload).skip(payload.label.len() as int) == decoded_text(payload.codes),
{
    let n = payload.label.len() as int;
    assert(echo_text(payload).take(n) =~= payload.label);
    assert(echo_text(payload).skip(n) =~= decoded_text(payload.codes));
}

/// Answers a fetch: always the fixed payload.
pub fn return_json() -> (r: Payload)
    ensures
        r@ == fixed_payload(),
{
    let mut codes: Vec<u32> = Vec::new();
    codes.push(98);
    codes.push(97);
    codes.push(114);
    assert(codes@ == seq![98u32, 97u32, 114u32]);
    Payload { label: String::from_str("foo"), codes }
}

/// Answers an echo request. Succeeds exactly when every element of the
/// sequence is a Unicode scalar value, with the label directly followed by
/// the decoded text; otherwise names the first element that is no character,
/// and gives no text at all.
pub fn decode_json(payload: Payload) -> (r: Result<String, DecodeError>)
    ensures
        r is Ok <==> all_scalar_values(payload@.codes),
        r matches Ok(text) ==> text@ == echo_text(payload@),
        r matches Err(e) ==> is_first_invalid(payload@.codes, e.index as int) && e.value
            == payload@.codes[e.index as int],
{
    match decode_text(&payload.codes) {
        Ok(decoded) => {
            let mut text = payload.label;
            text.append(decoded.as_str());
            Ok(text)
        },
        Err(index) => Err(DecodeError { index, value: payload.codes[index] }),
    }
}

/// Answers a greeting request: the name in the greeting template.
pub fn greet(name: &str) -> (r: String)
    ensures
        r@ == greeting(name@),
{
    let mut text = String::from_str("Hello ");
    text.append(name);
    text
}

} // verus!
