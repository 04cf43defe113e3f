//! The client's side of one exchange with an echoing endpoint.

use vstd::prelude::*;
use vstd::string::StringExecFns;
use crate::payload::{Payload, PayloadView};

verus! {

/// The payload that the client sends.
pub open spec fn sample_payload() -> PayloadView {
    PayloadView { label: "Foo"@, codes: seq![2u32, 3u32, 4u32] }
}

/// Builds the payload to send.
pub fn request_payload() -> (r: Payload)
    ensures
        r@ == sample_payload(),
{
    let mut codes: Vec<u32> = Vec::new();
    codes.push(2);
    codes.push(3);
    codes.push(4);
    assert(codes@ == seq![2u32, 3u32, 4u32]);
    Payload { label: String::from_str("Foo"), codes }
}

/// The client's verdict on one exchange: whether what the endpoint sent back
/// is the payload that the client sends, label and sequence alike.
pub fn client_example(echoed: &Payload) -> (r: bool)
    ensures
        r == (echoed@ == sample_payload()),
{
    request_payload().same_as(echoed)
}

} // verus!
