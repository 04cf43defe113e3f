//! The record that client and service exchange.

use vstd::prelude::*;

verus! {

/// A text label and an ordered sequence of code points.
#[derive(Debug, Clone, PartialEq, Eq)]
pub struct Payload {
    pub label: String,
    pub codes: Vec<u32>,
}

/// What a [`Payload`] holds, as mathematical values.
pub ghost struct PayloadView {
    pub label: Seq<char>,
    pub codes: Seq<u32>,
}

impl View for Payload {
    type V = PayloadView;

    open spec fn view(&self) -> PayloadView {
        PayloadView { label: self.label@, codes: self.codes@ }
    }
}

impl Payload {
    /// Builds a payload from its two parts.
    pub fn new(label: String, codes: Vec<u32>) -> (r: Payload)
        ensures
            r.label == label,
            r.codes == codes,
    {
        Payload { label, codes }
    }

    /// Whether two payloads hold the same label and the same sequence.
    pub fn same_as(&self, other: &Payload) -> (r: bool)
        ensures
            r == (self@ == other@),
    {
        if self.label != other.label {
            return false;
        }
        if self.codes.len() != other.codes.len() {
            return false;
        }
        let mut i: usize = 0;
        while i < self.codes.len()
            invariant
                i <= self.codes.len(),
                self.codes.len() == other.codes.len(),
                self.codes@.take(i as int) == other.codes@.take(i as int),
            decreases self.codes.len() - i,
        {
            if self.codes[i] != other.codes[i] {
                return false;
            }
            assert(self.codes@.take(i + 1) == self.codes@.take(i as int).push(self.codes@[i as int]));
            assert(other.codes@.take(i + 1) == other.codes@.take(i as int).push(
                other.codes@[i as int],
            ));
            i += 1;
        }
        assert(self.codes@.take(i as int) == self.codes@);
        assert(other.codes@.take(i as int) == other.codes@);
        true
    }
}

} // verus!
