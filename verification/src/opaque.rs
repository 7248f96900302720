//! Values of the cryptography library, carried and never looked into.

use vstd::prelude::*;

verus! {

/// One value of the cryptography library in its serialised form: accumulator
/// state, an accumulator delta, or key material.
#[derive(Debug, PartialEq, Eq)]
pub struct OpaqueValue {
    bytes: Vec<u8>,
}

impl View for OpaqueValue {
    type V = Seq<u8>;

    closed spec fn view(&self) -> Seq<u8> {
        self.bytes@
    }
}

impl OpaqueValue {
    /// Wraps a serialised value.
    pub fn new(bytes: Vec<u8>) -> (value: OpaqueValue)
        ensures
            value@ == bytes@,
    {
        OpaqueValue { bytes }
    }

    /// The serialised value.
    pub fn as_bytes(&self) -> (bytes: &Vec<u8>)
        ensures
            bytes@ == self@,
    {
        &self.bytes
    }

    /// Unwraps the serialised value.
    pub fn into_bytes(self) -> (bytes: Vec<u8>)
        ensures
            bytes@ == self@,
    {
        self.bytes
    }
}

impl Clone for OpaqueValue {
    fn clone(&self) -> (copy: OpaqueValue)
        ensures
            copy@ == self@,
    {
        let bytes = self.bytes.clone();
        assert(bytes@ =~= self.bytes@);
        OpaqueValue { bytes }
    }
}

} // verus!
