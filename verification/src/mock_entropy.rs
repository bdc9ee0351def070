//! An entropy source for testing that always yields the same number.

use vstd::prelude::*;
use crate::errors::ErrorCode;

verus! {

/// The number the mock source yields.
pub const MOCK_RN: u32 = 0xFF;

/// A mock 32-bit entropy source.
pub struct MockEntropy32 {
    has_client: bool,
    mock_value: u32,
}

impl MockEntropy32 {
    pub closed spec fn has_client(&self) -> bool {
        self.has_client
    }

    pub closed spec fn mock_value(&self) -> u32 {
        self.mock_value
    }

    /// A source with no client, yielding `MOCK_RN`.
    pub fn new() -> (m: MockEntropy32)
        ensures
            !m.has_client(),
            m.mock_value() == MOCK_RN,
    {
        MockEntropy32 { has_client: false, mock_value: MOCK_RN }
    }

    /// Registers the entropy client; the caller keeps the client itself.
    pub fn set_client(&mut self)
        ensures
            final(self).has_client(),
            final(self).mock_value() == old(self).mock_value(),
    {
        self.has_client = true;
    }

    /// Asks for entropy. The client, if one is registered, is taken: the
    /// first component answers whether to hand it an iterator over the mock
    /// value. Asking always succeeds.
    pub fn get(&mut self) -> (r: (bool, Result<(), ErrorCode>))
        ensures
            r.0 == old(self).has_client(),
            !final(self).has_client(),
            final(self).mock_value() == old(self).mock_value(),
            r.1 is Ok,
    {
        let deliver = self.has_client;
        self.has_client = false;
        (deliver, Ok(()))
    }

    /// Cancelling always succeeds.
    pub fn cancel(&self) -> (r: Result<(), ErrorCode>)
        ensures
            r is Ok,
    {
        Ok(())
    }
}

/// An endless iterator over the mock value of a source.
pub struct MockEntropyIter<'a>(pub &'a MockEntropy32);

impl<'a> MockEntropyIter<'a> {
    /// The mock value, every time.
    pub fn next(&mut self) -> (r: Option<u32>)
        ensures
            r == Some(old(self).0.mock_value()),
            *final(self) == *old(self),
    {
        Some(self.0.mock_value)
    }
}

} // verus!
