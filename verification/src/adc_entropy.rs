//! An entropy source that gathers the low bytes of ADC samples.
//!
//! Each sample contributes its low byte; once a nonzero byte has been
//! shifted into the top of the 32-bit value, the value is handed to the
//! entropy client. The ADC and the client are outside this module.

use vstd::prelude::*;

verus! {

/// Whether the entropy client wants more.
#[derive(Clone, Copy, Debug, PartialEq, Eq, Structural)]
pub enum Continue {
    More,
    Done,
}

/// What to do after a sample arrived.
#[derive(Clone, Copy, Debug, PartialEq, Eq, Structural)]
pub enum SampleAction {
    /// Start another ADC sample.
    SampleAgain,
    /// Hand this value to the entropy client (through an iterator yielding
    /// it once), then give its answer to `entropy_delivered`.
    Deliver(u32),
    /// Nothing: the value is ready but there is no client.
    Wait,
}

/// The value after `sample` was shifted into `current`.
pub open spec fn accumulate(current: u32, sample: u16) -> u32 {
    (current << 8u32) | ((sample as u32) & 0xffu32)
}

/// The value holds 32 bits of entropy: its top byte is not zero.
pub open spec fn full(v: u32) -> bool {
    v & 0xff00_0000u32 != 0
}

/// The entropy source.
pub struct AdcEntropy {
    entropy_value: u32,
    entropy_ready: bool,
    has_client: bool,
}

impl AdcEntropy {
    pub closed spec fn value(&self) -> u32 {
        self.entropy_value
    }

    pub closed spec fn ready(&self) -> bool {
        self.entropy_ready
    }

    pub closed spec fn has_client(&self) -> bool {
        self.has_client
    }

    /// A source with nothing gathered and no client.
    pub fn new() -> (a: AdcEntropy)
        ensures
            a.value() == 0,
            !a.ready(),
            !a.has_client(),
    {
        AdcEntropy { entropy_value: 0, entropy_ready: false, has_client: false }
    }

    /// Registers the entropy client; the caller keeps the client itself.
    pub fn set_client(&mut self)
        ensures
            final(self).has_client(),
            final(self).value() == old(self).value(),
            final(self).ready() == old(self).ready(),
    {
        self.has_client = true;
    }

    /// A sample arrived from the ADC.
    pub fn sample_ready(&mut self, sample: u16) -> (act: SampleAction)
        ensures
            final(self).value() == accumulate(old(self).value(), sample),
            final(self).has_client() == old(self).has_client(),
            full(final(self).value()) ==> final(self).ready(),
            !full(final(self).value()) ==> final(self).ready() == old(self).ready(),
            !full(final(self).value()) ==> act == SampleAction::SampleAgain,
            full(final(self).value()) && old(self).has_client() ==> act == SampleAction::Deliver(
                final(self).value(),
            ),
            full(final(self).value()) && !old(self).has_client() ==> act == SampleAction::Wait,
    {
        let current = self.entropy_value;
        let new_entropy = (current << 8u32) | ((sample as u32) & 0xffu32);
        self.entropy_value = new_entropy;
        // Four bytes (32 bits) gathered: tell the client.
        if (new_entropy & 0xff00_0000u32) != 0 {
            self.entropy_ready = true;
            if self.has_client {
                SampleAction::Deliver(new_entropy)
            } else {
                SampleAction::Wait
            }
        } else {
            SampleAction::SampleAgain
        }
    }

    /// The client answered a delivery; answers whether to sample again. The
    /// delivered value is dropped either way, so that the next word is made
    /// of four fresh samples.
    pub fn entropy_delivered(&mut self, answer: Continue) -> (again: bool)
        ensures
            final(self).has_client() == old(self).has_client(),
            final(self).value() == 0,
            !final(self).ready(),
            again == (answer == Continue::More),
    {
        self.entropy_value = 0;
        self.entropy_ready = false;
        match answer {
            Continue::More => true,
            Continue::Done => false,
        }
    }
}

/// One step of the iterator over `value`: whether it is consumed after the
/// step, and what the step yields.
pub open spec fn iter_next(consumed: bool, value: u32) -> (bool, Option<u32>) {
    if consumed {
        (true, None)
    } else {
        (true, Some(value))
    }
}

/// A fresh iterator yields its value on the first step and nothing on every
/// later step.
pub proof fn law_iterator_yields_once(value: u32)
    ensures
        iter_next(false, value).1 == Some(value),
        iter_next(iter_next(false, value).0, value).1 is None,
        iter_next(iter_next(iter_next(false, value).0, value).0, value).1 is None,
{
}

/// An iterator that yields one gathered value once.
pub struct AdcEntropyIter {
    entropy_value: u32,
    consumed: bool,
}

impl AdcEntropyIter {
    pub closed spec fn value(&self) -> u32 {
        self.entropy_value
    }

    pub closed spec fn consumed(&self) -> bool {
        self.consumed
    }

    /// An iterator that will yield `entropy_value`.
    pub fn new(entropy_value: u32) -> (it: AdcEntropyIter)
        ensures
            it.value() == entropy_value,
            !it.consumed(),
    {
        AdcEntropyIter { entropy_value, consumed: false }
    }

    /// The value the first time, then nothing.
    pub fn next(&mut self) -> (r: Option<u32>)
        ensures
            final(self).consumed() == iter_next(old(self).consumed(), old(self).value()).0,
            final(self).value() == old(self).value(),
            r == iter_next(old(self).consumed(), old(self).value()).1,
    {
        if !self.consumed {
            self.consumed = true;
            Some(self.entropy_value)
        } else {
            None
        }
    }
}

/// A value gathered from four samples starting from nothing holds their low
/// bytes, the first one in the top byte; it is complete exactly when the
/// first byte is not zero.
pub proof fn law_four_samples(a: u16, b: u16, c: u16, d: u16)
    ensures
        accumulate(accumulate(accumulate(accumulate(0, a), b), c), d) == ((a as u32 & 0xff) << 24u32)
            | ((b as u32 & 0xff) << 16u32) | ((c as u32 & 0xff) << 8u32) | (d as u32 & 0xff),
        full(accumulate(accumulate(accumulate(accumulate(0, a), b), c), d)) <==> (a as u32 & 0xff)
            != 0,
{
    let a32 = a as u32;
    let b32 = b as u32;
    let c32 = c as u32;
    let d32 = d as u32;
    assert(((((((0u32 << 8u32) | (a32 & 0xff)) << 8u32) | (b32 & 0xff)) << 8u32) | (c32 & 0xff))
        << 8u32 | (d32 & 0xff) == ((a32 & 0xff) << 24u32) | ((b32 & 0xff) << 16u32) | ((c32
        & 0xff) << 8u32) | (d32 & 0xff)) by (bit_vector);
    let v = ((a32 & 0xff) << 24u32) | ((b32 & 0xff) << 16u32) | ((c32 & 0xff) << 8u32) | (d32
        & 0xff);
    assert((v & 0xff00_0000u32 != 0) <==> (a32 & 0xff) != 0) by (bit_vector)
        requires
            v == ((a32 & 0xff) << 24u32) | ((b32 & 0xff) << 16u32) | ((c32 & 0xff) << 8u32) | (
            d32 & 0xff),
    ;
}

/// After a delivery, the next word delivered is made of fresh samples only:
/// starting again from nothing, three more samples never complete a word,
/// whatever they are.
pub proof fn law_no_reused_bytes(a: u16, b: u16, c: u16)
    ensures
        !full(accumulate(0, a)),
        !full(accumulate(accumulate(0, a), b)),
        !full(accumulate(accumulate(accumulate(0, a), b), c)),
{
    let a32 = a as u32;
    let b32 = b as u32;
    let c32 = c as u32;
    assert(((0u32 << 8u32) | (a32 & 0xff)) & 0xff00_0000u32 == 0) by (bit_vector);
    assert(((((0u32 << 8u32) | (a32 & 0xff)) << 8u32) | (b32 & 0xff)) & 0xff00_0000u32 == 0)
        by (bit_vector);
    assert(((((((0u32 << 8u32) | (a32 & 0xff)) << 8u32) | (b32 & 0xff)) << 8u32) | (c32
        & 0xff)) & 0xff00_0000u32 == 0) by (bit_vector);
}

} // verus!
