use lib::adc_entropy::{AdcEntropy, AdcEntropyIter, Continue, SampleAction};
use lib::errors::{CommandReturn, ErrorCode};
use lib::mock_entropy::{MockEntropy32, MockEntropyIter, MOCK_RN};
use lib::touch_driver::CapacitiveTouchSensor;

#[test]
fn iterator_yields_once() {
    let mut it = AdcEntropyIter::new(0xdead_beef);
    assert_eq!(it.next(), Some(0xdead_beef));
    assert_eq!(it.next(), None);
    assert_eq!(it.next(), None);
}

#[test]
fn four_samples_make_a_value() {
    let mut a = AdcEntropy::new();
    a.set_client();
    assert_eq!(a.sample_ready(0x1234), SampleAction::SampleAgain);
    assert_eq!(a.sample_ready(0x0056), SampleAction::SampleAgain);
    assert_eq!(a.sample_ready(0xff78), SampleAction::SampleAgain);
    assert_eq!(a.sample_ready(0x009a), SampleAction::Deliver(0x3456_789a));
    // The client is done: the value is dropped and gathering starts over.
    assert!(!a.entropy_delivered(Continue::Done));
    assert_eq!(a.sample_ready(0x01), SampleAction::SampleAgain);
}

#[test]
fn zero_leading_byte_needs_more_samples() {
    let mut a = AdcEntropy::new();
    a.set_client();
    for _ in 0..4 {
        assert_eq!(a.sample_ready(0x100), SampleAction::SampleAgain);
    }
    assert_eq!(a.sample_ready(7), SampleAction::SampleAgain);
    assert_eq!(a.sample_ready(0), SampleAction::SampleAgain);
    assert_eq!(a.sample_ready(0), SampleAction::SampleAgain);
    assert_eq!(a.sample_ready(1), SampleAction::Deliver(0x0700_0001));
}

#[test]
fn more_starts_a_fresh_word() {
    let mut a = AdcEntropy::new();
    a.set_client();
    for s in [1u16, 2, 3] {
        a.sample_ready(s);
    }
    assert_eq!(a.sample_ready(4), SampleAction::Deliver(0x0102_0304));
    assert!(a.entropy_delivered(Continue::More));
    // No byte of the delivered word is used again.
    assert_eq!(a.sample_ready(5), SampleAction::SampleAgain);
    assert_eq!(a.sample_ready(6), SampleAction::SampleAgain);
    assert_eq!(a.sample_ready(7), SampleAction::SampleAgain);
    assert_eq!(a.sample_ready(8), SampleAction::Deliver(0x0506_0708));
}

#[test]
fn no_client_waits() {
    let mut a = AdcEntropy::new();
    for s in [9u16, 2, 3] {
        a.sample_ready(s);
    }
    assert_eq!(a.sample_ready(4), SampleAction::Wait);
}

#[test]
fn mock_entropy_takes_client() {
    let mut m = MockEntropy32::new();
    assert_eq!(m.get(), (false, Ok(())));
    m.set_client();
    assert_eq!(m.get(), (true, Ok(())));
    assert_eq!(m.get(), (false, Ok(())));
    assert_eq!(m.cancel(), Ok(()));
    let mut it = MockEntropyIter(&m);
    assert_eq!(it.next(), Some(MOCK_RN));
    assert_eq!(it.next(), Some(0xFF));
    assert_eq!(it.next(), Some(0xFF));
}

#[test]
fn touch_driver_commands() {
    let mut t = CapacitiveTouchSensor::new();
    assert_eq!(t.command(0, 0, 0, 1), CommandReturn::Success);
    assert_eq!(t.command(1, 0, 0, 1), CommandReturn::Success);
    assert_eq!(t.command(2, 0, 0, 1), CommandReturn::SuccessU32(0));
    assert_eq!(t.command(3, 0, 0, 1), CommandReturn::Failure(ErrorCode::NOSUPPORT));
    assert!(!t.is_touched());
    t.start_measurement();
    assert_eq!(t.allocate_grant(1), Ok(()));
}
