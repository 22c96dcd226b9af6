use st0x_pricing_types::address::ADDRESS_LEN;
use st0x_pricing_types::byte_string::{array_from_byte_string, arrays_equal, ByteSeqDecoder, ByteStringError, SeqStep};
use st0x_pricing_types::float::FLOAT_LEN;
use st0x_pricing_types::u256::U256_LEN;
use st0x_pricing_types::{WireAddress, WireFloat, WireU256};

/// A value with a distinct byte in every position, so a truncated or
/// reordered copy cannot pass.
fn pattern32(start: u8, step: u8) -> [u8; 32] {
    let mut bytes = [0u8; 32];
    let mut v = start;
    for b in &mut bytes {
        *b = v;
        v = v.wrapping_add(step);
    }
    bytes
}

#[test]
fn zero_is_the_default_and_reports_is_zero() {
    assert_eq!(WireU256::default(), WireU256::zero());
    assert!(WireU256::zero().is_zero());
    assert!(!WireU256::from_bytes([1u8; 32]).is_zero());
}

#[test]
fn is_zero_sees_a_single_nonzero_byte() {
    let mut bytes = [0u8; 32];
    bytes[31] = 1;
    assert!(!WireU256::from_bytes(bytes).is_zero());
    assert!(WireU256::from_bytes([0u8; 32]).is_zero());
}

#[test]
fn from_bytes_and_as_bytes_round_trip() {
    let bytes = pattern32(1, 37);
    assert_eq!(*WireU256::from_bytes(bytes).as_bytes(), bytes);
    assert_eq!(*WireFloat::from_bytes([0x42; 32]).as_bytes(), [0x42; 32]);
    assert_eq!(*WireAddress::from_bytes([0x11; 20]).as_bytes(), [0x11; 20]);
}

#[test]
fn from_conversions_round_trip() {
    let bytes = pattern32(3, 41);
    let w: WireU256 = bytes.into();
    let back: [u8; 32] = w.into();
    assert_eq!(back, bytes);
    let f = WireFloat::from([0x43; 32]);
    assert_eq!(<[u8; 32]>::from(f), [0x43; 32]);
    let a = WireAddress::from([0x22; 20]);
    assert_eq!(<[u8; 20]>::from(a), [0x22; 20]);
}

#[test]
fn equality_compares_every_byte() {
    let a = pattern32(1, 37);
    let mut b = a;
    assert_eq!(WireFloat::from_bytes(a), WireFloat::from_bytes(b));
    b[17] ^= 0x80;
    assert_ne!(WireFloat::from_bytes(a), WireFloat::from_bytes(b));
    assert!(arrays_equal(&a, &a));
    assert!(!arrays_equal(&a, &b));
    assert_ne!(WireAddress::from_bytes([1; 20]), WireAddress::from_bytes([2; 20]));
}

#[test]
fn defaults_are_all_zero() {
    assert_eq!(WireAddress::default(), WireAddress::from_bytes([0; 20]));
    assert_eq!(WireFloat::default(), WireFloat::from_bytes([0; 32]));
}

#[test]
fn address_byte_string_accepts_exactly_20_bytes() {
    let ok = WireAddress::from_byte_string(&[0xab; 20]).unwrap();
    assert_eq!(ok, WireAddress::from_bytes([0xab; 20]));
    assert_eq!(
        WireAddress::from_byte_string(&[1u8; 32]),
        Err(ByteStringError::WrongLength { expected: 20, got: 32 })
    );
    assert_eq!(
        WireAddress::from_byte_string(&[]),
        Err(ByteStringError::WrongLength { expected: 20, got: 0 })
    );
    assert_eq!(ADDRESS_LEN, 20);
}

#[test]
fn float_byte_string_accepts_exactly_32_bytes() {
    let ok = WireFloat::from_byte_string(&[0xab; 32]).unwrap();
    assert_eq!(ok, WireFloat::from_bytes([0xab; 32]));
    assert_eq!(
        WireFloat::from_byte_string(&[1u8; 16]),
        Err(ByteStringError::WrongLength { expected: 32, got: 16 })
    );
    assert_eq!(FLOAT_LEN, 32);
}

#[test]
fn u256_byte_string_keeps_every_byte() {
    let bytes = pattern32(1, 37);
    let w = WireU256::from_byte_string(&bytes).unwrap();
    assert_eq!(w.0, bytes);
    assert_eq!(
        WireU256::from_byte_string(&[1u8; 20]),
        Err(ByteStringError::WrongLength { expected: 32, got: 20 })
    );
    assert_eq!(
        WireU256::from_byte_string(&[1u8; 33]),
        Err(ByteStringError::WrongLength { expected: 32, got: 33 })
    );
    assert_eq!(U256_LEN, 32);
}

#[test]
fn array_from_byte_string_copies_in_order() {
    let got: [u8; 3] = array_from_byte_string(&[7, 8, 9]).unwrap();
    assert_eq!(got, [7, 8, 9]);
    let short: Result<[u8; 3], _> = array_from_byte_string(&[7, 8]);
    assert_eq!(short, Err(ByteStringError::WrongLength { expected: 3, got: 2 }));
}

fn feed_all<const N: usize>(elements: &[Option<u8>]) -> (SeqStep<N>, usize) {
    let mut decoder = ByteSeqDecoder::<N>::new();
    let mut fed = 0;
    for element in elements {
        fed += 1;
        let step = decoder.feed(*element);
        if step != SeqStep::NeedMore {
            return (step, fed);
        }
    }
    (SeqStep::NeedMore, fed)
}

fn as_elements(bytes: &[u8]) -> Vec<Option<u8>> {
    let mut v: Vec<Option<u8>> = bytes.iter().map(|b| Some(*b)).collect();
    v.push(None);
    v
}

#[test]
fn sequence_of_exactly_n_elements_decodes() {
    let bytes = pattern32(5, 29);
    let (step, fed) = feed_all::<32>(&as_elements(&bytes));
    assert_eq!(step, SeqStep::Done(bytes));
    assert_eq!(fed, 33);
    let (step, _) = feed_all::<20>(&as_elements(&[0x11; 20]));
    assert_eq!(step, SeqStep::Done([0x11; 20]));
}

#[test]
fn short_sequence_is_refused() {
    let (step, fed) = feed_all::<20>(&as_elements(&[1; 19]));
    assert_eq!(step, SeqStep::Failed(ByteStringError::ShortSequence { need: 20 }));
    assert_eq!(fed, 20);
    let (step, fed) = feed_all::<32>(&[None]);
    assert_eq!(step, SeqStep::Failed(ByteStringError::ShortSequence { need: 32 }));
    assert_eq!(fed, 1);
}

#[test]
fn long_sequence_is_refused_at_the_first_extra_element() {
    let (step, fed) = feed_all::<32>(&as_elements(&[1; 40]));
    assert_eq!(step, SeqStep::Failed(ByteStringError::LongSequence { need: 32 }));
    assert_eq!(fed, 33);
}

#[test]
fn decoder_waits_while_elements_arrive() {
    let mut decoder = ByteSeqDecoder::<2>::new();
    assert_eq!(decoder.feed(Some(9)), SeqStep::NeedMore);
    assert_eq!(decoder.feed(Some(8)), SeqStep::NeedMore);
    assert_eq!(decoder.feed(None), SeqStep::Done([9, 8]));
}
