use binext::BinaryRead;
use binext::BinaryWrite;
use binext::ByteCursor;
use binext::CharBits;
use binext::FixedLayout;

fn round_trip<T: FixedLayout + PartialEq + std::fmt::Debug>(v: T) {
    let mut buf = Vec::new();
    buf.write_binary(&v).unwrap();
    assert_eq!(buf.len(), T::size_in_bytes());
    let mut cursor = ByteCursor::new(buf);
    let w = cursor.read_binary::<T>().unwrap();
    assert_eq!(w, v);
}

#[test]
fn round_trip_unsigned() {
    round_trip(0u8);
    round_trip(u8::MAX);
    round_trip(0xABCDu16);
    round_trip(u16::MAX);
    round_trip(0u32);
    round_trip(u32::MAX);
    round_trip(0x0123_4567_89AB_CDEFu64);
    round_trip(u64::MAX);
    round_trip(0usize);
    round_trip(usize::MAX);
}

#[test]
fn round_trip_signed() {
    round_trip(-1i8);
    round_trip(i8::MIN);
    round_trip(i8::MAX);
    round_trip(-32768i16);
    round_trip(i16::MAX);
    round_trip(-1i32);
    round_trip(i32::MIN);
    round_trip(i64::MIN);
    round_trip(i64::MAX);
    round_trip(0i64);
}

#[test]
fn round_trip_char_bits() {
    round_trip(CharBits::from_char('a'));
    round_trip(CharBits::from_char('\0'));
    round_trip(CharBits::from_char('\u{D7FF}'));
    round_trip(CharBits::from_char('\u{E000}'));
    round_trip(CharBits::from_char('\u{10FFFF}'));
    round_trip(CharBits::from_char('語'));
}

#[test]
fn char_bits_conversion() {
    assert_eq!(CharBits::from_char('語').to_char(), Some('語'));
    assert_eq!(CharBits::from_char('\u{10FFFF}').to_char(), Some('\u{10FFFF}'));
    assert_eq!(CharBits(0xDFFF).to_char(), None);
}

#[test]
fn signed_two_complement_layout() {
    let mut buf = Vec::new();
    buf.write_binary(&-2i16).unwrap();
    assert_eq!(buf, vec![0xFE, 0xFF]);
}
