use binext::records::Mixed;
use binext::records::Sample;
use binext::write_binary_into_buffer;
use binext::BinaryRead;
use binext::BinaryWrite;
use binext::ByteCursor;
use binext::CharBits;
use binext::FixedLayout;
use binext::IoError;

#[test]
fn scenario_mixed_record() {
    let original = Mixed {
        a: 256,
        b: 128,
        c: CharBits::from_char('.'),
    };
    let mut buf = Vec::new();
    buf.write_binary(&original).unwrap();
    assert_eq!(buf.len(), <Mixed as FixedLayout>::size_in_bytes());
    assert_eq!(buf.len(), 10);

    let mut cursor = ByteCursor::new(buf);
    let recovered = cursor.read_binary::<Mixed>().unwrap();
    assert_eq!(recovered.a, 256);
    assert_eq!(recovered.b, 128);
    assert_eq!(recovered.c.to_char(), Some('.'));
    assert_eq!(recovered, original);
}

#[test]
fn exact_byte_count_all_zero() {
    let v = Sample { f: 0, d: 0, g: 0 };
    let mut buf = Vec::new();
    buf.write_binary(&v).unwrap();
    assert_eq!(buf.len(), <Sample as FixedLayout>::size_in_bytes());
    assert_eq!(buf.len(), 13);
}

#[test]
fn exact_byte_count_all_ones() {
    let v = Sample {
        f: u32::MAX,
        d: usize::MAX,
        g: u8::MAX,
    };
    let mut buf = Vec::new();
    buf.write_binary(&v).unwrap();
    assert_eq!(buf.len(), <Sample as FixedLayout>::size_in_bytes());
    assert_eq!(buf.len(), 13);
}

#[test]
fn short_read_fails() {
    let mut cursor = ByteCursor::new(vec![1, 2, 3]);
    let r = cursor.read_binary::<u32>();
    assert_eq!(r, Err(IoError::UnexpectedEof));
}

#[test]
fn short_read_fails_record() {
    // One byte less than the record's width.
    let mut cursor = ByteCursor::new(vec![0; 9]);
    let r = cursor.read_binary::<Mixed>();
    assert_eq!(r, Err(IoError::UnexpectedEof));
}

#[test]
fn short_read_fails_empty() {
    let mut cursor = ByteCursor::new(Vec::new());
    let r = cursor.read_binary::<u8>();
    assert_eq!(r, Err(IoError::UnexpectedEof));
}

#[test]
fn idempotent_size() {
    let first = <Mixed as FixedLayout>::size_in_bytes();
    let second = <Mixed as FixedLayout>::size_in_bytes();
    assert_eq!(first, second);

    let v = Mixed {
        a: 7,
        b: -7,
        c: CharBits::from_char('x'),
    };
    let mut buf = Vec::new();
    buf.write_binary(&v).unwrap();
    assert_eq!(buf.len(), first);
}

#[test]
fn buffer_independence() {
    // Two records that differ only in the middle field.
    let v = Mixed {
        a: 0xDEADBEEF,
        b: 100,
        c: CharBits::from_char('q'),
    };
    let w = Mixed {
        a: 0xDEADBEEF,
        b: -100,
        c: CharBits::from_char('q'),
    };
    let mut sink_v = Vec::new();
    let mut sink_w = Vec::new();
    sink_v.write_binary(&v).unwrap();
    sink_w.write_binary(&w).unwrap();

    // Identical where the fields are identical...
    assert_eq!(sink_v[0..4], sink_w[0..4]);
    assert_eq!(sink_v[6..10], sink_w[6..10]);
    // ...and different exactly where they differ.
    assert_ne!(sink_v[4..6], sink_w[4..6]);
}

#[test]
fn non_scalar_bits_accepted() {
    // 0xD800 is a surrogate code point: the raw storage reads back intact,
    // and only the conversion to a character refuses it.
    let mut buf = Vec::new();
    buf.write_binary(&0xD800u32).unwrap();
    let mut cursor = ByteCursor::new(buf);
    let bits = cursor.read_binary::<CharBits>().unwrap();
    assert_eq!(bits, CharBits(0xD800));
    assert_eq!(bits.to_char(), None);
}

#[test]
fn beyond_max_bits_accepted() {
    // 0x110000 is one past char::MAX; same as above.
    let mut buf = Vec::new();
    buf.write_binary(&0x110000u32).unwrap();
    let mut cursor = ByteCursor::new(buf);
    let bits = cursor.read_binary::<CharBits>().unwrap();
    assert_eq!(bits, CharBits(0x110000));
    assert_eq!(bits.to_char(), None);
}

#[test]
fn buffer_operations_round_trip() {
    // The in-memory operations whose contracts owe success.
    let original = Mixed {
        a: 256,
        b: 128,
        c: CharBits::from_char('.'),
    };
    let mut buf = Vec::new();
    assert_eq!(write_binary_into_buffer(&mut buf, &original), Ok(()));
    assert_eq!(buf.len(), 10);
    let mut cursor = ByteCursor::new(buf);
    assert_eq!(cursor.read_binary_exact::<Mixed>(), Ok(original));
}

#[test]
fn buffer_read_short_is_eof() {
    let mut cursor = ByteCursor::new(vec![0; 3]);
    assert_eq!(cursor.read_binary_exact::<u32>(), Err(IoError::UnexpectedEof));
}

#[test]
fn sequential_reads_consume_in_order() {
    let mut buf = Vec::new();
    buf.write_binary(&1u16).unwrap();
    buf.write_binary(&2u16).unwrap();
    let mut cursor = ByteCursor::new(buf);
    assert_eq!(cursor.read_binary::<u16>(), Ok(1));
    assert_eq!(cursor.read_binary::<u16>(), Ok(2));
    assert_eq!(cursor.read_binary::<u16>(), Err(IoError::UnexpectedEof));
}

#[test]
fn little_endian_layout() {
    let mut buf = Vec::new();
    buf.write_binary(&0x0A0B0C0Du32).unwrap();
    assert_eq!(buf, vec![0x0D, 0x0C, 0x0B, 0x0A]);
}

#[test]
fn failed_read_consumes_nothing() {
    let mut buf = Vec::new();
    buf.write_binary(&7u16).unwrap();
    let mut cursor = ByteCursor::new(buf);
    // Asking for more than remains fails...
    assert_eq!(cursor.read_binary::<u32>(), Err(IoError::UnexpectedEof));
    // ...and leaves the cursor where it was.
    assert_eq!(cursor.read_binary::<u16>(), Ok(7));
}
