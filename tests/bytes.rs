use rpi_pico_sdk::bytes::BytesWriter;

#[test]
fn new_writer_is_empty() {
    let w = BytesWriter::new(vec![0u8; 8]);
    assert_eq!(w.capacity(), 8);
    assert_eq!(w.len(), 0);
    assert!(w.empty());
    assert!(!w.full());
    assert_eq!(w.as_bytes(), b"");
}

#[test]
fn write_str_keeps_what_fits() {
    let mut w = BytesWriter::new(vec![0u8; 8]);
    w.write_str("hello");
    assert_eq!(w.as_bytes(), b"hello");
    w.write_str(", world");
    assert_eq!(w.as_bytes(), b"hello, w");
    assert!(w.full());
    w.write_str("more");
    assert_eq!(w.as_bytes(), b"hello, w");
}

#[test]
fn write_byte_drops_when_full() {
    let mut w = BytesWriter::new(vec![0u8; 2]);
    w.write_byte(b'a');
    w.write_byte(b'b');
    w.write_byte(b'c');
    assert_eq!(w.as_bytes(), b"ab");
    assert_eq!(w.len(), 2);
}

#[test]
fn write_char_writes_its_low_byte() {
    let mut w = BytesWriter::new(vec![0u8; 4]);
    w.write_char('4');
    w.write_char('2');
    assert_eq!(w.as_bytes(), b"42");
}

#[test]
fn clear_starts_over() {
    let mut w = BytesWriter::new(vec![0u8; 4]);
    w.write_str("abcd");
    w.clear();
    assert!(w.empty());
    assert_eq!(w.capacity(), 4);
    w.write_str("xy");
    assert_eq!(w.as_bytes(), b"xy");
}

#[test]
fn zero_capacity_writer_is_full() {
    let mut w = BytesWriter::new(Vec::new());
    assert!(w.full());
    assert!(w.empty());
    w.write_str("x");
    assert_eq!(w.len(), 0);
}
