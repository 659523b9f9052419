use lib::console::debug_list_bytes;
use lib::console_writer::{ConsoleWriter, CONSOLE_WRITER_SIZE};
use lib::format::{digits_of, push_bytes, push_decimal, push_hex_word, push_padded, push_padded_right, push_str};

fn text(v: Vec<u8>) -> String {
    String::from_utf8(v).unwrap()
}

#[test]
fn digits_in_each_base() {
    assert_eq!(text(digits_of(0, 10)), "0");
    assert_eq!(text(digits_of(12345, 10)), "12345");
    assert_eq!(text(digits_of(0xbeef, 16)), "BEEF");
    assert_eq!(text(digits_of(5, 2)), "101");
    assert_eq!(text(digits_of(usize::MAX, 10)), usize::MAX.to_string());
}

#[test]
fn decimal_is_right_aligned() {
    for (n, width) in [(0usize, 6usize), (42, 6), (123456, 6), (1234567, 6), (7, 0)] {
        let mut out = Vec::new();
        push_decimal(&mut out, n, width);
        assert_eq!(text(out), format!("{:width$}", n, width = width));
    }
}

#[test]
fn addresses_have_ten_characters() {
    for n in [0usize, 0x1f, 0x2000_1000, 0xffff_ffff, 0x1_0000_0000] {
        let mut out = Vec::new();
        push_hex_word(&mut out, n);
        assert_eq!(text(out), format!("{:#010X}", n));
    }
}

#[test]
fn padding_on_both_sides() {
    let mut out = Vec::new();
    push_padded(&mut out, b"ab", 5, b'.');
    push_padded_right(&mut out, b"cd", 4, b'-');
    push_padded(&mut out, b"toolong", 3, b'.');
    assert_eq!(text(out), "...abcd--toolong");
}

#[test]
fn strings_and_bytes_append() {
    let mut out = b"x".to_vec();
    push_str(&mut out, "é!");
    push_bytes(&mut out, &[b'y']);
    assert_eq!(text(out), "xé!y");
}

#[test]
fn byte_lists_print_as_debug_does() {
    assert_eq!(text(debug_list_bytes(&[])), format!("{:?}", Vec::<u8>::new()));
    assert_eq!(text(debug_list_bytes(&[7])), "[7]");
    assert_eq!(text(debug_list_bytes(&[255, 0, 10])), format!("{:?}", [255u8, 0, 10]));
}

#[test]
fn console_writer_new_is_empty() {
    let w = ConsoleWriter::new();
    assert!(w.contents().is_empty());
    assert_eq!(CONSOLE_WRITER_SIZE, 500);
}

#[test]
fn console_writer_appends_and_clears() {
    let mut w = ConsoleWriter::new();
    assert_eq!(w.write_str("Kernel version: "), Ok(()));
    assert_eq!(w.write_str("2.1\r\n"), Ok(()));
    assert_eq!(w.contents(), b"Kernel version: 2.1\r\n".to_vec());
    w.clear();
    assert!(w.contents().is_empty());
    w.write_bytes(b"Drivers:\n");
    assert_eq!(w.contents(), b"Drivers:\n".to_vec());
}

#[test]
fn console_writer_holds_five_hundred_bytes() {
    let mut w = ConsoleWriter::new();
    let long = "a".repeat(500);
    assert_eq!(w.write_str(&long), Ok(()));
    assert_eq!(w.contents().len(), 500);
}
