use irodzuki::hex::{append_decimal, append_hex_pair, hex_byte, hex_digit};

#[test]
fn hex_byte_reads_two_hex_digits_only() {
    for hi in 0..=255u8 {
        for lo in 0..=255u8 {
            let expected = if hi.is_ascii_hexdigit() && lo.is_ascii_hexdigit() {
                let text = String::from_utf8(vec![hi, lo]).unwrap();
                u8::from_str_radix(&text, 16).ok()
            } else {
                None
            };
            assert_eq!(hex_byte(hi, lo), expected, "at {hi:#04x} {lo:#04x}");
        }
    }
}

#[test]
fn hex_digit_accepts_both_cases() {
    assert_eq!(hex_digit(b'a'), Some(10));
    assert_eq!(hex_digit(b'F'), Some(15));
    assert_eq!(hex_digit(b'9'), Some(9));
    assert_eq!(hex_digit(b'g'), None);
    assert_eq!(hex_digit(0xC3), None);
}

#[test]
fn decimal_and_hex_pairs_are_written_in_full() {
    let mut s = String::from("n=");
    append_decimal(&mut s, 0);
    append_decimal(&mut s, 1_234_509);
    assert_eq!(s, "n=01234509");
    let mut h = String::new();
    append_hex_pair(&mut h, 0x0A);
    append_hex_pair(&mut h, 0xFF);
    assert_eq!(h, "0AFF");
}
