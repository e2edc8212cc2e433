use hex_editor::hex::{decode_token, encode_byte, hex_len, is_hex, push_hex, push_hex_padded, upper, value_of};

#[test]
fn hex_digits_are_recognised() {
    for c in "0123456789abcdefABCDEF".chars() {
        assert!(is_hex(c), "{c}");
    }
    for c in "gGzZ/:@`[ +-xq\u{e9}\u{ff10}".chars() {
        assert!(!is_hex(c), "{c}");
    }
}

#[test]
fn upper_raises_hex_letters_only() {
    assert_eq!(upper('a'), 'A');
    assert_eq!(upper('f'), 'F');
    assert_eq!(upper('c'), 'C');
    assert_eq!(upper('A'), 'A');
    assert_eq!(upper('7'), '7');
    assert_eq!(upper('g'), 'g');
    assert_eq!(upper('z'), 'z');
}

#[test]
fn value_of_each_digit() {
    assert_eq!(value_of('0'), Some(0));
    assert_eq!(value_of('9'), Some(9));
    assert_eq!(value_of('a'), Some(10));
    assert_eq!(value_of('A'), Some(10));
    assert_eq!(value_of('f'), Some(15));
    assert_eq!(value_of('F'), Some(15));
    assert_eq!(value_of('g'), None);
    assert_eq!(value_of(' '), None);
}

#[test]
fn encode_byte_gives_two_upper_case_digits() {
    assert_eq!(encode_byte(0x00), "00");
    assert_eq!(encode_byte(0x0A), "0A");
    assert_eq!(encode_byte(0x1A), "1A");
    assert_eq!(encode_byte(0x99), "99");
    assert_eq!(encode_byte(0xF0), "F0");
    assert_eq!(encode_byte(0xFF), "FF");
}

#[test]
fn encode_byte_agrees_with_std_formatting() {
    for b in 0..=255u8 {
        assert_eq!(encode_byte(b), format!("{b:02X}"));
    }
}

#[test]
fn decode_token_reads_either_case() {
    assert_eq!(decode_token("00"), Some(0));
    assert_eq!(decode_token("1A"), Some(0x1A));
    assert_eq!(decode_token("1a"), Some(0x1A));
    assert_eq!(decode_token("fF"), Some(255));
    assert_eq!(decode_token("7f"), Some(127));
}

#[test]
fn decode_token_rejects_what_is_not_two_hex_digits() {
    assert_eq!(decode_token(""), None);
    assert_eq!(decode_token("F"), None);
    assert_eq!(decode_token("FFF"), None);
    assert_eq!(decode_token("G0"), None);
    assert_eq!(decode_token("0G"), None);
    assert_eq!(decode_token("+F"), None);
    assert_eq!(decode_token(" 1"), None);
    assert_eq!(decode_token("0x"), None);
    assert_eq!(decode_token("\u{e9}1"), None);
    assert_eq!(decode_token("\u{ff11}\u{ff12}"), None);
}

#[test]
fn decode_token_undoes_encode_byte() {
    for b in 0..=255u8 {
        assert_eq!(decode_token(&encode_byte(b)), Some(b));
    }
}

#[test]
fn hex_len_counts_digits() {
    assert_eq!(hex_len(0), 1);
    assert_eq!(hex_len(9), 1);
    assert_eq!(hex_len(15), 1);
    assert_eq!(hex_len(16), 2);
    assert_eq!(hex_len(255), 2);
    assert_eq!(hex_len(256), 3);
    assert_eq!(hex_len(0xFFFF_FFFF), 8);
    assert_eq!(hex_len(usize::MAX), format!("{:X}", usize::MAX).len());
}

#[test]
fn push_hex_appends_digits_without_leading_zeros() {
    let mut s = String::from("n=");
    push_hex(&mut s, 0);
    assert_eq!(s, "n=0");
    push_hex(&mut s, 0x1F);
    assert_eq!(s, "n=01F");
    let mut t = String::new();
    push_hex(&mut t, 0xABCDEF);
    assert_eq!(t, "ABCDEF");
    let mut u = String::new();
    push_hex(&mut u, usize::MAX);
    assert_eq!(u, format!("{:X}", usize::MAX));
}

#[test]
fn push_hex_padded_fills_with_zeros() {
    let mut s = String::new();
    push_hex_padded(&mut s, 0, 8);
    assert_eq!(s, "00000000");
    let mut s = String::from("Cursor: ");
    push_hex_padded(&mut s, 0x1F, 8);
    assert_eq!(s, "Cursor: 0000001F");
    let mut s = String::new();
    push_hex_padded(&mut s, 0x12345678, 8);
    assert_eq!(s, "12345678");
    let mut s = String::new();
    push_hex_padded(&mut s, 0xABC, 2);
    assert_eq!(s, "ABC");
    let mut s = String::new();
    push_hex_padded(&mut s, 0xABC, 0);
    assert_eq!(s, "ABC");
    let mut s = String::new();
    push_hex_padded(&mut s, 5, 1);
    assert_eq!(s, "5");
}

#[test]
fn push_hex_padded_agrees_with_std_formatting() {
    for n in [0usize, 1, 15, 16, 255, 4096, 65535, 0xFFFF_FFFF, usize::MAX] {
        let mut s = String::new();
        push_hex_padded(&mut s, n, 8);
        assert_eq!(s, format!("{:0>8X}", n));
    }
}
