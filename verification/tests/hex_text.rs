use msgpack_cli::hexwrap::{is_whitespace_byte, strip_whitespace, unwrap_hex, write_hex_line};
use msgpack_cli::HexError;

#[test]
fn whitespace_bytes_are_five() {
    let white: Vec<u8> = (0u8..=255).filter(|b| is_whitespace_byte(*b)).collect();
    assert_eq!(white, vec![0x09, 0x0a, 0x0c, 0x0d, 0x20]);
}

#[test]
fn vertical_tab_is_not_whitespace() {
    assert!(!is_whitespace_byte(0x0b));
    assert_eq!(strip_whitespace(b"8\x0b0"), b"8\x0b0".to_vec());
}

#[test]
fn strip_keeps_order_of_the_rest() {
    assert_eq!(strip_whitespace(b" 82\ta1\r\n61 \x0c 01"), b"82a16101".to_vec());
    assert_eq!(strip_whitespace(b""), Vec::<u8>::new());
    assert_eq!(strip_whitespace(b" \n\t"), Vec::<u8>::new());
}

#[test]
fn unwrap_reads_pairs_high_half_first() {
    assert_eq!(unwrap_hex(b"0102030f10"), Ok(vec![1, 2, 3, 15, 16]));
    assert_eq!(unwrap_hex(b"48656c6c6f"), Ok(b"Hello".to_vec()));
    assert_eq!(unwrap_hex(b""), Ok(vec![]));
}

#[test]
fn unwrap_reads_either_case() {
    assert_eq!(unwrap_hex(b"f9b4ca"), Ok(vec![0xf9, 0xb4, 0xca]));
    assert_eq!(unwrap_hex(b"F9B4CA"), Ok(vec![0xf9, 0xb4, 0xca]));
    assert_eq!(unwrap_hex(b"f9B4Ca"), Ok(vec![0xf9, 0xb4, 0xca]));
}

#[test]
fn unwrap_passes_over_whitespace() {
    assert_eq!(unwrap_hex(b" 8 0\n"), Ok(vec![0x80]));
    assert_eq!(unwrap_hex(b"82 a1\t61\r\n01"), Ok(vec![0x82, 0xa1, 0x61, 0x01]));
}

#[test]
fn unwrap_refuses_odd_length() {
    assert_eq!(unwrap_hex(b"123"), Err(HexError::OddLength));
    assert_eq!(unwrap_hex(b"8 0 0"), Err(HexError::OddLength));
}

#[test]
fn odd_length_is_found_before_a_bad_digit() {
    assert_eq!(unwrap_hex(b"zz0"), Err(HexError::OddLength));
}

#[test]
fn unwrap_reports_first_bad_digit() {
    assert_eq!(
        unwrap_hex(b"0g0h"),
        Err(HexError::InvalidHexCharacter { c: 'g', index: 1 })
    );
    assert_eq!(
        unwrap_hex(b"x0"),
        Err(HexError::InvalidHexCharacter { c: 'x', index: 0 })
    );
}

#[test]
fn bad_digit_position_counts_without_whitespace() {
    assert_eq!(
        unwrap_hex(b"  80 zz"),
        Err(HexError::InvalidHexCharacter { c: 'z', index: 2 })
    );
}

#[test]
fn bad_digit_above_ascii_is_its_latin_character() {
    assert_eq!(
        unwrap_hex(&[0x30, 0xe9]),
        Err(HexError::InvalidHexCharacter { c: '\u{e9}', index: 1 })
    );
}

#[test]
fn hex_line_is_lower_case_and_ends_the_line() {
    let mut out = Vec::new();
    write_hex_line(&[1, 2, 3, 15, 16, 0xab, 0xff], &mut out);
    assert_eq!(out, b"0102030f10abff\n".to_vec());
}

#[test]
fn hex_line_is_appended() {
    let mut out = b"x".to_vec();
    write_hex_line(&[], &mut out);
    assert_eq!(out, b"x\n".to_vec());
    write_hex_line(&[0x80], &mut out);
    assert_eq!(out, b"x\n80\n".to_vec());
}

#[test]
fn hex_line_reads_back_for_every_byte() {
    let data: Vec<u8> = (0u8..=255).collect();
    let mut line = Vec::new();
    write_hex_line(&data, &mut line);
    assert_eq!(line.len(), 513);
    assert_eq!(unwrap_hex(&line), Ok(data));
}

#[test]
fn upper_case_line_reads_back_the_same() {
    let data: Vec<u8> = (0u8..=255).collect();
    let mut line = Vec::new();
    write_hex_line(&data, &mut line);
    let upper = line.to_ascii_uppercase();
    assert_ne!(upper, line);
    assert_eq!(unwrap_hex(&upper), Ok(data));
}
