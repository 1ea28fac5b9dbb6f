use liquid_glass::tint::skip_hashes;
use liquid_glass::tint::{channels_can_be_cut, hex_digit_value, parse_channel, parse_hex_pair, parse_hex_rgb};

#[test]
fn reads_a_hash_prefixed_colour() {
    assert_eq!(parse_hex_rgb("#88ccff"), (0x88, 0xcc, 0xff));
    assert_eq!(parse_hex_rgb("#ffd166"), (0xff, 0xd1, 0x66));
}

#[test]
fn default_tint_is_white() {
    assert_eq!(parse_hex_rgb("#ffffff"), (255, 255, 255));
}

#[test]
fn hash_is_optional_and_repeatable() {
    assert_eq!(parse_hex_rgb("88ccff"), (0x88, 0xcc, 0xff));
    assert_eq!(parse_hex_rgb("###88ccff"), (0x88, 0xcc, 0xff));
}

#[test]
fn digits_read_in_either_case() {
    assert_eq!(parse_hex_rgb("#88CCFF"), parse_hex_rgb("#88ccff"));
    assert_eq!(parse_hex_rgb("#AbCdEf"), (0xab, 0xcd, 0xef));
}

#[test]
fn written_colour_reads_back() {
    for &(r, g, b) in &[(0u8, 0u8, 0u8), (1, 2, 3), (16, 255, 171), (200, 15, 99)] {
        let text = format!("#{:02x}{:02x}{:02x}", r, g, b);
        assert_eq!(parse_hex_rgb(&text), (r, g, b));
    }
}

#[test]
fn other_lengths_give_white() {
    assert_eq!(parse_hex_rgb(""), (255, 255, 255));
    assert_eq!(parse_hex_rgb("#"), (255, 255, 255));
    assert_eq!(parse_hex_rgb("#fff"), (255, 255, 255));
    assert_eq!(parse_hex_rgb("#0000000"), (255, 255, 255));
}

#[test]
fn bad_channel_gives_full_intensity() {
    assert_eq!(parse_hex_rgb("#zz0000"), (255, 0, 0));
    assert_eq!(parse_hex_rgb("#00-100"), (0, 255, 0));
    assert_eq!(parse_hex_rgb("#0000 1"), (0, 0, 255));
    assert_eq!(parse_hex_rgb("#00 000"), (0, 255, 0));
}

#[test]
fn plus_sign_before_one_digit() {
    assert_eq!(parse_hex_rgb("#+f+a+0"), (15, 10, 0));
    assert_eq!(parse_hex_pair(b'+', b'+'), None);
    assert_eq!(parse_hex_pair(b'+', b'g'), None);
}

#[test]
fn digit_values() {
    assert_eq!(hex_digit_value(b'0'), Some(0));
    assert_eq!(hex_digit_value(b'9'), Some(9));
    assert_eq!(hex_digit_value(b'a'), Some(10));
    assert_eq!(hex_digit_value(b'F'), Some(15));
    assert_eq!(hex_digit_value(b'g'), None);
    assert_eq!(hex_digit_value(b'#'), None);
}

#[test]
fn pairs_and_channels() {
    assert_eq!(parse_hex_pair(b'f', b'f'), Some(255));
    assert_eq!(parse_hex_pair(b'1', b'0'), Some(16));
    assert_eq!(parse_hex_pair(b'-', b'1'), None);
    assert_eq!(parse_channel(b'x', b'1'), 255);
    assert_eq!(parse_channel(b'0', b'a'), 10);
}

#[test]
fn non_ascii_channels() {
    // "é" takes two bytes, so "é1234" is six bytes long and its cuts fall between characters.
    assert!(channels_can_be_cut("é1234"));
    assert_eq!(parse_hex_rgb("é1234"), (255, 0x12, 0x34));
    // In "aé123" the first cut would fall inside "é".
    assert!(!channels_can_be_cut("aé123"));
    assert!(channels_can_be_cut("#88ccff"));
    assert!(channels_can_be_cut("é"));
}

#[test]
fn leading_hashes_are_skipped() {
    assert_eq!(skip_hashes(b"##ab"), 2);
    assert_eq!(skip_hashes(b"ab#"), 0);
    assert_eq!(skip_hashes(b"###"), 3);
    assert_eq!(skip_hashes(b""), 0);
}
