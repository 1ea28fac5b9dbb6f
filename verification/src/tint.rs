//! Reading a glass tint written as a hexadecimal colour such as `#88ccff`.

use vstd::prelude::*;
use vstd::string::StringSliceAdditionalSpecFns;

verus! {

/// The byte of the `#` character.
pub const HASH: u8 = 0x23;

/// The byte of the `+` character.
pub const PLUS: u8 = 0x2b;

/// The bytes left once every leading `#` has been removed.
pub open spec fn strip_hashes(bytes: Seq<u8>) -> Seq<u8>
    decreases bytes.len(),
{
    if bytes.len() > 0 && bytes[0] == HASH {
        strip_hashes(bytes.drop_first())
    } else {
        bytes
    }
}

/// The value of one ASCII hexadecimal digit, in either case.
pub open spec fn hex_digit(b: u8) -> Option<u8> {
    if 0x30 <= b <= 0x39 {
        Some((b - 0x30) as u8)
    } else if 0x61 <= b <= 0x66 {
        Some((b - 0x61 + 10) as u8)
    } else if 0x41 <= b <= 0x46 {
        Some((b - 0x41 + 10) as u8)
    } else {
        None
    }
}

/// The number that a two-byte text reads as in base 16, the way `u8::from_str_radix`
/// reads it: two digits, or a `+` sign followed by one digit.
pub open spec fn hex_pair(hi: u8, lo: u8) -> Option<u8> {
    match (hex_digit(hi), hex_digit(lo)) {
        (Some(h), Some(l)) => Some((h * 16 + l) as u8),
        (None, Some(l)) => if hi == PLUS {
            Some(l)
        } else {
            None
        },
        _ => None,
    }
}

/// One colour channel: the two-byte number, or full intensity when it does not parse.
pub open spec fn channel(hi: u8, lo: u8) -> u8 {
    match hex_pair(hi, lo) {
        Some(v) => v,
        None => 255,
    }
}

/// The tint that a text gives: after its leading `#`s, six bytes read as three
/// two-byte channels; any other length gives white.
pub open spec fn spec_parse_hex_rgb(bytes: Seq<u8>) -> (u8, u8, u8) {
    let h = strip_hashes(bytes);
    if h.len() == 6 {
        (channel(h[0], h[1]), channel(h[2], h[3]), channel(h[4], h[5]))
    } else {
        (255, 255, 255)
    }
}

/// A UTF-8 continuation byte: no character starts there.
pub open spec fn is_continuation(b: u8) -> bool {
    0x80 <= b <= 0xbf
}

/// The three two-byte pieces of a six-byte colour fall on character boundaries,
/// so that they can be cut out of the text.
pub open spec fn channels_on_char_boundaries(bytes: Seq<u8>) -> bool {
    let h = strip_hashes(bytes);
    h.len() == 6 ==> !is_continuation(h[2]) && !is_continuation(h[4])
}

/// The value of one hexadecimal digit byte.
pub fn hex_digit_value(b: u8) -> (r: Option<u8>)
    ensures
        r == hex_digit(b),
{
    if 0x30 <= b && b <= 0x39 {
        Some(b - 0x30)
    } else if 0x61 <= b && b <= 0x66 {
        Some(b - 0x61 + 10)
    } else if 0x41 <= b && b <= 0x46 {
        Some(b - 0x41 + 10)
    } else {
        None
    }
}

/// Reads a two-byte base-16 number.
pub fn parse_hex_pair(hi: u8, lo: u8) -> (r: Option<u8>)
    ensures
        r == hex_pair(hi, lo),
{
    match (hex_digit_value(hi), hex_digit_value(lo)) {
        (Some(h), Some(l)) => Some(h * 16 + l),
        (None, Some(l)) => if hi == PLUS {
            Some(l)
        } else {
            None
        },
        _ => None,
    }
}

/// Reads one colour channel, falling back to full intensity.
pub fn parse_channel(hi: u8, lo: u8) -> (r: u8)
    ensures
        r == channel(hi, lo),
{
    match parse_hex_pair(hi, lo) {
        Some(v) => v,
        None => 255,
    }
}

/// Where a text starts once its leading `#`s are skipped.
pub fn skip_hashes(bytes: &[u8]) -> (start: usize)
    ensures
        start <= bytes@.len(),
        bytes@.skip(start as int) == strip_hashes(bytes@),
{
    let mut start: usize = 0;
    assert(bytes@.skip(0) =~= bytes@);
    while start < bytes.len() && bytes[start] == HASH
        invariant
            start <= bytes@.len(),
            strip_hashes(bytes@) == strip_hashes(bytes@.skip(start as int)),
        decreases bytes@.len() - start,
    {
        assert(bytes@.skip(start as int).drop_first() =~= bytes@.skip(start + 1));
        start = start + 1;
    }
    assert(strip_hashes(bytes@.skip(start as int)) == bytes@.skip(start as int));
    start
}

/// Whether the colour channels of `hex` can be cut out of it: false exactly when
/// it is six bytes long after its leading `#`s and one of the cuts between the
/// channels would fall inside a character.
pub fn channels_can_be_cut(hex: &str) -> (ok: bool)
    ensures
        ok == channels_on_char_boundaries(hex.spec_bytes()),
{
    let bytes = hex.as_bytes();
    let start = skip_hashes(bytes);
    let ghost h = bytes@.skip(start as int);
    if bytes.len() - start == 6 {
        let c2 = bytes[start + 2];
        let c4 = bytes[start + 4];
        !(0x80 <= c2 && c2 <= 0xbf) && !(0x80 <= c4 && c4 <= 0xbf)
    } else {
        true
    }
}

/// Reads a tint such as `#88ccff` (leading `#`s are optional and ignored) as its
/// red, green and blue bytes; a text that is not six bytes long after them gives
/// white, and a channel that does not parse gives 255.
pub fn parse_hex_rgb(hex: &str) -> (rgb: (u8, u8, u8))
    requires
        channels_on_char_boundaries(hex.spec_bytes()),
    ensures
        rgb == spec_parse_hex_rgb(hex.spec_bytes()),
{
    let bytes = hex.as_bytes();
    let start = skip_hashes(bytes);
    let ghost h = bytes@.skip(start as int);
    if bytes.len() - start == 6 {
        assert(h[0] == bytes@[start as int]);
        (
            parse_channel(bytes[start], bytes[start + 1]),
            parse_channel(bytes[start + 2], bytes[start + 3]),
            parse_channel(bytes[start + 4], bytes[start + 5]),
        )
    } else {
        (255, 255, 255)
    }
}

/// The lowercase hexadecimal digit byte for a value below 16.
pub open spec fn hex_digit_byte(d: int) -> u8 {
    if d < 10 {
        (0x30 + d) as u8
    } else {
        (0x61 + d - 10) as u8
    }
}

/// A byte written as two lowercase hexadecimal digits.
pub open spec fn hex_byte(v: u8) -> Seq<u8> {
    seq![hex_digit_byte((v / 16) as int), hex_digit_byte((v % 16) as int)]
}

/// A colour written as `#rrggbb`.
pub open spec fn hex_colour(r: u8, g: u8, b: u8) -> Seq<u8> {
    seq![HASH] + hex_byte(r) + hex_byte(g) + hex_byte(b)
}

/// The byte with an ASCII lowercase letter turned to uppercase.
pub open spec fn ascii_upper(b: u8) -> u8 {
    if 0x61 <= b <= 0x7a {
        (b - 32) as u8
    } else {
        b
    }
}

/// A text with every ASCII lowercase letter turned to uppercase.
pub open spec fn upper_all(bytes: Seq<u8>) -> Seq<u8> {
    bytes.map_values(|b: u8| ascii_upper(b))
}

proof fn lemma_digit_byte_reads_back(d: int)
    requires
        0 <= d < 16,
    ensures
        hex_digit(hex_digit_byte(d)) == Some(d as u8),
{
}

proof fn lemma_byte_reads_back(v: u8)
    ensures
        channel(hex_byte(v)[0], hex_byte(v)[1]) == v,
{
    assert(0 <= v / 16 < 16 && 0 <= v % 16 < 16 && (v / 16) * 16 + v % 16 == v) by (nonlinear_arith);
    lemma_digit_byte_reads_back((v / 16) as int);
    lemma_digit_byte_reads_back((v % 16) as int);
}

/// A colour written as `#rrggbb` with lowercase digits reads back as its three bytes.
pub proof fn law_written_colour_reads_back(r: u8, g: u8, b: u8)
    ensures
        spec_parse_hex_rgb(hex_colour(r, g, b)) == (r, g, b),
{
    let s = hex_colour(r, g, b);
    let body = hex_byte(r) + hex_byte(g) + hex_byte(b);
    assert(s.drop_first() =~= body);
    assert(strip_hashes(body) == body);
    assert(strip_hashes(s) == body);
    lemma_byte_reads_back(r);
    lemma_byte_reads_back(g);
    lemma_byte_reads_back(b);
    assert(body[0] == hex_byte(r)[0] && body[1] == hex_byte(r)[1]);
    assert(body[2] == hex_byte(g)[0] && body[3] == hex_byte(g)[1]);
    assert(body[4] == hex_byte(b)[0] && body[5] == hex_byte(b)[1]);
}

/// A `#` in front of a tint changes nothing: any number of leading `#`s is ignored.
pub proof fn law_leading_hash_ignored(bytes: Seq<u8>)
    ensures
        spec_parse_hex_rgb(seq![HASH] + bytes) == spec_parse_hex_rgb(bytes),
{
    assert((seq![HASH] + bytes).drop_first() =~= bytes);
}

proof fn lemma_strip_upper(bytes: Seq<u8>)
    ensures
        strip_hashes(upper_all(bytes)) =~= upper_all(strip_hashes(bytes)),
    decreases bytes.len(),
{
    if bytes.len() > 0 {
        assert(upper_all(bytes)[0] == ascii_upper(bytes[0]));
        if bytes[0] == HASH {
            assert(upper_all(bytes).drop_first() =~= upper_all(bytes.drop_first()));
            lemma_strip_upper(bytes.drop_first());
        }
    }
}

proof fn lemma_channel_upper(hi: u8, lo: u8)
    ensures
        channel(ascii_upper(hi), ascii_upper(lo)) == channel(hi, lo),
{
}

/// Hexadecimal digits read the same in either case: a tint written in uppercase
/// gives the same colour as in lowercase.
pub proof fn law_digit_case_ignored(bytes: Seq<u8>)
    ensures
        spec_parse_hex_rgb(upper_all(bytes)) == spec_parse_hex_rgb(bytes),
{
    lemma_strip_upper(bytes);
    let h = strip_hashes(bytes);
    if h.len() == 6 {
        lemma_channel_upper(h[0], h[1]);
        lemma_channel_upper(h[2], h[3]);
        lemma_channel_upper(h[4], h[5]);
    }
}

} // verus!
