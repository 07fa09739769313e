//! Hexadecimal colour codes: `#RRGGBB` text in both directions.

use vstd::prelude::*;
use vstd::string::StringSliceAdditionalSpecFns;
use vstd::utf8::{encode_utf8, is_ascii_chars, is_ascii_chars_encode_utf8};

verus! {

/// Byte value of `#`.
pub const HASH: u8 = 0x23;

/// Byte value of `+`, which `u8::from_str_radix` accepts as a sign.
pub const PLUS: u8 = 0x2B;

/// The value of one hexadecimal digit (either case), if `b` is one.
pub open spec fn hex_digit_value(b: u8) -> Option<u8> {
    if 0x30 <= b <= 0x39 {
        Some((b - 0x30) as u8)
    } else if 0x41 <= b <= 0x46 {
        Some((b - 0x41 + 10) as u8)
    } else if 0x61 <= b <= 0x66 {
        Some((b - 0x61 + 10) as u8)
    } else {
        None
    }
}

/// What radix-16 parsing of the two-byte text `b0 b1` into a `u8` gives:
/// an optional leading `+` followed by hexadecimal digits.
pub open spec fn pair_value(b0: u8, b1: u8) -> Option<u8> {
    if b0 == PLUS {
        hex_digit_value(b1)
    } else {
        match (hex_digit_value(b0), hex_digit_value(b1)) {
            (Some(hi), Some(lo)) => Some((hi * 16 + lo) as u8),
            _ => None,
        }
    }
}

/// The text with one leading `#` removed, if it has one.
pub open spec fn strip_hash(s: Seq<u8>) -> Seq<u8> {
    if s.len() > 0 && s[0] == HASH {
        s.drop_first()
    } else {
        s
    }
}

/// The colour that the UTF-8 text `s` names: after an optional `#`, exactly
/// six bytes, read as three two-byte hexadecimal values.
pub open spec fn spec_parse_hex(s: Seq<u8>) -> Option<(u8, u8, u8)> {
    let t = strip_hash(s);
    if t.len() != 6 {
        None
    } else {
        match (pair_value(t[0], t[1]), pair_value(t[2], t[3]), pair_value(t[4], t[5])) {
            (Some(r), Some(g), Some(b)) => Some((r, g, b)),
            _ => None,
        }
    }
}

/// The three two-byte pieces of a six-byte code start on character
/// boundaries; otherwise cutting the text into them is not possible.
pub open spec fn pieces_on_char_boundaries(s: Seq<u8>) -> bool {
    let t = strip_hash(s);
    t.len() == 6 ==> !vstd::utf8::is_continuation_byte(t[2])
        && !vstd::utf8::is_continuation_byte(t[4])
}

fn digit_value(b: u8) -> (res: Option<u8>)
    ensures
        res == hex_digit_value(b),
{
    if 0x30 <= b && b <= 0x39 {
        Some(b - 0x30)
    } else if 0x41 <= b && b <= 0x46 {
        Some(b - 0x41 + 10)
    } else if 0x61 <= b && b <= 0x66 {
        Some(b - 0x61 + 10)
    } else {
        None
    }
}

fn parse_pair(b0: u8, b1: u8) -> (res: Option<u8>)
    ensures
        res == pair_value(b0, b1),
{
    if b0 == PLUS {
        digit_value(b1)
    } else {
        match (digit_value(b0), digit_value(b1)) {
            (Some(hi), Some(lo)) => Some(hi * 16 + lo),
            _ => None,
        }
    }
}

/// Parses a colour code such as `#1E90FF` or `1e90ff` into its red, green
/// and blue components.
pub fn parse_hex(hex: &str) -> (res: Option<(u8, u8, u8)>)
    requires
        pieces_on_char_boundaries(hex.spec_bytes()),
    ensures
        res == spec_parse_hex(hex.spec_bytes()),
{
    let bytes = hex.as_bytes();
    let start: usize = if bytes.len() > 0 && bytes[0] == HASH { 1 } else { 0 };
    proof {
        let t = strip_hash(bytes@);
        assert(t =~= bytes@.subrange(start as int, bytes@.len() as int));
    }
    if bytes.len() - start != 6 {
        return None;
    }
    let r = parse_pair(bytes[start], bytes[start + 1]);
    let g = parse_pair(bytes[start + 2], bytes[start + 3]);
    let b = parse_pair(bytes[start + 4], bytes[start + 5]);
    match (r, g, b) {
        (Some(r), Some(g), Some(b)) => Some((r, g, b)),
        _ => None,
    }
}

/// The upper-case hexadecimal digit for a value below 16.
pub open spec fn upper_hex_digit(n: u8) -> char
    recommends
        n < 16,
{
    seq!['0', '1', '2', '3', '4', '5', '6', '7', '8', '9', 'A', 'B', 'C', 'D', 'E', 'F'][n as int]
}

/// The two upper-case hexadecimal digits of a byte, high digit first.
pub open spec fn byte_digits(v: u8) -> Seq<char> {
    seq![upper_hex_digit(v / 16), upper_hex_digit(v % 16)]
}

/// `#RRGGBB`, each component as two upper-case hexadecimal digits.
pub open spec fn spec_hex_code(r: u8, g: u8, b: u8) -> Seq<char> {
    seq!['#'] + byte_digits(r) + byte_digits(g) + byte_digits(b)
}

fn digit_text(n: u8) -> (s: &'static str)
    requires
        n < 16,
    ensures
        s@ == seq![upper_hex_digit(n)],
{
    match n {
        0 => {
            proof { reveal_strlit("0"); }
            "0"
        }
        1 => {
            proof { reveal_strlit("1"); }
            "1"
        }
        2 => {
            proof { reveal_strlit("2"); }
            "2"
        }
        3 => {
            proof { reveal_strlit("3"); }
            "3"
        }
        4 => {
            proof { reveal_strlit("4"); }
            "4"
        }
        5 => {
            proof { reveal_strlit("5"); }
            "5"
        }
        6 => {
            proof { reveal_strlit("6"); }
            "6"
        }
        7 => {
            proof { reveal_strlit("7"); }
            "7"
        }
        8 => {
            proof { reveal_strlit("8"); }
            "8"
        }
        9 => {
            proof { reveal_strlit("9"); }
            "9"
        }
        10 => {
            proof { reveal_strlit("A"); }
            "A"
        }
        11 => {
            proof { reveal_strlit("B"); }
            "B"
        }
        12 => {
            proof { reveal_strlit("C"); }
            "C"
        }
        13 => {
            proof { reveal_strlit("D"); }
            "D"
        }
        14 => {
            proof { reveal_strlit("E"); }
            "E"
        }
        _ => {
            proof { reveal_strlit("F"); }
            "F"
        }
    }
}

fn append_byte(text: &mut String, v: u8)
    ensures
        final(text)@ == old(text)@ + byte_digits(v),
{
    text.append(digit_text(v / 16));
    text.append(digit_text(v % 16));
}

/// Formats a colour as `#RRGGBB` with upper-case digits, the form the picker
/// prints, shows in its label and copies to the clipboard.
pub fn hex_code(r: u8, g: u8, b: u8) -> (res: String)
    ensures
        res@ == spec_hex_code(r, g, b),
{
    proof { reveal_strlit("#"); }
    let mut text = String::from_str("#");
    append_byte(&mut text, r);
    append_byte(&mut text, g);
    append_byte(&mut text, b);
    text
}

/// The caption under the colour code: the nearest colour name after an
/// approximately-equal sign, or an ellipsis while names are not available.
pub open spec fn spec_name_caption(name: Option<Seq<char>>) -> Seq<char> {
    match name {
        Some(n) => seq!['\u{2248}', ' '] + n,
        None => seq!['.', '.', '.'],
    }
}

/// Builds the caption shown under the colour code in the label.
pub fn name_caption(name: Option<&str>) -> (res: String)
    ensures
        res@ == spec_name_caption(match name {
            Some(n) => Some(n@),
            None => None,
        }),
{
    match name {
        Some(n) => {
            proof { reveal_strlit("\u{2248} "); }
            let mut text = String::from_str("\u{2248} ");
            text.append(n);
            text
        },
        None => {
            proof { reveal_strlit("..."); }
            String::from_str("...")
        },
    }
}

proof fn lemma_digit_round_trip(n: u8)
    requires
        n < 16,
    ensures
        '\0' <= upper_hex_digit(n) <= '\u{7f}',
        upper_hex_digit(n) as u8 != PLUS,
        hex_digit_value(upper_hex_digit(n) as u8) == Some(n),
{
    assert(n == 0 || n == 1 || n == 2 || n == 3 || n == 4 || n == 5 || n == 6 || n == 7 || n == 8
        || n == 9 || n == 10 || n == 11 || n == 12 || n == 13 || n == 14 || n == 15);
}

proof fn lemma_byte_round_trip(v: u8)
    ensures
        is_ascii_chars(byte_digits(v)),
        pair_value(byte_digits(v)[0] as u8, byte_digits(v)[1] as u8) == Some(v),
{
    lemma_digit_round_trip(v / 16);
    lemma_digit_round_trip(v % 16);
    assert((v / 16) * 16 + v % 16 == v);
}

/// Reading back a formatted colour code gives the colour it was made from.
pub proof fn lemma_hex_code_round_trip(r: u8, g: u8, b: u8)
    ensures
        spec_parse_hex(encode_utf8(spec_hex_code(r, g, b))) == Some((r, g, b)),
        pieces_on_char_boundaries(encode_utf8(spec_hex_code(r, g, b))),
{
    let code = spec_hex_code(r, g, b);
    lemma_byte_round_trip(r);
    lemma_byte_round_trip(g);
    lemma_byte_round_trip(b);
    assert(code =~= seq!['#', byte_digits(r)[0], byte_digits(r)[1], byte_digits(g)[0],
        byte_digits(g)[1], byte_digits(b)[0], byte_digits(b)[1]]);
    assert(is_ascii_chars(code));
    is_ascii_chars_encode_utf8(code);
    let bytes = encode_utf8(code);
    let t = strip_hash(bytes);
    assert(t =~= bytes.drop_first());
    assert(t[0] == byte_digits(r)[0] as u8);
    assert(t[1] == byte_digits(r)[1] as u8);
    assert(t[2] == byte_digits(g)[0] as u8);
    assert(t[3] == byte_digits(g)[1] as u8);
    assert(t[4] == byte_digits(b)[0] as u8);
    assert(t[5] == byte_digits(b)[1] as u8);
}

/// `c` is one of the digits `0`-`9` or the upper-case letters `A`-`F`.
pub open spec fn is_upper_hex_char(c: char) -> bool {
    (48 <= c as u32 <= 57) || (65 <= c as u32 <= 70)
}

/// The value of an upper-case hexadecimal digit character.
pub open spec fn upper_char_value(c: char) -> int {
    if c as u32 <= 57 { c as u32 - 48 } else { c as u32 - 55 }
}

proof fn lemma_upper_digit_char(n: u8)
    requires
        n < 16,
    ensures
        is_upper_hex_char(upper_hex_digit(n)),
        upper_char_value(upper_hex_digit(n)) == n,
{
    assert(n == 0 || n == 1 || n == 2 || n == 3 || n == 4 || n == 5 || n == 6 || n == 7 || n == 8
        || n == 9 || n == 10 || n == 11 || n == 12 || n == 13 || n == 14 || n == 15);
}

/// A colour code is `#` followed by six upper-case hexadecimal digits, two
/// per component, high digit first: each pair of digits spells its
/// component's value.
pub proof fn lemma_hex_code_digits(r: u8, g: u8, b: u8)
    ensures
        spec_hex_code(r, g, b).len() == 7,
        spec_hex_code(r, g, b)[0] == '#',
        forall|i: int| 1 <= i < 7 ==> is_upper_hex_char(#[trigger] spec_hex_code(r, g, b)[i]),
        upper_char_value(spec_hex_code(r, g, b)[1]) * 16 + upper_char_value(spec_hex_code(r, g, b)[2]) == r,
        upper_char_value(spec_hex_code(r, g, b)[3]) * 16 + upper_char_value(spec_hex_code(r, g, b)[4]) == g,
        upper_char_value(spec_hex_code(r, g, b)[5]) * 16 + upper_char_value(spec_hex_code(r, g, b)[6]) == b,
        spec_hex_code(r, g, b)[1] == upper_hex_digit(r / 16),
        spec_hex_code(r, g, b)[2] == upper_hex_digit(r % 16),
        spec_hex_code(r, g, b)[3] == upper_hex_digit(g / 16),
        spec_hex_code(r, g, b)[4] == upper_hex_digit(g % 16),
        spec_hex_code(r, g, b)[5] == upper_hex_digit(b / 16),
        spec_hex_code(r, g, b)[6] == upper_hex_digit(b % 16),
{
    let code = spec_hex_code(r, g, b);
    lemma_upper_digit_char(r / 16);
    lemma_upper_digit_char(r % 16);
    lemma_upper_digit_char(g / 16);
    lemma_upper_digit_char(g % 16);
    lemma_upper_digit_char(b / 16);
    lemma_upper_digit_char(b % 16);
    assert(code =~= seq![
        '#',
        upper_hex_digit(r / 16),
        upper_hex_digit(r % 16),
        upper_hex_digit(g / 16),
        upper_hex_digit(g % 16),
        upper_hex_digit(b / 16),
        upper_hex_digit(b % 16),
    ]);
    assert((r / 16) * 16 + r % 16 == r);
    assert((g / 16) * 16 + g % 16 == g);
    assert((b / 16) * 16 + b % 16 == b);
}

/// Hexadecimal digits of either case have their value; nothing else is a
/// digit.
pub proof fn lemma_hex_digit_values(b: u8)
    ensures
        48 <= b <= 57 ==> hex_digit_value(b) == Some((b - 48) as u8),
        65 <= b <= 70 ==> hex_digit_value(b) == Some((b - 55) as u8),
        97 <= b <= 102 ==> hex_digit_value(b) == Some((b - 87) as u8),
        !(48 <= b <= 57 || 65 <= b <= 70 || 97 <= b <= 102) ==> hex_digit_value(b) is None,
{
}

/// The byte with ASCII lower-case letters made upper case.
pub open spec fn ascii_upper_byte(b: u8) -> u8 {
    if 97 <= b <= 122 { (b - 32) as u8 } else { b }
}

/// The text with ASCII lower-case letters made upper case.
pub open spec fn ascii_upper(s: Seq<u8>) -> Seq<u8> {
    s.map_values(|b: u8| ascii_upper_byte(b))
}

proof fn lemma_pair_ignores_case(b0: u8, b1: u8)
    ensures
        pair_value(ascii_upper_byte(b0), ascii_upper_byte(b1)) == pair_value(b0, b1),
{
}

/// Reading a colour code does not depend on the case of its letters: a code
/// and its upper-cased form name the same colour.
pub proof fn lemma_parse_hex_ignores_case(s: Seq<u8>)
    ensures
        spec_parse_hex(ascii_upper(s)) == spec_parse_hex(s),
{
    let u = ascii_upper(s);
    assert(u.len() == s.len());
    assert(strip_hash(u) =~= ascii_upper(strip_hash(s)));
    let t = strip_hash(s);
    if t.len() == 6 {
        lemma_pair_ignores_case(t[0], t[1]);
        lemma_pair_ignores_case(t[2], t[3]);
        lemma_pair_ignores_case(t[4], t[5]);
    }
}

} // verus!
