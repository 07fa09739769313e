use colorful_picker::hex::{hex_code, name_caption, parse_hex};

#[test]
fn parses_code_with_hash() {
    assert_eq!(parse_hex("#1E90FF"), Some((30, 144, 255)));
}

#[test]
fn parses_lower_case_without_hash() {
    assert_eq!(parse_hex("1e90ff"), Some((30, 144, 255)));
    assert_eq!(parse_hex("a0b1c2"), Some((0xa0, 0xb1, 0xc2)));
}

#[test]
fn accepts_plus_signed_pairs_like_from_str_radix() {
    assert_eq!(parse_hex("+1+2+f"), Some((1, 2, 15)));
    assert_eq!(parse_hex("#+a0000"), Some((10, 0, 0)));
}

#[test]
fn rejects_wrong_lengths() {
    assert_eq!(parse_hex(""), None);
    assert_eq!(parse_hex("#"), None);
    assert_eq!(parse_hex("#12345"), None);
    assert_eq!(parse_hex("#1234567"), None);
    assert_eq!(parse_hex("##123456"), None);
}

#[test]
fn rejects_non_hex_digits() {
    assert_eq!(parse_hex("12345g"), None);
    assert_eq!(parse_hex("-11111"), None);
    assert_eq!(parse_hex("++1111"), None);
    assert_eq!(parse_hex("1+1111"), None);
    assert_eq!(parse_hex("\u{e9}\u{e9}\u{e9}"), None);
}

#[test]
fn formats_upper_case_code() {
    assert_eq!(hex_code(30, 144, 255), "#1E90FF");
    assert_eq!(hex_code(0, 0, 0), "#000000");
    assert_eq!(hex_code(255, 255, 255), "#FFFFFF");
    assert_eq!(hex_code(0xab, 0x0c, 0x9d), "#AB0C9D");
}

#[test]
fn formatted_code_reads_back() {
    for (r, g, b) in [(0u8, 0u8, 0u8), (1, 2, 3), (16, 127, 128), (200, 10, 255), (255, 255, 255)] {
        assert_eq!(parse_hex(&hex_code(r, g, b)), Some((r, g, b)));
    }
}

#[test]
fn caption_shows_name_or_ellipsis() {
    assert_eq!(name_caption(Some("Dodger Blue")), "\u{2248} Dodger Blue");
    assert_eq!(name_caption(None), "...");
}
