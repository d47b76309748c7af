use paints::color::solid_color::SolidColor;

#[test]
fn from_hex_parses_plain() {
    assert_eq!(SolidColor::from_hex("ff0000"), Some(SolidColor::rgb(255, 0, 0)));
    assert_eq!(SolidColor::from_hex("00ff7f"), Some(SolidColor::rgb(0, 255, 127)));
    assert_eq!(SolidColor::from_hex("0a141e"), Some(SolidColor::rgb(10, 20, 30)));
}

#[test]
fn from_hex_accepts_hash_prefix() {
    assert_eq!(SolidColor::from_hex("#ff0000"), SolidColor::from_hex("ff0000"));
    assert_eq!(SolidColor::from_hex("#123456"), Some(SolidColor::rgb(0x12, 0x34, 0x56)));
}

#[test]
fn from_hex_accepts_upper_case() {
    assert_eq!(SolidColor::from_hex("AbCdEf"), Some(SolidColor::rgb(0xab, 0xcd, 0xef)));
}

#[test]
fn from_hex_ignores_trailing_characters() {
    assert_eq!(SolidColor::from_hex("112233garbage"), Some(SolidColor::rgb(0x11, 0x22, 0x33)));
}

#[test]
fn from_hex_rejects_short_input() {
    assert_eq!(SolidColor::from_hex(""), None);
    assert_eq!(SolidColor::from_hex("#"), None);
    assert_eq!(SolidColor::from_hex("12345"), None);
    assert_eq!(SolidColor::from_hex("#12345"), None);
}

#[test]
fn from_hex_skips_repeated_hashes() {
    assert_eq!(SolidColor::from_hex("##ff0000"), Some(SolidColor::rgb(255, 0, 0)));
}

#[test]
fn from_hex_rejects_non_hex_digits() {
    assert_eq!(SolidColor::from_hex("12345g"), None);
    assert_eq!(SolidColor::from_hex("zz0000"), None);
    assert_eq!(SolidColor::from_hex("12 456"), None);
}

#[test]
fn from_hex_round_trips_formatted_bytes() {
    for r in [0u8, 1, 9, 16, 127, 128, 200, 255] {
        for g in [0u8, 77, 255] {
            for b in [0u8, 128, 255] {
                let text = format!("{:02x}{:02x}{:02x}", r, g, b);
                assert_eq!(SolidColor::from_hex(&text), Some(SolidColor::rgb(r, g, b)));
                let hash = format!("#{:02x}{:02x}{:02x}", r, g, b);
                assert_eq!(SolidColor::from_hex(&hash), Some(SolidColor::rgb(r, g, b)));
            }
        }
    }
}

#[test]
fn from_color_string_parses_rgb_form() {
    assert_eq!(SolidColor::from_color_string("rgb(10,20,30)"), Some(SolidColor::rgb(10, 20, 30)));
}

#[test]
fn from_color_string_ignores_extra_tokens() {
    assert_eq!(SolidColor::from_color_string("anything(1,2,3,4)"), Some(SolidColor::rgb(1, 2, 3)));
}

#[test]
fn from_color_string_accepts_any_name() {
    assert_eq!(SolidColor::from_color_string("(0,0,255)"), Some(SolidColor::rgb(0, 0, 255)));
    assert_eq!(SolidColor::from_color_string("hsl(200,100,50)"), Some(SolidColor::rgb(200, 100, 50)));
}

#[test]
fn from_color_string_rejects_missing_brackets() {
    assert_eq!(SolidColor::from_color_string("rgb 10,20,30"), None);
    assert_eq!(SolidColor::from_color_string("rgb(10,20,30"), None);
    assert_eq!(SolidColor::from_color_string("rgb)10,20,30("), None);
}

#[test]
fn from_color_string_rejects_bad_tokens() {
    assert_eq!(SolidColor::from_color_string("rgb(10,20)"), None);
    assert_eq!(SolidColor::from_color_string("rgb(10,x,30)"), None);
    assert_eq!(SolidColor::from_color_string("rgb(10, 20, 30)"), None);
    assert_eq!(SolidColor::from_color_string("rgb(256,0,0)"), None);
    assert_eq!(SolidColor::from_color_string("rgb(10,20,)"), None);
    assert_eq!(SolidColor::from_color_string("rgb(-1,0,0)"), None);
}

#[test]
fn from_color_string_accepts_plus_and_leading_zeros() {
    assert_eq!(SolidColor::from_color_string("rgb(+10,020,0030)"), Some(SolidColor::rgb(10, 20, 30)));
}
