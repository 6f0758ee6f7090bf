use valo::backlight_controller::value_file::{parse_value_text, render_value, IntErrorKind};

fn std_reading(text: &str) -> Result<u64, IntErrorKind> {
    text.trim().parse::<u64>().map_err(|e| match e.kind() {
        std::num::IntErrorKind::Empty => IntErrorKind::Empty,
        std::num::IntErrorKind::InvalidDigit => IntErrorKind::InvalidDigit,
        std::num::IntErrorKind::PosOverflow => IntErrorKind::PosOverflow,
        other => panic!("unexpected kind {:?}", other),
    })
}

#[test]
fn parses_plain_values() {
    assert_eq!(parse_value_text("42"), Ok(42));
    assert_eq!(parse_value_text("0"), Ok(0));
    assert_eq!(parse_value_text("255\n"), Ok(255));
    assert_eq!(parse_value_text("  17  "), Ok(17));
    assert_eq!(parse_value_text("+5"), Ok(5));
    assert_eq!(parse_value_text("007"), Ok(7));
}

#[test]
fn parses_the_largest_value() {
    assert_eq!(parse_value_text("18446744073709551615"), Ok(u64::MAX));
    assert_eq!(parse_value_text("18446744073709551616"), Err(IntErrorKind::PosOverflow));
}

#[test]
fn reports_empty_text() {
    assert_eq!(parse_value_text(""), Err(IntErrorKind::Empty));
    assert_eq!(parse_value_text(" \t\n"), Err(IntErrorKind::Empty));
}

#[test]
fn reports_invalid_digits() {
    assert_eq!(parse_value_text("+"), Err(IntErrorKind::InvalidDigit));
    assert_eq!(parse_value_text("-"), Err(IntErrorKind::InvalidDigit));
    assert_eq!(parse_value_text("-5"), Err(IntErrorKind::InvalidDigit));
    assert_eq!(parse_value_text("12a"), Err(IntErrorKind::InvalidDigit));
    assert_eq!(parse_value_text("1 2"), Err(IntErrorKind::InvalidDigit));
    assert_eq!(parse_value_text("++1"), Err(IntErrorKind::InvalidDigit));
}

#[test]
fn overflow_is_reported_where_it_happens() {
    assert_eq!(parse_value_text("99999999999999999999x"), Err(IntErrorKind::PosOverflow));
    assert_eq!(parse_value_text("9999x99999999999999999"), Err(IntErrorKind::InvalidDigit));
}

#[test]
fn trims_unicode_white_space() {
    assert_eq!(parse_value_text("\u{a0}7\u{3000}"), Ok(7));
    assert_eq!(parse_value_text("\u{2003}\u{85}12\u{205f}"), Ok(12));
    assert_eq!(parse_value_text("\u{200b}12"), Err(IntErrorKind::InvalidDigit));
}

#[test]
fn agrees_with_std_on_many_texts() {
    let texts = [
        "", " ", "0", "1", "+", "-", "+0", "-0", "12", " 12 ", "\n12\n", "1_000", "١٢", "12\u{a0}",
        "\u{1680}3", "0x10", "18446744073709551615", "18446744073709551616", "+18446744073709551615",
        "184467440737095516150", " +7 ", "7 +", "\u{feff}7", "99999999999999999999", "ab",
    ];
    for text in texts.iter() {
        assert_eq!(parse_value_text(text), std_reading(text), "text {:?}", text);
    }
}

#[test]
fn renders_decimal_text() {
    assert_eq!(render_value(0), "0");
    assert_eq!(render_value(7), "7");
    assert_eq!(render_value(255), "255");
    assert_eq!(render_value(1000), "1000");
    assert_eq!(render_value(u64::MAX), "18446744073709551615");
    for v in [1u64, 9, 10, 99, 100, 12345, 4294967296] {
        assert_eq!(render_value(v), format!("{}", v));
    }
}

#[test]
fn rendered_value_reads_back() {
    for v in [0u64, 1, 9, 10, 42, 255, 65535, u64::MAX - 1, u64::MAX] {
        assert_eq!(parse_value_text(&render_value(v)), Ok(v));
    }
}

#[test]
fn white_space_is_what_std_trims() {
    for code in 0u32..0x11_0000 {
        if let Some(c) = char::from_u32(code) {
            let text = format!("{}5{}", c, c);
            assert_eq!(parse_value_text(&text), std_reading(&text), "char {:#x}", code);
        }
    }
}
