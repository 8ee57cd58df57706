use mythic_editor::names::is_space;
use mythic_editor::names::join_words;
use mythic_editor::text::digit_str;
use mythic_editor::text::render_concat;
use mythic_editor::text::render_quoted_list;
use mythic_editor::text::render_signed;
use mythic_editor::text::render_unsigned;
use mythic_editor::text::write_decimal;
use mythic_editor::text::write_value;
use mythic_editor::text::write_zeros;
use mythic_editor::text::Render;

#[test]
fn integers_render_as_decimal_numerals() {
    assert_eq!(0u8.render(), "0");
    assert_eq!(255u8.render(), "255");
    assert_eq!(65535u16.render(), "65535");
    assert_eq!(4294967295u32.render(), "4294967295");
    assert_eq!(u64::MAX.render(), "18446744073709551615");
    assert_eq!(10usize.render(), "10");
    assert_eq!(100u32.render(), "100");
    assert_eq!((-128i8).render(), "-128");
    assert_eq!(127i8.render(), "127");
    assert_eq!(0i32.render(), "0");
    assert_eq!(i32::MIN.render(), "-2147483648");
    assert_eq!(i32::MAX.render(), "2147483647");
    assert_eq!((-7i32).render(), "-7");
}

#[test]
fn integer_helpers() {
    assert_eq!(render_unsigned(0), "0");
    assert_eq!(render_unsigned(1090), "1090");
    assert_eq!(render_signed(i64::MIN), "-9223372036854775808");
    assert_eq!(render_signed(i64::MAX), "9223372036854775807");
    assert_eq!(render_signed(-10), "-10");
    for d in 0..10u8 {
        assert_eq!(digit_str(d), d.to_string());
    }
    let mut out = String::from("n=");
    write_decimal(&mut out, 407);
    write_zeros(&mut out, 3);
    write_zeros(&mut out, 0);
    assert_eq!(out, "n=407000");
}

#[test]
fn integers_render_as_std_does() {
    for n in [0u64, 1, 9, 10, 11, 99, 100, 12345, 1 << 40, u64::MAX] {
        assert_eq!(render_unsigned(n), n.to_string());
    }
    for i in [0i64, -1, 1, -9, -10, 42, -1234567, i64::MIN, i64::MAX] {
        assert_eq!(render_signed(i), i.to_string());
    }
}

#[test]
fn booleans_and_strings() {
    assert_eq!(true.render(), "true");
    assert_eq!(false.render(), "false");
    assert_eq!(String::from("stone").render(), "stone");
    assert_eq!(String::new().render(), "");
    let mut out = String::from("a=");
    write_value(&mut out, &true);
    write_value(&mut out, &String::from(";"));
    write_value(&mut out, &12u32);
    assert_eq!(out, "a=true;12");
}

#[test]
fn lists() {
    let none: Vec<String> = Vec::new();
    let one = vec![String::from("hello")];
    let two = vec![String::from("hello"), String::from("you there")];
    assert_eq!(render_concat(&none), "");
    assert_eq!(render_concat(&one), "hello");
    assert_eq!(render_concat(&two), "helloyou there");
    assert_eq!(render_quoted_list(&none), "");
    assert_eq!(render_quoted_list(&one), "\"hello\"");
    assert_eq!(render_quoted_list(&two), "\"hello\",\"you there\"");
    let three = vec![String::from("a"), String::new(), String::from("c")];
    assert_eq!(render_quoted_list(&three), "\"a\",\"\",\"c\"");
}

#[test]
fn words_are_joined_by_underscores() {
    assert_eq!(join_words(""), "");
    assert_eq!(join_words(" a b "), "a_b");
    assert_eq!(join_words("Boss Mob"), "Boss_Mob");
    assert_eq!(join_words("a   b"), "a_b");
    assert_eq!(join_words("a \t\n b"), "a_b");
    assert_eq!(join_words("   "), "");
    assert_eq!(join_words("one"), "one");
    assert_eq!(join_words("\u{3000}wide\u{a0}space\u{2003}"), "wide_space");
    assert_eq!(join_words("a_b c"), "a_b_c");
    assert_eq!(join_words("x\ny"), "x_y");
    assert_eq!(join_words("é ü"), "é_ü");
}

#[test]
fn white_space_is_what_std_calls_white_space() {
    for code in 0..0x3100u32 {
        if let Some(c) = char::from_u32(code) {
            assert_eq!(is_space(c), c.is_whitespace(), "{:x}", code);
        }
    }
    assert!(!is_space('_'));
    assert!(!is_space('\u{200b}'));
    assert!(!is_space('\u{10ffff}'));
}

#[test]
fn joined_words_hold_no_white_space() {
    for text in [" a b ", "\t\tx  y\r\nz ", "  ", "no-space", " \u{2028} p \u{205f} q "] {
        let joined = join_words(text);
        assert!(!joined.chars().any(|c| c.is_whitespace()), "{:?}", joined);
        assert_eq!(join_words(&joined), joined);
    }
}
