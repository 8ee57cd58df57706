use mythic_editor::decimal::pow10_u64;
use mythic_editor::decimal::Decimal;
use mythic_editor::skill::params::Percentage;
use mythic_editor::skill::params::RangeError;
use mythic_editor::text::Render;

fn dec(x: f32) -> Decimal {
    Decimal::parse(&x.to_string()).unwrap()
}

fn tenths(x: f32) -> Decimal {
    Decimal::parse(&format!("{:.1}", x)).unwrap()
}

#[test]
fn decimal_text_of_integers() {
    assert_eq!(Decimal::new(false, 0, 0).render(), "0");
    assert_eq!(Decimal::new(true, 0, 0).render(), "-0");
    assert_eq!(Decimal::new(false, 5, 0).render(), "5");
    assert_eq!(Decimal::new(false, 5, 3).render(), "5000");
    assert_eq!(Decimal::new(true, 12, 1).render(), "-120");
    assert_eq!(Decimal::new(false, 0, 4).render(), "0");
    assert_eq!(Decimal::new(false, u64::MAX, 0).render(), "18446744073709551615");
}

#[test]
fn decimal_text_of_fractions() {
    assert_eq!(Decimal::new(false, 5, -1).render(), "0.5");
    assert_eq!(Decimal::new(false, 15, -1).render(), "1.5");
    assert_eq!(Decimal::new(true, 125, -2).render(), "-1.25");
    assert_eq!(Decimal::new(false, 1, -3).render(), "0.001");
    assert_eq!(Decimal::new(false, 0, -2).render(), "0.00");
    assert_eq!(Decimal::new(false, 50, -2).render(), "0.50");
    assert_eq!(Decimal::new(false, 123456, -3).render(), "123.456");
    assert_eq!(Decimal::new(false, 1, -45).render(), format!("0.{}1", "0".repeat(44)));
}

#[test]
fn decimal_text_matches_float_text() {
    let samples: [f32; 16] = [
        0.0, -0.0, 0.5, 1.0, 1.5, -2.25, 5.0, 100.0, 0.1, 0.001, 123.456, 1e-7, 16777216.0, 3.4e38,
        1e-45, -0.35,
    ];
    for x in samples {
        assert_eq!(dec(x).render(), x.to_string());
    }
    let wide: [f64; 4] = [0.1, 1e300, 2.5e-300, -123456789.125];
    for x in wide {
        let text = x.to_string();
        match Decimal::parse(&text) {
            Some(d) => assert_eq!(d.render(), text),
            None => assert!(text.len() > 19),
        }
    }
}

#[test]
fn decimal_zero_and_default() {
    assert_eq!(Decimal::zero(), Decimal::new(false, 0, 0));
    assert_eq!(Decimal::default(), Decimal::zero());
    assert_eq!(Decimal::zero().render(), "0");
}

#[test]
fn powers_of_ten() {
    assert_eq!(pow10_u64(0), 1);
    assert_eq!(pow10_u64(1), 10);
    assert_eq!(pow10_u64(7), 10_000_000);
    assert_eq!(pow10_u64(19), 10_000_000_000_000_000_000);
}

#[test]
fn tenths_of_integers_get_a_zero() {
    assert_eq!(Decimal::new(false, 3, 0).render_tenths(), "3.0");
    assert_eq!(Decimal::new(false, 0, 0).render_tenths(), "0.0");
    assert_eq!(Decimal::new(true, 0, 0).render_tenths(), "-0.0");
    assert_eq!(Decimal::new(false, 45, 1).render_tenths(), "450.0");
}

#[test]
fn tenths_are_kept() {
    assert_eq!(Decimal::new(false, 5, -1).render_tenths(), "0.5");
    assert_eq!(Decimal::new(true, 1234, -1).render_tenths(), "-123.4");
    assert_eq!(Decimal::new(false, 0, -1).render_tenths(), "0.0");
}

#[test]
fn tenths_round_half_to_even() {
    assert_eq!(Decimal::new(false, 25, -2).render_tenths(), "0.2");
    assert_eq!(Decimal::new(false, 35, -2).render_tenths(), "0.4");
    assert_eq!(Decimal::new(false, 5, -2).render_tenths(), "0.0");
    assert_eq!(Decimal::new(false, 15, -2).render_tenths(), "0.2");
    assert_eq!(Decimal::new(false, 251, -3).render_tenths(), "0.3");
    assert_eq!(Decimal::new(false, 249, -3).render_tenths(), "0.2");
    assert_eq!(Decimal::new(false, 996, -2).render_tenths(), "10.0");
    assert_eq!(Decimal::new(true, 4, -2).render_tenths(), "-0.0");
    assert_eq!(Decimal::new(false, 1, -30).render_tenths(), "0.0");
    assert_eq!(Decimal::new(false, u64::MAX, -25).render_tenths(), "0.0");
    assert_eq!(Decimal::new(false, u64::MAX, -20).render_tenths(), "0.2");
    assert_eq!(Decimal::new(false, 5, -21).render_tenths(), "0.0");
}

#[test]
fn tenths_match_float_text() {
    let samples: [f32; 12] =
        [0.0, 1.0, 0.25, 0.75, 0.35, 2.5, -0.04, 90.0, 45.55, 179.99, -33.333, 1e10];
    for x in samples {
        assert_eq!(tenths(x).render_tenths(), format!("{:.1}", x));
    }
}

#[test]
fn parse_reads_numerals() {
    assert_eq!(Decimal::parse("0"), Some(Decimal::new(false, 0, 0)));
    assert_eq!(Decimal::parse("-0"), Some(Decimal::new(true, 0, 0)));
    assert_eq!(Decimal::parse("7"), Some(Decimal::new(false, 7, 0)));
    assert_eq!(Decimal::parse("1500"), Some(Decimal::new(false, 15, 2)));
    assert_eq!(Decimal::parse("0.5"), Some(Decimal::new(false, 5, -1)));
    assert_eq!(Decimal::parse("-12.50"), Some(Decimal::new(true, 1250, -2)));
    assert_eq!(Decimal::parse("0.0"), Some(Decimal::new(false, 0, -1)));
    assert_eq!(Decimal::parse("18446744073709551615"), Some(Decimal::new(false, u64::MAX, 0)));
    assert_eq!(
        Decimal::parse("340282350000000000000000000000000000000"),
        Some(Decimal::new(false, 34028235, 31))
    );
}

#[test]
fn parse_rejects_what_is_no_numeral() {
    for text in [
        "", "-", ".", "1.", ".5", "1.2.3", "01", "00", "-01.5", "1e5", "inf", "NaN", "+1", " 1",
        "1 ", "1,5", "--1", "0x10", "١",
    ] {
        assert_eq!(Decimal::parse(text), None, "{:?}", text);
    }
}

#[test]
fn parse_rejects_what_does_not_fit() {
    assert_eq!(Decimal::parse("18446744073709551616"), None);
    assert_eq!(Decimal::parse("1.8446744073709551616"), None);
    assert_eq!(Decimal::parse("99999999999999999999.5"), None);
    assert!(Decimal::parse("184467440737095516150").is_some());
}

#[test]
fn parse_then_render_gives_the_numeral_back() {
    for text in ["0", "-0", "12", "1200", "0.5", "0.50", "-3.25", "100.001", "0.000"] {
        assert_eq!(Decimal::parse(text).unwrap().render(), text);
    }
}

#[test]
fn render_then_parse_gives_the_number_back() {
    for d in [
        Decimal::new(false, 0, 0),
        Decimal::new(true, 0, 0),
        Decimal::new(false, 7, 0),
        Decimal::new(false, 7, 5),
        Decimal::new(true, 123, 40),
        Decimal::new(false, 5, -1),
        Decimal::new(false, 50, -2),
        Decimal::new(false, 0, -3),
        Decimal::new(true, 1200, -1),
        Decimal::new(false, u64::MAX, -70),
        Decimal::new(false, u64::MAX, 0),
    ] {
        assert_eq!(Decimal::parse(&d.render()), Some(d));
    }
    assert_eq!(Decimal::parse(&Decimal::new(false, 70, 0).render()), Some(Decimal::new(false, 7, 1)));
    assert_eq!(Decimal::parse(&Decimal::new(false, 0, 3).render()), Some(Decimal::zero()));
}

#[test]
fn unit_interval() {
    assert!(Decimal::new(false, 0, 0).is_in_unit_interval());
    assert!(Decimal::new(true, 0, 0).is_in_unit_interval());
    assert!(Decimal::new(false, 0, 7).is_in_unit_interval());
    assert!(Decimal::new(false, 1, 0).is_in_unit_interval());
    assert!(Decimal::new(false, 10, -1).is_in_unit_interval());
    assert!(Decimal::new(false, 5, -1).is_in_unit_interval());
    assert!(Decimal::new(false, 999, -3).is_in_unit_interval());
    assert!(Decimal::new(false, u64::MAX, -20).is_in_unit_interval());
    assert!(Decimal::new(false, u64::MAX, -40).is_in_unit_interval());
    assert!(!Decimal::new(false, 11, -1).is_in_unit_interval());
    assert!(!Decimal::new(false, 15, -1).is_in_unit_interval());
    assert!(!Decimal::new(false, 2, 0).is_in_unit_interval());
    assert!(!Decimal::new(false, 1, 1).is_in_unit_interval());
    assert!(!Decimal::new(true, 5, -1).is_in_unit_interval());
    assert!(!Decimal::new(true, 1, -30).is_in_unit_interval());
    assert!(!Decimal::new(false, u64::MAX, -19).is_in_unit_interval());
}

#[test]
fn percentage_bounds() {
    let rejected = Percentage::new(dec(1.5));
    assert_eq!(rejected, Err(RangeError { value: Decimal::new(false, 15, -1) }));
    let error: RangeError = rejected.unwrap_err();
    assert_eq!(error.message(), "Percentage must be between 0.0 and 1.0");
    let half = Percentage::new(dec(0.5)).unwrap();
    assert_eq!(half.render(), "0.5");
    assert_eq!(half.get(), Decimal::new(false, 5, -1));
}

#[test]
fn percentage_edges() {
    assert_eq!(Percentage::new(dec(0.0)).unwrap().render(), "0");
    assert_eq!(Percentage::new(dec(1.0)).unwrap().render(), "1");
    assert_eq!(Percentage::new(dec(-0.0)).unwrap().render(), "-0");
    assert_eq!(Percentage::new(dec(-0.1)), Err(RangeError { value: dec(-0.1) }));
    assert_eq!(Percentage::new(dec(1.0000001)), Err(RangeError { value: dec(1.0000001) }));
    assert_eq!(Percentage::new(dec(2.0)), Err(RangeError { value: dec(2.0) }));
    assert_eq!(Percentage::default().render(), "0");
    assert_eq!(Percentage::default().get(), Decimal::zero());
}
