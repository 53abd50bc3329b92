use investment_os::routes::display::{asset_symbol, format_brl_text, format_quantity_text};

#[test]
fn currency_groups_thousands() {
    assert_eq!(format_brl_text("1234567.89", false), "R$ 1.234.567,89");
    assert_eq!(format_brl_text("123456.00", false), "R$ 123.456,00");
    assert_eq!(format_brl_text("1000.50", false), "R$ 1.000,50");
    assert_eq!(format_brl_text("999.99", false), "R$ 999,99");
    assert_eq!(format_brl_text("0.00", false), "R$ 0,00");
    assert_eq!(format_brl_text("3500.00", true), "-R$ 3.500,00");
    assert_eq!(format_brl_text("12", false), "R$ 12,00");
}

#[test]
fn currency_of_rendered_values() {
    for (value, text) in [(350000.0f64, "R$ 350.000,00"), (-0.5, "-R$ 0,50"), (1234.567, "R$ 1.234,57")] {
        let fixed = format!("{:.2}", value.abs());
        assert_eq!(format_brl_text(&fixed, value < 0.0), text);
    }
}

#[test]
fn quantities_drop_trailing_zeros() {
    assert_eq!(format_quantity_text("3.5000"), "3,5");
    assert_eq!(format_quantity_text("0.0100"), "0,01");
    assert_eq!(format_quantity_text("10.0000"), "10");
    assert_eq!(format_quantity_text("2.1234"), "2,1234");
}

#[test]
fn symbols_are_two_upper_case_characters() {
    assert_eq!(asset_symbol("bitcoin"), "BI");
    assert_eq!(asset_symbol("éter"), "ÉT");
    assert_eq!(asset_symbol("x"), "X");
    assert_eq!(asset_symbol(""), "");
    assert_eq!(asset_symbol("ßx"), "SSX");
}

#[test]
fn grouping_keeps_every_digit() {
    for digits in ["1", "12", "123", "1234", "12345", "123456", "1234567", "98765432109"] {
        let text = format_brl_text(&format!("{digits}.00"), false);
        let integer = text.trim_start_matches("R$ ").split(',').next().unwrap().to_string();
        assert_eq!(integer.replace('.', ""), digits);
        assert!(integer.split('.').all(|group| !group.is_empty() && group.len() <= 3));
    }
}

#[test]
fn quantity_text_uses_a_comma() {
    for fixed in ["0.5000", "1.2500", "12.0000", "1234.5678"] {
        assert!(!format_quantity_text(fixed).contains('.'), "{fixed}");
    }
}
