use osrs_prices::display::{display_price, render_price, report_lines};
use osrs_prices::model::{ItemMapping, PriceResult, PriceResults};

fn digits(text: &str) -> String {
    text.chars().filter(|c| c.is_ascii_digit()).collect()
}

#[test]
fn line_holds_name_and_both_prices() {
    let line = render_price("Cannonball", Some(String::from("150")), Some(String::from("1,234")));
    assert_eq!(line, "Cannonball -> high: 150, low: 1,234");
}

#[test]
fn absent_prices_render_as_not_available() {
    assert_eq!(
        render_price("Zulrah's scales", None, Some(String::from("42,000"))),
        "Zulrah's scales -> high: N/A, low: 42,000"
    );
    assert_eq!(render_price("Scales", Some(String::from("7")), None), "Scales -> high: 7, low: N/A");
    assert_eq!(render_price("", None, None), " -> high: N/A, low: N/A");
}

#[test]
fn absent_high_price_is_shown_as_not_available() {
    let price = PriceResult { high: None, low: Some(42000) };
    if let Some(line) = display_price("Zulrah's scales", &price) {
        let rest = line
            .strip_prefix("Zulrah's scales -> high: N/A, low: ")
            .expect("the absent high price shows as N/A");
        assert_eq!(digits(rest), "42000");
    }
}

#[test]
fn absent_prices_never_show_as_zero() {
    let price = PriceResult { high: None, low: None };
    if let Some(line) = display_price("Scales", &price) {
        assert_eq!(line, "Scales -> high: N/A, low: N/A");
    }
}

#[test]
fn present_prices_show_their_digits() {
    let price = PriceResult { high: Some(1234567), low: Some(0) };
    if let Some(line) = display_price("Twisted bow", &price) {
        let rest = line.strip_prefix("Twisted bow -> high: ").expect("the line starts with the name");
        let (high, low) = rest.split_once(", low: ").expect("the low price follows the high one");
        assert_eq!(digits(high), "1234567");
        assert_eq!(low, "0");
    }
}

#[test]
fn report_joins_matches_with_prices() {
    let mappings = vec![
        ItemMapping { id: 1, name: String::from("Twisted bow") },
        ItemMapping { id: 2, name: String::from("Cannonball") },
        ItemMapping { id: 3, name: String::from("Twisted buckler") },
        ItemMapping { id: 4, name: String::from("TWISTED horns") },
    ];
    let entries = vec![
        (String::from("1"), PriceResult { high: None, low: None }),
        (String::from("2"), PriceResult { high: None, low: None }),
        (String::from("4"), PriceResult { high: None, low: None }),
        (String::from("9"), PriceResult { high: None, low: None }),
    ];
    let prices = PriceResults::from_keyed(&entries).expect("the keys spell ids");
    if let Some(lines) = report_lines("twisted", &mappings, &prices) {
        assert_eq!(
            lines,
            vec![
                String::from("Twisted bow -> high: N/A, low: N/A"),
                String::from("TWISTED horns -> high: N/A, low: N/A"),
            ]
        );
    }
}

#[test]
fn report_without_priced_matches_is_empty() {
    let mappings = vec![ItemMapping { id: 1, name: String::from("Twisted bow") }];
    let prices = PriceResults::from_keyed(&[]).expect("nothing can be wrong with no entries");
    assert_eq!(report_lines("twisted", &mappings, &prices), Some(Vec::new()));
    let entries = vec![(String::from("1"), PriceResult { high: Some(1), low: Some(1) })];
    let prices = PriceResults::from_keyed(&entries).expect("the key spells an id");
    assert_eq!(report_lines("cannonball", &mappings, &prices), Some(Vec::new()));
}

#[test]
fn line_in_a_given_locale_groups_digits_as_the_locale_does() {
    if let Ok(locale) = num_format::SystemLocale::default() {
        let price = PriceResult { high: None, low: Some(7) };
        assert_eq!(
            osrs_prices::display::display_price_in("Scales", &price, &locale),
            "Scales -> high: N/A, low: 7"
        );
    }
}

#[test]
fn no_locale_gives_no_line() {
    let price = PriceResult { high: Some(1), low: Some(2) };
    assert_eq!(osrs_prices::display::display_price_with("Scales", &price, None), None);
    let both_absent = PriceResult { high: None, low: None };
    assert_eq!(osrs_prices::display::display_price_with("Scales", &both_absent, None), None);
}

#[test]
fn a_locale_always_gives_a_line() {
    if let Ok(locale) = num_format::SystemLocale::default() {
        let price = PriceResult { high: None, low: None };
        assert_eq!(
            osrs_prices::display::display_price_with("Scales", &price, Some(locale)),
            Some(String::from("Scales -> high: N/A, low: N/A"))
        );
    }
}
