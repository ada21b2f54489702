use osrs_prices::ids::parse_item_id;
use osrs_prices::model::{PriceResult, PriceResults};

fn price(high: Option<u32>, low: Option<u32>) -> PriceResult {
    PriceResult { high, low }
}

#[test]
fn plain_decimal_keys_are_ids() {
    assert_eq!(parse_item_id("12934"), Some(12934));
    assert_eq!(parse_item_id("0"), Some(0));
    assert_eq!(parse_item_id("2"), Some(2));
    assert_eq!(parse_item_id("10"), Some(10));
    assert_eq!(parse_item_id("4294967295"), Some(u32::MAX));
}

#[test]
fn keys_too_large_for_an_id_are_refused() {
    assert_eq!(parse_item_id("4294967296"), None);
    assert_eq!(parse_item_id("99999999999"), None);
    assert_eq!(parse_item_id("184467440737095516160000"), None);
}

#[test]
fn keys_that_are_no_plain_decimal_are_refused() {
    assert_eq!(parse_item_id(""), None);
    assert_eq!(parse_item_id("01"), None);
    assert_eq!(parse_item_id("00"), None);
    assert_eq!(parse_item_id("-1"), None);
    assert_eq!(parse_item_id("+1"), None);
    assert_eq!(parse_item_id("1.0"), None);
    assert_eq!(parse_item_id("1e3"), None);
    assert_eq!(parse_item_id(" 1"), None);
    assert_eq!(parse_item_id("1 "), None);
    assert_eq!(parse_item_id("12a"), None);
    assert_eq!(parse_item_id("abc"), None);
    assert_eq!(parse_item_id("١٢"), None);
}

#[test]
fn keyed_prices_become_a_table_by_id() {
    let entries = vec![
        (String::from("2"), price(Some(150), Some(140))),
        (String::from("12934"), price(None, Some(42000))),
    ];
    let table = PriceResults::from_keyed(&entries).expect("both keys spell ids");
    assert_eq!(table.data.len(), 2);
    let scales = table.get(12934).expect("the price of 12934 is there");
    assert_eq!(scales.high, None);
    assert_eq!(scales.low, Some(42000));
    let cannonball = table.get(2).expect("the price of 2 is there");
    assert_eq!(cannonball.high, Some(150));
    assert_eq!(cannonball.low, Some(140));
    assert!(table.get(3).is_none());
}

#[test]
fn keyed_prices_with_a_bad_key_are_refused() {
    let entries = vec![
        (String::from("2"), price(Some(150), Some(140))),
        (String::from("two"), price(Some(1), Some(1))),
        (String::from("3"), price(Some(1), Some(1))),
    ];
    assert!(PriceResults::from_keyed(&entries).is_none());
    let last_bad = vec![(String::from("2"), price(None, None)), (String::from("02"), price(None, None))];
    assert!(PriceResults::from_keyed(&last_bad).is_none());
}

#[test]
fn no_keyed_prices_are_an_empty_table() {
    let table = PriceResults::from_keyed(&[]).expect("nothing can be wrong with no entries");
    assert!(table.data.is_empty());
    assert!(table.get(0).is_none());
}

#[test]
fn later_entry_for_the_same_id_stays() {
    let entries = vec![
        (String::from("7"), price(Some(1), Some(2))),
        (String::from("7"), price(Some(3), None)),
    ];
    let table = PriceResults::from_keyed(&entries).expect("both keys spell ids");
    assert_eq!(table.data.len(), 1);
    let kept = table.get(7).expect("the price of 7 is there");
    assert_eq!(kept.high, Some(3));
    assert_eq!(kept.low, None);
}
