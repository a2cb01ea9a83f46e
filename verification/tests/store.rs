use polymarket_hft_bot::markets::MarketInfo;
use polymarket_hft_bot::store::{market_from_parts, market_from_row, row_from_parts, watched_row};

fn market() -> MarketInfo {
    MarketInfo {
        id: "0x1".to_string(),
        question: "Will it \"rain\"?".to_string(),
        active: false,
        order_book_enabled: false,
        volume: "12.5".to_string(),
        outcomes: vec!["Yes".to_string(), "No \"maybe\"".to_string()],
        prices: vec![0.25f64.to_bits(), 0.75f64.to_bits()],
    }
}

#[test]
fn row_holds_outcomes_as_json_list() {
    let row = watched_row(&market(), "[0.25,0.75]".to_string()).unwrap();
    assert_eq!(row.id, "0x1");
    assert_eq!(row.question, "Will it \"rain\"?");
    assert_eq!(row.volume, "12.5");
    assert_eq!(row.outcomes, r#"["Yes","No \"maybe\""]"#);
    assert_eq!(row.prices, "[0.25,0.75]");
    assert!(row.joined_at > 1_600_000_000);
}

#[test]
fn row_from_parts_hands_failure_on() {
    let r = row_from_parts(&market(), Err("bad".to_string()), "[]".to_string(), 7);
    assert_eq!(r.unwrap_err(), "bad");
    let r = row_from_parts(&market(), Ok("[]".to_string()), "[1.0]".to_string(), 7).unwrap();
    assert_eq!(r.outcomes, "[]");
    assert_eq!(r.joined_at, 7);
}

#[test]
fn stored_market_is_active_with_order_book() {
    let m = market_from_row(
        "0x1".to_string(),
        "Q?".to_string(),
        "3".to_string(),
        r#"["Up", "Down"]"#,
        vec![1, 2],
    );
    assert_eq!(m.id, "0x1");
    assert_eq!(m.question, "Q?");
    assert_eq!(m.volume, "3");
    assert!(m.active);
    assert!(m.order_book_enabled);
    assert_eq!(m.outcomes, vec!["Up", "Down"]);
    assert_eq!(m.prices, vec![1, 2]);
}

#[test]
fn unreadable_outcomes_count_as_none() {
    for text in ["", "not json", "[1, 2]", r#"{"a": 1}"#, r#"["open"#] {
        let m = market_from_row("i".to_string(), "q".to_string(), "v".to_string(), text, vec![]);
        assert!(m.outcomes.is_empty(), "on {:?}", text);
    }
    let m = market_from_parts("i".to_string(), "q".to_string(), "v".to_string(), Err("e".to_string()), vec![9]);
    assert!(m.outcomes.is_empty());
    assert_eq!(m.prices, vec![9]);
}

#[test]
fn row_and_market_round_trip() {
    let first = market();
    let row = watched_row(&first, "[]".to_string()).unwrap();
    let back = market_from_row(row.id, row.question, row.volume, &row.outcomes, first.prices.clone());
    assert_eq!(back.id, first.id);
    assert_eq!(back.question, first.question);
    assert_eq!(back.volume, first.volume);
    assert_eq!(back.outcomes, first.outcomes);
    assert_eq!(back.prices, first.prices);
}
