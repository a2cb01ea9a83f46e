use polymarket_hft_bot::markets::{
    search_results, with_order_book, GammaMarket, MarketInfo, PublicSearchMarket,
};
use polymarket_hft_bot::watchlist::{find_by_id, Watchlist};

fn gamma(id: &str, condition_id: &str, active: bool, closed: bool) -> GammaMarket {
    GammaMarket {
        id: id.to_string(),
        question: "Q?".to_string(),
        description: "d".to_string(),
        active,
        closed,
        enable_order_book: true,
        condition_id: condition_id.to_string(),
        question_id: "q".to_string(),
        volume: "10".to_string(),
        liquidity: "5".to_string(),
        start_date: None,
        end_date: Some("2030".to_string()),
        outcomes: vec!["Yes".to_string(), "No".to_string()],
        outcome_prices: vec!["0.5".to_string(), "0.5".to_string()],
    }
}

fn found(id: &str, closed: bool, book: bool) -> PublicSearchMarket {
    PublicSearchMarket {
        id: id.to_string(),
        question: format!("{}?", id),
        volume: None,
        closed,
        enable_order_book: book,
    }
}

fn info(id: &str, book: bool) -> MarketInfo {
    MarketInfo {
        id: id.to_string(),
        question: format!("{}?", id),
        active: true,
        order_book_enabled: book,
        volume: "0".to_string(),
        outcomes: vec![],
        prices: vec![],
    }
}

#[test]
fn listed_market_is_identified_by_condition_id() {
    let m = MarketInfo::from_gamma(gamma("1", "0xc", true, false), vec![1, 2]);
    assert_eq!(m.id, "0xc");
    assert!(m.active);
    assert!(m.order_book_enabled);
    assert_eq!(m.volume, "10");
    assert_eq!(m.outcomes, vec!["Yes", "No"]);
    assert_eq!(m.prices, vec![1, 2]);
    let m = MarketInfo::from_gamma(gamma("1", "", true, false), vec![]);
    assert_eq!(m.id, "1");
}

#[test]
fn listed_market_is_active_when_active_and_open() {
    assert!(MarketInfo::from_gamma(gamma("1", "", true, false), vec![]).active);
    assert!(!MarketInfo::from_gamma(gamma("1", "", true, true), vec![]).active);
    assert!(!MarketInfo::from_gamma(gamma("1", "", false, false), vec![]).active);
}

#[test]
fn found_market_has_volume_zero_where_none_is_reported() {
    let m = MarketInfo::from_search(found("a", false, true));
    assert_eq!(m.id, "a");
    assert_eq!(m.question, "a?");
    assert!(m.active);
    assert!(m.order_book_enabled);
    assert_eq!(m.volume, "0");
    assert!(m.outcomes.is_empty());
    assert!(m.prices.is_empty());
    let mut with_volume = found("b", true, false);
    with_volume.volume = Some("7".to_string());
    let m: MarketInfo = with_volume.into();
    assert_eq!(m.volume, "7");
    assert!(!m.active);
    assert!(!m.order_book_enabled);
}

#[test]
fn search_shows_tradable_markets_only() {
    let list = vec![found("a", false, true), found("b", true, true), found("c", false, false), found("d", false, true)];
    let shown = search_results(&list);
    let ids: Vec<&str> = shown.iter().map(|m| m.id.as_str()).collect();
    assert_eq!(ids, vec!["a", "d"]);
}

#[test]
fn search_shows_at_most_twenty_markets() {
    let list: Vec<PublicSearchMarket> = (0..30).map(|n| found(&format!("m{}", n), n % 5 == 0, true)).collect();
    let shown = search_results(&list);
    assert_eq!(shown.len(), 20);
    let expected: Vec<String> = (0..30).filter(|n| n % 5 != 0).take(20).map(|n| format!("m{}", n)).collect();
    let ids: Vec<String> = shown.iter().map(|m| m.id.clone()).collect();
    assert_eq!(ids, expected);
}

#[test]
fn markets_without_order_book_are_dropped() {
    let kept = with_order_book(vec![info("a", true), info("b", false), info("c", true)]);
    let ids: Vec<&str> = kept.iter().map(|m| m.id.as_str()).collect();
    assert_eq!(ids, vec!["a", "c"]);
    assert!(with_order_book(vec![]).is_empty());
}

#[test]
fn placeholder_is_made_of_the_id() {
    let m = MarketInfo::placeholder("xyz");
    assert_eq!(m.id, "xyz");
    assert_eq!(m.question, "xyz");
    assert_eq!(m.volume, "0");
}

#[test]
fn cloned_market_holds_the_same() {
    let mut m = info("a", true);
    m.outcomes = vec!["Yes".to_string()];
    m.prices = vec![42];
    let c = m.clone();
    assert_eq!(c.id, m.id);
    assert_eq!(c.question, m.question);
    assert_eq!(c.outcomes, m.outcomes);
    assert_eq!(c.prices, m.prices);
    assert_eq!(c.order_book_enabled, m.order_book_enabled);
}

#[test]
fn watchlist_inserts_each_id_once() {
    let mut list = Watchlist::new();
    assert!(list.is_empty());
    assert!(list.insert(info("a", true)));
    assert!(list.insert(info("b", true)));
    assert!(!list.insert(info("a", false)));
    assert_eq!(list.len(), 2);
    assert!(list.get(0).unwrap().order_book_enabled);
    assert_eq!(list.position("b"), Some(1));
    assert_eq!(list.position("c"), None);
    assert!(list.contains("a"));
    assert!(list.get(2).is_none());
}

#[test]
fn watchlist_removes_by_id() {
    let mut list = Watchlist::from_markets(&vec![info("a", true), info("b", true), info("c", true)]);
    assert!(!list.remove("x"));
    assert_eq!(list.len(), 3);
    assert!(list.remove("b"));
    let ids: Vec<&str> = list.markets().iter().map(|m| m.id.as_str()).collect();
    assert_eq!(ids, vec!["a", "c"]);
    assert!(!list.remove("b"));
}

#[test]
fn watchlist_from_markets_keeps_first_of_each_id() {
    let list = Watchlist::from_markets(&vec![info("a", true), info("b", true), info("a", false), info("b", false), info("c", true)]);
    assert_eq!(list.len(), 3);
    assert!(list.get(0).unwrap().order_book_enabled);
    assert!(list.get(1).unwrap().order_book_enabled);
    assert_eq!(list.get(2).unwrap().id, "c");
}

#[test]
fn find_by_id_gives_first_position() {
    let list = vec![info("a", true), info("b", true), info("b", false)];
    assert_eq!(find_by_id(&list, "b"), Some(1));
    assert_eq!(find_by_id(&list, "z"), None);
    assert_eq!(find_by_id(&vec![], "a"), None);
}
