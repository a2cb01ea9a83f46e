use polymarket_hft_bot::tab::Tab;

#[test]
fn next_six_times_returns_to_start() {
    let mut tab = Tab::Dashboard;
    for _ in 0..6 {
        tab = tab.next();
    }
    assert_eq!(tab, Tab::Dashboard);
}

#[test]
fn prev_is_inverse_of_next() {
    for tab in Tab::all() {
        assert_eq!(tab.next().prev(), tab);
        assert_eq!(tab.prev().next(), tab);
    }
}

#[test]
fn titles_are_in_display_order() {
    let titles: Vec<&str> = Tab::all().iter().map(|t| t.title()).collect();
    assert_eq!(
        titles,
        vec!["Dashboard", "Orders", "Markets", "Market Detail", "Logs", "Docs"]
    );
}
