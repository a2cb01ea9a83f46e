use polymarket_hft_bot::keys::{KeyCode, KeyEvent, KeyEventKind};
use polymarket_hft_bot::logs::LogLevel;
use polymarket_hft_bot::markets::MarketInfo;
use polymarket_hft_bot::state::{
    Action, App, InputMode, LeaveSelection, NextStep, Outcome, QuitSelection,
};
use polymarket_hft_bot::tab::Tab;

fn key(code: KeyCode) -> KeyEvent {
    KeyEvent { code, control: false, kind: KeyEventKind::Press }
}

fn ch(c: char) -> KeyEvent {
    key(KeyCode::Char(c))
}

fn market(id: &str, question: &str) -> MarketInfo {
    MarketInfo {
        id: id.to_string(),
        question: question.to_string(),
        active: true,
        order_book_enabled: true,
        volume: "1000".to_string(),
        outcomes: vec!["Yes".to_string(), "No".to_string()],
        prices: vec![0.4f64.to_bits(), 0.6f64.to_bits()],
    }
}

fn type_line(app: &mut App, line: &str) -> Action {
    assert!(matches!(app.handle_event(ch(':')), Action::Nothing));
    for c in line.chars() {
        assert!(matches!(app.handle_event(ch(c)), Action::Nothing));
    }
    app.handle_event(key(KeyCode::Enter))
}

fn with_found(app: &mut App, list: Vec<MarketInfo>) {
    let action = app.search_markets("any");
    app.complete(action, Outcome::Markets(Ok(list)));
}

fn join(app: &mut App, reference: &str) {
    let action = app.join_market(reference);
    assert!(matches!(action, Action::Join { .. }));
    app.complete(action, Outcome::Stored(Ok(())));
}

fn last_line(app: &App) -> (LogLevel, String) {
    let e = app.logs.get(app.logs.len() - 1).unwrap();
    (e.level, e.message.clone())
}

fn messages(app: &App) -> Vec<String> {
    app.logs.entries().iter().map(|e| e.message.clone()).collect()
}

#[test]
fn new_dashboard_starts_on_first_tab_in_normal_mode() {
    let app = App::new(5);
    assert_eq!(app.current_tab, Tab::Dashboard);
    assert!(matches!(app.input_mode, InputMode::Normal));
    assert!(!app.should_quit);
    assert!(!app.is_paused);
    assert!(!app.is_loading_markets);
    assert_eq!(app.last_refresh, 5);
    assert_eq!(app.watchlist.len(), 0);
    assert!(app.available_markets.is_empty());
    assert_eq!(
        messages(&app),
        vec![
            "TUI initialized successfully",
            "Press ':' to enter command mode",
            "Press 'S' to search markets",
            "Loading watched markets...",
        ]
    );
}

#[test]
fn quit_key_opens_dialog_with_no_selected() {
    for c in ['q', 'Q'] {
        let mut app = App::new(0);
        assert!(matches!(app.handle_event(ch(c)), Action::Nothing));
        assert!(matches!(app.input_mode, InputMode::QuitConfirmation(QuitSelection::No)));
        assert!(!app.should_quit);
    }
}

#[test]
fn quit_after_toggle_and_enter() {
    for toggle in [KeyCode::Left, KeyCode::Right, KeyCode::Tab, KeyCode::BackTab] {
        let mut app = App::new(0);
        app.handle_event(ch('q'));
        app.handle_event(key(toggle));
        assert!(matches!(app.input_mode, InputMode::QuitConfirmation(QuitSelection::Yes)));
        app.handle_event(key(KeyCode::Enter));
        assert!(app.should_quit);
        assert!(matches!(app.input_mode, InputMode::Normal));
    }
}

#[test]
fn escape_from_quit_dialog_does_not_quit() {
    let mut app = App::new(0);
    app.handle_event(ch('q'));
    app.handle_event(key(KeyCode::Left));
    app.handle_event(key(KeyCode::Esc));
    assert!(matches!(app.input_mode, InputMode::Normal));
    assert!(!app.should_quit);
}

#[test]
fn enter_in_quit_dialog_without_toggle_does_not_quit() {
    let mut app = App::new(0);
    app.handle_event(ch('q'));
    app.handle_event(key(KeyCode::Enter));
    assert!(matches!(app.input_mode, InputMode::Normal));
    assert!(!app.should_quit);
}

#[test]
fn toggling_twice_selects_no_again() {
    let mut app = App::new(0);
    app.handle_event(ch('q'));
    app.handle_event(key(KeyCode::Tab));
    app.handle_event(key(KeyCode::Tab));
    assert!(matches!(app.input_mode, InputMode::QuitConfirmation(QuitSelection::No)));
    app.handle_event(ch('x'));
    assert!(matches!(app.input_mode, InputMode::QuitConfirmation(QuitSelection::No)));
}

#[test]
fn control_c_quits_at_once() {
    let mut app = App::new(0);
    app.handle_event(ch('c'));
    assert!(!app.should_quit);
    app.handle_event(KeyEvent { code: KeyCode::Char('c'), control: true, kind: KeyEventKind::Press });
    assert!(app.should_quit);
}

#[test]
fn tab_keys_cycle_through_all_tabs() {
    let mut app = App::new(0);
    let mut seen = Vec::new();
    for _ in 0..5 {
        app.handle_event(key(KeyCode::Tab));
        seen.push(app.current_tab);
    }
    assert_eq!(seen, vec![Tab::Orders, Tab::Markets, Tab::MarketDetail, Tab::Logs, Tab::Docs]);
    // On the documentation tab the right arrow goes on to the first tab.
    app.handle_event(key(KeyCode::Right));
    assert_eq!(app.current_tab, Tab::Dashboard);
    app.handle_event(key(KeyCode::Left));
    assert_eq!(app.current_tab, Tab::Docs);
    app.handle_event(key(KeyCode::Left));
    assert_eq!(app.current_tab, Tab::Logs);
    app.handle_event(key(KeyCode::BackTab));
    assert_eq!(app.current_tab, Tab::MarketDetail);
}

#[test]
fn digits_select_tabs_directly() {
    let mut app = App::new(0);
    let expected = [Tab::Dashboard, Tab::Orders, Tab::Markets, Tab::MarketDetail, Tab::Logs, Tab::Docs];
    for (i, c) in ['1', '2', '3', '4', '5', '6'].iter().enumerate() {
        app.current_tab = Tab::Orders;
        app.handle_event(ch(*c));
        assert_eq!(app.current_tab, expected[i]);
    }
    app.handle_event(ch('2'));
    assert_eq!(app.current_tab, Tab::Orders);
    app.handle_event(ch('7'));
    assert_eq!(app.current_tab, Tab::Orders);
}

#[test]
fn command_line_is_edited_and_dropped() {
    let mut app = App::new(0);
    app.handle_event(ch('/'));
    assert!(matches!(&app.input_mode, InputMode::Command(l) if l.is_empty()));
    app.handle_event(ch('h'));
    app.handle_event(ch('x'));
    app.handle_event(key(KeyCode::Backspace));
    assert!(matches!(&app.input_mode, InputMode::Command(l) if l == "h"));
    app.handle_event(key(KeyCode::Up));
    assert!(matches!(&app.input_mode, InputMode::Command(l) if l == "h"));
    let before = app.logs.len();
    app.handle_event(key(KeyCode::Esc));
    assert!(matches!(app.input_mode, InputMode::Normal));
    assert_eq!(app.logs.len(), before);
}

#[test]
fn backspace_on_empty_command_line_keeps_it_open() {
    let mut app = App::new(0);
    app.handle_event(ch(':'));
    app.handle_event(ch('a'));
    app.handle_event(key(KeyCode::Backspace));
    app.handle_event(key(KeyCode::Backspace));
    assert!(matches!(&app.input_mode, InputMode::Command(l) if l.is_empty()));
}

#[test]
fn keys_typed_in_command_mode_do_not_navigate() {
    let mut app = App::new(0);
    app.handle_event(ch(':'));
    app.handle_event(ch('q'));
    app.handle_event(ch('3'));
    assert_eq!(app.current_tab, Tab::Dashboard);
    assert!(matches!(&app.input_mode, InputMode::Command(l) if l == "q3"));
}

#[test]
fn quick_search_opens_command_line_on_markets_tab() {
    let mut app = App::new(0);
    app.handle_event(ch('S'));
    assert_eq!(app.current_tab, Tab::Markets);
    assert!(matches!(&app.input_mode, InputMode::Command(l) if l == "/search "));
}

#[test]
fn search_command_asks_for_fifty_markets() {
    let mut app = App::new(0);
    let action = type_line(&mut app, "search us election");
    assert!(matches!(&action, Action::Search { keyword, limit } if keyword == "us election" && *limit == 50));
    assert!(matches!(app.input_mode, InputMode::Normal));
    assert!(app.is_loading_markets);
    assert_eq!(app.current_tab, Tab::Markets);
    assert_eq!(app.market_search_query, "us election");
    assert_eq!(last_line(&app), (LogLevel::Info, "Searching markets: 'us election'...".to_string()));
}

#[test]
fn search_success_replaces_found_markets() {
    let mut app = App::new(0);
    with_found(&mut app, vec![market("a", "A?"), market("b", "B?"), market("c", "C?")]);
    app.current_tab = Tab::Markets;
    app.handle_event(key(KeyCode::Down));
    assert_eq!(app.selected_market_index, 1);
    let action = app.search_markets("x");
    app.complete(action, Outcome::Markets(Ok(vec![market("d", "D?")])));
    assert!(!app.is_loading_markets);
    assert_eq!(app.available_markets.len(), 1);
    assert_eq!(app.available_markets[0].id, "d");
    assert_eq!(app.selected_market_index, 0);
    assert_eq!(last_line(&app), (LogLevel::Success, "Found 1 markets".to_string()));
}

#[test]
fn search_failure_keeps_found_markets() {
    let mut app = App::new(0);
    with_found(&mut app, vec![market("a", "A?"), market("b", "B?")]);
    let action = app.search_markets("x");
    assert!(app.is_loading_markets);
    app.complete(action, Outcome::Markets(Err("timeout".to_string())));
    assert!(!app.is_loading_markets);
    assert_eq!(app.available_markets.len(), 2);
    assert_eq!(last_line(&app), (LogLevel::Error, "Search failed: timeout".to_string()));
}

#[test]
fn trending_key_asks_for_twenty_markets() {
    let mut app = App::new(0);
    let action = app.handle_event(ch('t'));
    assert!(matches!(action, Action::LoadTrending { limit: 20 }));
    assert!(app.is_loading_markets);
    assert_eq!(app.market_search_query, "Trending");
    assert_eq!(app.current_tab, Tab::Markets);
    app.complete(action, Outcome::Markets(Ok(vec![market("a", "A?"), market("b", "B?")])));
    assert!(!app.is_loading_markets);
    assert_eq!(last_line(&app), (LogLevel::Success, "Loaded 2 trending markets".to_string()));
    let action = app.load_trending_markets();
    app.complete(action, Outcome::Markets(Err("down".to_string())));
    assert_eq!(last_line(&app), (LogLevel::Error, "Failed to load trending: down".to_string()));
    assert_eq!(app.available_markets.len(), 2);
}

#[test]
fn join_by_number_stores_then_appends() {
    let mut app = App::new(0);
    with_found(&mut app, vec![market("a", "A?"), market("b", "B?")]);
    let before = app.logs.len();
    let action = app.join_market("2");
    assert!(matches!(&action, Action::Join { market } if market.id == "b"));
    assert_eq!(app.watchlist.len(), 0);
    assert_eq!(app.logs.len(), before);
    app.complete(action, Outcome::Stored(Ok(())));
    assert_eq!(app.watchlist.len(), 1);
    assert_eq!(app.watchlist.get(0).unwrap().question, "B?");
    assert_eq!(app.logs.len(), before + 1);
    assert_eq!(last_line(&app), (LogLevel::Success, "Joined market: B? (ID: b)".to_string()));
}

#[test]
fn join_by_number_out_of_range_warns() {
    let mut app = App::new(0);
    with_found(&mut app, vec![market("a", "A?"), market("b", "B?")]);
    for (reference, text) in [("0", "Invalid index: 0. Use 1-2"), ("3", "Invalid index: 3. Use 1-2")] {
        let action = app.join_market(reference);
        assert!(matches!(action, Action::Nothing));
        assert_eq!(last_line(&app), (LogLevel::Warning, text.to_string()));
        assert_eq!(app.watchlist.len(), 0);
    }
}

#[test]
fn numeric_reference_is_never_taken_as_id() {
    let mut app = App::new(0);
    with_found(&mut app, vec![market("7", "Seven?")]);
    let action = app.join_market("7");
    assert!(matches!(action, Action::Nothing));
    assert_eq!(last_line(&app).1, "Invalid index: 7. Use 1-1");
}

#[test]
fn join_by_id_takes_found_market() {
    let mut app = App::new(0);
    with_found(&mut app, vec![market("a", "A?"), market("b", "B?")]);
    let action = app.join_market("b");
    assert!(matches!(&action, Action::Join { market } if market.question == "B?"));
    app.complete(action, Outcome::Stored(Ok(())));
    assert_eq!(app.watchlist.len(), 1);
    assert_eq!(last_line(&app), (LogLevel::Success, "Joined market: B? (ID: b)".to_string()));
}

#[test]
fn join_by_unknown_id_makes_placeholder() {
    let mut app = App::new(0);
    let action = app.join_market("0xabc");
    match &action {
        Action::Join { market } => {
            assert_eq!(market.id, "0xabc");
            assert_eq!(market.question, "0xabc");
            assert!(market.active);
            assert!(market.order_book_enabled);
            assert_eq!(market.volume, "0");
            assert!(market.outcomes.is_empty());
            assert!(market.prices.is_empty());
        }
        other => panic!("unexpected {:?}", other),
    }
    app.complete(action, Outcome::Stored(Ok(())));
    assert_eq!(app.watchlist.len(), 1);
    assert!(app.watchlist.contains("0xabc"));
    assert_eq!(
        last_line(&app),
        (LogLevel::Success, "Joined market: 0xabc (ID: 0xabc)".to_string())
    );
}

#[test]
fn joining_twice_warns_once_and_changes_nothing() {
    let mut app = App::new(0);
    with_found(&mut app, vec![market("a", "A?")]);
    join(&mut app, "1");
    let before = app.logs.len();
    for reference in ["1", "a"] {
        let size = app.logs.len();
        let action = app.join_market(reference);
        assert!(matches!(action, Action::Nothing));
        assert_eq!(app.logs.len(), size + 1);
        assert_eq!(last_line(&app), (LogLevel::Warning, "Already monitoring this market".to_string()));
        assert_eq!(app.watchlist.len(), 1);
    }
    assert_eq!(app.logs.len(), before + 2);
}

#[test]
fn watchlist_never_holds_an_id_twice() {
    let mut app = App::new(0);
    with_found(&mut app, vec![market("a", "A?"), market("b", "B?"), market("a", "A again?")]);
    for reference in ["1", "2", "3", "a", "b", "1", "c", "c"] {
        let action = app.join_market(reference);
        app.complete(action, Outcome::Stored(Ok(())));
    }
    // A store that answers for a market which is there already cannot add it again.
    app.complete(
        Action::Join { market: market("a", "A?") },
        Outcome::Stored(Ok(())),
    );
    let ids: Vec<String> = app.watchlist.markets().iter().map(|m| m.id.clone()).collect();
    assert_eq!(ids, vec!["a", "b", "c"]);
}

#[test]
fn failed_store_leaves_watchlist() {
    let mut app = App::new(0);
    let action = app.join_market("x");
    app.complete(action, Outcome::Stored(Err("disk full".to_string())));
    assert_eq!(app.watchlist.len(), 0);
    assert_eq!(last_line(&app), (LogLevel::Error, "Failed to save market: disk full".to_string()));
}

#[test]
fn leave_of_unwatched_market_warns() {
    let mut app = App::new(0);
    join(&mut app, "x");
    let before = app.logs.len();
    let action = app.leave_market("y");
    assert!(matches!(action, Action::Nothing));
    assert_eq!(app.watchlist.len(), 1);
    assert_eq!(app.logs.len(), before + 1);
    assert_eq!(last_line(&app), (LogLevel::Warning, "Not monitoring market: y".to_string()));
}

#[test]
fn leave_of_watched_market_removes_it_once_stored() {
    let mut app = App::new(0);
    join(&mut app, "x");
    join(&mut app, "y");
    let before = app.logs.len();
    let action = app.leave_market("x");
    assert!(matches!(&action, Action::Leave { id, selected: false } if id == "x"));
    assert_eq!(app.watchlist.len(), 2);
    assert_eq!(app.logs.len(), before);
    app.complete(action, Outcome::Stored(Ok(())));
    assert_eq!(app.watchlist.len(), 1);
    assert!(!app.watchlist.contains("x"));
    assert!(app.watchlist.contains("y"));
    assert_eq!(last_line(&app), (LogLevel::Info, "Left market: x".to_string()));
}

#[test]
fn failed_removal_keeps_market() {
    let mut app = App::new(0);
    join(&mut app, "x");
    let action = app.leave_market("x");
    app.complete(action, Outcome::Stored(Err("locked".to_string())));
    assert_eq!(app.watchlist.len(), 1);
    assert_eq!(last_line(&app), (LogLevel::Error, "Failed to remove from DB: locked".to_string()));
}

#[test]
fn leave_dialog_opens_only_on_detail_tab_with_markets() {
    let mut app = App::new(0);
    app.current_tab = Tab::MarketDetail;
    app.handle_event(key(KeyCode::Delete));
    assert!(matches!(app.input_mode, InputMode::Normal));
    join(&mut app, "x");
    app.current_tab = Tab::Markets;
    app.handle_event(key(KeyCode::Delete));
    assert!(matches!(app.input_mode, InputMode::Normal));
    app.current_tab = Tab::MarketDetail;
    app.handle_event(key(KeyCode::Backspace));
    assert!(matches!(app.input_mode, InputMode::LeaveMarketConfirmation(LeaveSelection::No)));
}

#[test]
fn leave_dialog_needs_toggle_before_enter() {
    let mut app = App::new(0);
    join(&mut app, "x");
    app.current_tab = Tab::MarketDetail;
    app.handle_event(key(KeyCode::Delete));
    let action = app.handle_event(key(KeyCode::Enter));
    assert!(matches!(action, Action::Nothing));
    assert!(matches!(app.input_mode, InputMode::Normal));
    assert_eq!(app.watchlist.len(), 1);
    app.handle_event(key(KeyCode::Delete));
    app.handle_event(key(KeyCode::Right));
    app.handle_event(key(KeyCode::Esc));
    assert!(matches!(app.input_mode, InputMode::Normal));
    assert_eq!(app.watchlist.len(), 1);
}

#[test]
fn leave_of_selected_market_pulls_selection_back() {
    let mut app = App::new(0);
    for id in ["x", "y", "z"] {
        join(&mut app, id);
    }
    app.current_tab = Tab::MarketDetail;
    app.handle_event(key(KeyCode::Down));
    app.handle_event(key(KeyCode::Down));
    app.handle_event(key(KeyCode::Down));
    assert_eq!(app.selected_watched_market_index, 2);
    app.handle_event(key(KeyCode::Delete));
    app.handle_event(key(KeyCode::Left));
    let action = app.handle_event(key(KeyCode::Enter));
    assert!(matches!(&action, Action::Leave { id, selected: true } if id == "z"));
    assert!(matches!(app.input_mode, InputMode::Normal));
    app.complete(action, Outcome::Stored(Ok(())));
    assert_eq!(app.watchlist.len(), 2);
    assert_eq!(app.selected_watched_market_index, 1);
}

#[test]
fn leave_by_command_keeps_selection() {
    let mut app = App::new(0);
    for id in ["x", "y", "z"] {
        join(&mut app, id);
    }
    app.selected_watched_market_index = 2;
    let action = type_line(&mut app, "leave z");
    app.complete(action, Outcome::Stored(Ok(())));
    assert_eq!(app.watchlist.len(), 2);
    assert_eq!(app.selected_watched_market_index, 2);
}

#[test]
fn list_selection_stops_at_both_ends() {
    let mut app = App::new(0);
    with_found(&mut app, vec![market("a", "A?"), market("b", "B?"), market("c", "C?")]);
    app.current_tab = Tab::Markets;
    app.handle_event(key(KeyCode::Up));
    assert_eq!(app.selected_market_index, 0);
    for expected in [1, 2, 2, 2] {
        app.handle_event(ch('j'));
        assert_eq!(app.selected_market_index, expected);
    }
    for expected in [1, 0, 0] {
        app.handle_event(ch('k'));
        assert_eq!(app.selected_market_index, expected);
    }
    app.current_tab = Tab::Orders;
    app.handle_event(key(KeyCode::Down));
    assert_eq!(app.selected_market_index, 0);
    assert_eq!(app.selected_watched_market_index, 0);
}

#[test]
fn selection_in_empty_list_does_not_move() {
    let mut app = App::new(0);
    app.current_tab = Tab::Markets;
    app.handle_event(key(KeyCode::Down));
    assert_eq!(app.selected_market_index, 0);
    app.current_tab = Tab::MarketDetail;
    app.handle_event(key(KeyCode::Down));
    assert_eq!(app.selected_watched_market_index, 0);
}

#[test]
fn enter_on_markets_tab_joins_selected_market() {
    let mut app = App::new(0);
    with_found(&mut app, vec![market("a", "A?"), market("b", "B?")]);
    app.current_tab = Tab::Markets;
    app.handle_event(key(KeyCode::Down));
    let action = app.handle_event(key(KeyCode::Enter));
    assert!(matches!(&action, Action::Join { market } if market.id == "b"));
    app.current_tab = Tab::Dashboard;
    assert!(matches!(app.handle_event(key(KeyCode::Enter)), Action::Nothing));
}

#[test]
fn pause_resume_and_panic_keys() {
    let mut app = App::new(0);
    assert!(matches!(app.handle_event(ch('p')), Action::Pause));
    assert!(app.is_paused);
    assert_eq!(last_line(&app), (LogLevel::Warning, "Bot PAUSED - trading disabled".to_string()));
    assert!(matches!(app.handle_event(ch('R')), Action::Resume));
    assert!(!app.is_paused);
    assert_eq!(last_line(&app), (LogLevel::Success, "Bot RESUMED - trading enabled".to_string()));
    let action = app.handle_event(ch('!'));
    assert!(matches!(action, Action::CancelAll));
    assert_eq!(last_line(&app), (LogLevel::Error, "🚨 PANIC MODE ACTIVATED".to_string()));
    assert!(!app.is_paused);
    app.complete(action, Outcome::Cancelled(Ok(3)));
    assert!(app.is_paused);
    let all = messages(&app);
    assert_eq!(all[all.len() - 2], "Cancelled 3 orders");
    assert_eq!(all[all.len() - 1], "Bot is now PAUSED");
    app.is_paused = false;
    app.complete(Action::CancelAll, Outcome::Cancelled(Err("no link".to_string())));
    assert!(app.is_paused);
    assert_eq!(last_line(&app), (LogLevel::Error, "Panic error: no link".to_string()));
}

#[test]
fn help_key_and_help_command_list_their_lines() {
    let mut app = App::new(0);
    let before = app.logs.len();
    app.handle_event(ch('h'));
    assert_eq!(app.logs.len(), before + 11);
    assert_eq!(app.logs.get(before).unwrap().message, "─── Keyboard Shortcuts ───");
    assert_eq!(last_line(&app), (LogLevel::Info, "Q        : Quit".to_string()));
    let before = app.logs.len();
    type_line(&mut app, "help");
    assert_eq!(app.logs.len(), before + 6);
    assert_eq!(app.logs.get(before).unwrap().message, "─── Available Commands ───");
    assert_eq!(last_line(&app).1, "/help              - Show this help");
}

#[test]
fn export_key_logs_notice() {
    let mut app = App::new(0);
    app.handle_event(ch('E'));
    assert_eq!(last_line(&app), (LogLevel::Info, "Export feature coming soon...".to_string()));
}

#[test]
fn commands_without_arguments_log_usage() {
    let mut app = App::new(0);
    for (line, usage) in [
        ("search", "Usage: /search <keyword>"),
        ("join", "Usage: /joinmarket <market_id or index>"),
        ("leave", "Usage: /leavemarket <market_id>"),
    ] {
        let action = type_line(&mut app, line);
        assert!(matches!(action, Action::Nothing));
        assert_eq!(last_line(&app), (LogLevel::Warning, usage.to_string()));
    }
}

#[test]
fn unknown_command_logs_warning_and_hint() {
    let mut app = App::new(0);
    let before = app.logs.len();
    let action = type_line(&mut app, "Frobnicate now");
    assert!(matches!(action, Action::Nothing));
    assert_eq!(app.logs.len(), before + 2);
    let all = app.logs.entries();
    assert_eq!(all[before].level, LogLevel::Warning);
    assert_eq!(all[before].message, "Unknown command: frobnicate");
    assert_eq!(all[before + 1].level, LogLevel::Info);
    assert_eq!(all[before + 1].message, "Type /help for available commands");
    assert!(matches!(app.input_mode, InputMode::Normal));
}

#[test]
fn empty_command_does_nothing() {
    let mut app = App::new(0);
    let before = app.logs.len();
    let action = type_line(&mut app, "   ");
    assert!(matches!(action, Action::Nothing));
    assert_eq!(app.logs.len(), before);
    assert!(matches!(app.input_mode, InputMode::Normal));
}

#[test]
fn docs_tab_moves_between_sections_and_scrolls() {
    let mut app = App::new(0);
    app.current_tab = Tab::Docs;
    app.handle_event(key(KeyCode::Up));
    assert_eq!(app.docs_selected_section, 0);
    for expected in [1, 2, 3, 4, 4] {
        app.handle_event(key(KeyCode::Down));
        assert_eq!(app.docs_selected_section, expected);
    }
    app.handle_event(ch('k'));
    assert_eq!(app.docs_selected_section, 3);
    app.handle_event(key(KeyCode::Enter));
    assert!(app.docs_viewing_content);
    assert_eq!(app.docs_scroll_offset, 0);
    // Section 3 has 35 lines and scrolls 25 of them.
    for _ in 0..40 {
        app.handle_event(ch('j'));
    }
    assert_eq!(app.docs_scroll_offset, 25);
    assert_eq!(app.docs_selected_section, 3);
    app.handle_event(key(KeyCode::Up));
    assert_eq!(app.docs_scroll_offset, 24);
    // While a section is read the arrow keys do not change the tab.
    app.handle_event(key(KeyCode::Right));
    assert_eq!(app.current_tab, Tab::Docs);
    app.handle_event(key(KeyCode::Left));
    assert_eq!(app.current_tab, Tab::Docs);
    assert!(!app.docs_viewing_content);
    assert_eq!(app.docs_scroll_offset, 0);
    app.handle_event(key(KeyCode::Esc));
    assert_eq!(app.current_tab, Tab::Logs);
}

#[test]
fn docs_tab_ignores_other_keys() {
    let mut app = App::new(0);
    app.current_tab = Tab::Docs;
    let before = app.logs.len();
    for c in [':', '/', 's', 't', 'p', 'r', '!', 'e', 'h'] {
        assert!(matches!(app.handle_event(ch(c)), Action::Nothing));
    }
    app.handle_event(key(KeyCode::BackTab));
    app.handle_event(key(KeyCode::Delete));
    assert_eq!(app.current_tab, Tab::Docs);
    assert!(matches!(app.input_mode, InputMode::Normal));
    assert_eq!(app.logs.len(), before);
    assert!(!app.is_paused);
    app.handle_event(ch('Q'));
    assert!(matches!(app.input_mode, InputMode::QuitConfirmation(QuitSelection::No)));
}

#[test]
fn refresh_is_due_every_half_second() {
    let mut app = App::new(1000);
    assert!(!app.refresh_due(1000));
    assert!(!app.refresh_due(1499));
    assert_eq!(app.last_refresh, 1000);
    assert!(app.refresh_due(1500));
    assert_eq!(app.last_refresh, 1500);
    assert!(!app.refresh_due(1999));
    assert!(!app.refresh_due(0));
    assert!(app.refresh_due(u64::MAX));
}

#[test]
fn refresh_takes_over_engine_state() {
    let mut app = App::new(0);
    app.refresh_data(true, Some("order_1".to_string()));
    assert!(app.is_paused);
    assert_eq!(app.last_order_id.as_deref(), Some("order_1"));
    app.refresh_data(false, None);
    assert!(!app.is_paused);
    assert!(app.last_order_id.is_none());
}

#[test]
fn loaded_markets_become_watchlist() {
    let mut app = App::new(0);
    app.init_watched_markets(Ok(vec![market("a", "A?"), market("b", "B?"), market("a", "A2?")]));
    assert_eq!(app.watchlist.len(), 2);
    assert_eq!(app.watchlist.get(0).unwrap().question, "A?");
    assert_eq!(last_line(&app), (LogLevel::Success, "Loaded 2 watched markets".to_string()));
    app.init_watched_markets(Err("no table".to_string()));
    assert_eq!(app.watchlist.len(), 2);
    assert_eq!(last_line(&app), (LogLevel::Error, "Failed to load watched markets: no table".to_string()));
}

#[test]
fn add_log_keeps_newest_hundred() {
    let mut app = App::new(0);
    for n in 1..=150 {
        app.add_log(LogLevel::Info, &format!("line {}", n));
    }
    assert_eq!(app.logs.len(), 100);
    assert_eq!(app.logs.get(0).unwrap().message, "line 51");
    assert_eq!(last_line(&app).1, "line 150");
}

#[test]
fn warning_on_full_log_keeps_length() {
    let mut app = App::new(0);
    for n in 1..=100 {
        app.add_log(LogLevel::Info, &format!("line {}", n));
    }
    let action = app.leave_market("nobody");
    assert!(matches!(action, Action::Nothing));
    assert_eq!(app.logs.len(), 100);
    assert_eq!(last_line(&app).0, LogLevel::Warning);
}

#[test]
fn outcome_that_does_not_answer_changes_nothing() {
    let mut app = App::new(0);
    let before = app.logs.len();
    app.complete(Action::Pause, Outcome::Done);
    app.complete(Action::Search { keyword: "x".to_string(), limit: 50 }, Outcome::Stored(Ok(())));
    app.complete(Action::Nothing, Outcome::Markets(Ok(vec![market("a", "A?")])));
    assert_eq!(app.logs.len(), before);
    assert!(app.available_markets.is_empty());
    assert_eq!(app.watchlist.len(), 0);
}

#[test]
fn driver_stops_once_quit_is_asked() {
    let mut app = App::new(0);
    assert_eq!(app.next_step(499), NextStep::Wait);
    assert_eq!(app.last_refresh, 0);
    assert_eq!(app.next_step(500), NextStep::Refresh);
    assert_eq!(app.last_refresh, 500);
    assert_eq!(app.next_step(600), NextStep::Wait);
    app.handle_event(ch('q'));
    app.handle_event(key(KeyCode::Left));
    app.handle_event(key(KeyCode::Enter));
    assert_eq!(app.next_step(5000), NextStep::Stop);
    assert_eq!(app.last_refresh, 500);
}

#[test]
fn dialogs_default_to_no() {
    assert_eq!(QuitSelection::default(), QuitSelection::No);
    assert_eq!(LeaveSelection::default(), LeaveSelection::No);
    assert_eq!(QuitSelection::No.toggle(), QuitSelection::Yes);
    assert_eq!(QuitSelection::Yes.toggle(), QuitSelection::No);
    assert_eq!(LeaveSelection::No.toggle(), LeaveSelection::Yes);
    assert_eq!(LeaveSelection::Yes.toggle(), LeaveSelection::No);
}

#[test]
fn number_of_found_market_comes_before_id() {
    // Found markets with ids "2" and "7": the reference "2" is the second of them.
    let mut app = App::new(0);
    with_found(&mut app, vec![market("2", "QA"), market("7", "QB")]);
    let action = app.join_market("2");
    assert!(matches!(&action, Action::Join { market } if market.id == "7" && market.question == "QB"));
    app.complete(action, Outcome::Stored(Ok(())));
    let ids: Vec<&str> = app.watchlist.markets().iter().map(|m| m.id.as_str()).collect();
    assert_eq!(ids, vec!["7"]);
    assert_eq!(last_line(&app), (LogLevel::Success, "Joined market: QB (ID: 7)".to_string()));
    assert_eq!(app.available_markets.len(), 2);
    assert_eq!(app.available_markets[0].id, "2");
    assert_eq!(app.available_markets[1].id, "7");
}

#[test]
fn watched_id_that_reads_as_number_joins_by_number() {
    let mut app = App::new(0);
    app.init_watched_markets(Ok(vec![market("2", "Two?")]));
    with_found(&mut app, vec![market("5", "Five?"), market("7", "Seven?")]);
    let action = app.join_market("2");
    assert!(matches!(&action, Action::Join { market } if market.id == "7"));
}

#[test]
fn every_logged_line_carries_a_time_of_day() {
    let mut app = App::new(0);
    app.handle_event(ch('h'));
    app.handle_event(ch('p'));
    let action = app.join_market("x");
    app.complete(action, Outcome::Stored(Ok(())));
    assert!(app.logs.len() > 10);
    for e in app.logs.entries() {
        let stamp: Vec<char> = e.timestamp.chars().collect();
        assert_eq!(stamp.len(), 8);
        assert_eq!((stamp[2], stamp[5]), (':', ':'));
        for i in [0, 1, 3, 4, 6, 7] {
            assert!(stamp[i].is_ascii_digit());
        }
    }
}
