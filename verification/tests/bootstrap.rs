use polymarket_hft_bot::events::EventHandler;
use polymarket_hft_bot::keys::{KeyCode, KeyEvent, KeyEventKind};
use polymarket_hft_bot::onboarding::{
    check_api_credentials, check_database_permissions, check_private_key, starts_with_hex_prefix,
    OnboardingError, OpenOutcome,
};
use polymarket_hft_bot::repl::{process_command, read_line, ReplCommand, ReplLine};
use polymarket_hft_bot::types::BotState;

#[test]
fn private_key_must_be_set() {
    assert!(check_private_key(Some("0xabc")).is_ok());
    assert!(matches!(check_private_key(None), Err(OnboardingError::MissingPrivateKey)));
    assert!(matches!(check_private_key(Some("")), Err(OnboardingError::MissingPrivateKey)));
}

#[test]
fn missing_credentials_are_named_in_order() {
    assert!(check_api_credentials(Some("k"), Some("s"), Some("p")).is_ok());
    match check_api_credentials(None, Some("s"), Some("")) {
        Err(OnboardingError::MissingApiCredentials(list)) => {
            assert_eq!(list, vec!["CLOB_API_KEY", "CLOB_PASSPHRASE"])
        }
        other => panic!("unexpected {:?}", other),
    }
    match check_api_credentials(Some(""), None, None) {
        Err(OnboardingError::MissingApiCredentials(list)) => {
            assert_eq!(list, vec!["CLOB_API_KEY", "CLOB_API_SECRET", "CLOB_PASSPHRASE"])
        }
        other => panic!("unexpected {:?}", other),
    }
}

#[test]
fn database_outcomes_map_to_errors() {
    assert!(check_database_permissions("db".to_string(), OpenOutcome::Opened).is_ok());
    assert!(matches!(
        check_database_permissions("db".to_string(), OpenOutcome::PermissionDenied),
        Err(OnboardingError::DatabasePermissionDenied(p)) if p == "db"
    ));
    assert!(matches!(
        check_database_permissions("db".to_string(), OpenOutcome::Failed("gone".to_string())),
        Err(OnboardingError::DatabaseError(m)) if m == "gone"
    ));
}

#[test]
fn hex_prefix_is_zero_x() {
    assert!(starts_with_hex_prefix("0x"));
    assert!(starts_with_hex_prefix("0x12ab"));
    assert!(!starts_with_hex_prefix("0X12"));
    assert!(!starts_with_hex_prefix("x0"));
    assert!(!starts_with_hex_prefix("0"));
    assert!(!starts_with_hex_prefix(""));
}

#[test]
fn console_commands_are_spelled_exactly() {
    assert_eq!(process_command("/help"), ReplCommand::Help);
    assert_eq!(process_command("/currentstate"), ReplCommand::CurrentState);
    assert_eq!(process_command("/lastbid"), ReplCommand::LastBid);
    assert_eq!(process_command("/balance"), ReplCommand::Balance);
    assert_eq!(process_command("/active"), ReplCommand::Active);
    assert_eq!(process_command("/markets"), ReplCommand::Markets);
    assert_eq!(process_command("/pnl"), ReplCommand::Pnl);
    assert_eq!(process_command("/pause"), ReplCommand::Pause);
    assert_eq!(process_command("/resume"), ReplCommand::Resume);
    assert_eq!(process_command("/panic"), ReplCommand::Panic);
    assert_eq!(process_command("/export"), ReplCommand::Export);
    assert_eq!(process_command("/exit"), ReplCommand::Exit);
    assert_eq!(process_command("/quit"), ReplCommand::Exit);
    assert_eq!(process_command("/HELP"), ReplCommand::Unknown);
    assert_eq!(process_command("help"), ReplCommand::Unknown);
    assert_eq!(process_command("/help me"), ReplCommand::Unknown);
}

#[test]
fn console_lines_are_trimmed() {
    assert!(matches!(read_line("   \t\n"), ReplLine::Blank));
    assert!(matches!(read_line(""), ReplLine::Blank));
    match read_line("  /pause \n") {
        ReplLine::Entered { text, command } => {
            assert_eq!(text, "/pause");
            assert_eq!(command, ReplCommand::Pause);
        }
        other => panic!("unexpected {:?}", other),
    }
    assert!(matches!(
        read_line(" what "),
        ReplLine::Entered { text, command: ReplCommand::Unknown } if text == "what"
    ));
}

#[test]
fn only_key_presses_are_handed_on() {
    let mut handler = EventHandler::new(100);
    assert_eq!(handler.tick_rate_ms(), 100);
    let press = KeyEvent { code: KeyCode::Enter, control: false, kind: KeyEventKind::Press };
    let release = KeyEvent { code: KeyCode::Enter, control: false, kind: KeyEventKind::Release };
    let repeat = KeyEvent { code: KeyCode::Char('a'), control: true, kind: KeyEventKind::Repeat };
    assert_eq!(handler.next(Some(press)), Some(press));
    assert_eq!(handler.next(Some(release)), None);
    assert_eq!(handler.next(Some(repeat)), None);
    assert_eq!(handler.next(None), None);
    assert_eq!(handler.tick_rate_ms(), 100);
}

#[test]
fn key_event_constructors() {
    assert_eq!(
        KeyEvent::press(KeyCode::Up),
        KeyEvent { code: KeyCode::Up, control: false, kind: KeyEventKind::Press }
    );
    assert_eq!(
        KeyEvent::press_with_control(KeyCode::Char('c')),
        KeyEvent { code: KeyCode::Char('c'), control: true, kind: KeyEventKind::Press }
    );
}

#[test]
fn bot_state_starts_running() {
    let mut state = BotState::default();
    assert!(!state.is_paused);
    assert!(state.last_order_id.is_none());
    assert!(state.monitored_markets.is_empty());
    assert!(state.accepts_orders());
    state.set_paused(true);
    assert!(!state.accepts_orders());
    state.record_order("order_1".to_string());
    assert_eq!(state.last_order_id.as_deref(), Some("order_1"));
    assert!(state.is_paused);
    state.set_paused(false);
    assert!(state.accepts_orders());
}
