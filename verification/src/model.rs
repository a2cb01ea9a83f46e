//! The dashboard as a state machine over plain values: what each key, each
//! command and each outcome of an action does to the state, which lines it adds
//! to the log, and which action it leaves for the driver.
//!
//! A key that has no meaning in the current mode and tab changes nothing.

use vstd::prelude::*;
use crate::command::{parse_line, CommandView, Verb};
use crate::keys::{KeyCode, KeyEvent};
use crate::logs::{LogLevel, LogLine};
use crate::markets::MarketInfoView;
use crate::state::{
    ActionView, AppView, InputModeView, LeaveSelection, NextStep, OutcomeView, QuitSelection, Step,
};
use crate::tab::Tab;
use crate::text::{decimal, parse_unsigned};
use crate::watchlist::{contains_id, first_of_each_id, position_of, without_id};

verus! {

/// How many markets a search asks for.
pub const SEARCH_LIMIT: usize = 50;

/// How many trending markets are asked for.
pub const TRENDING_LIMIT: usize = 20;

/// The least time between two readings of the engine's state, in milliseconds.
pub const REFRESH_INTERVAL_MS: u64 = 500;

/// Number of sections in the documentation tab.
pub const DOC_SECTIONS: usize = 5;

pub open spec fn info(message: Seq<char>) -> LogLine {
    LogLine { level: LogLevel::Info, message }
}

pub open spec fn warning(message: Seq<char>) -> LogLine {
    LogLine { level: LogLevel::Warning, message }
}

pub open spec fn error(message: Seq<char>) -> LogLine {
    LogLine { level: LogLevel::Error, message }
}

pub open spec fn success(message: Seq<char>) -> LogLine {
    LogLine { level: LogLevel::Success, message }
}

/// The line logged when a market has been joined: it names the market's
/// question and its id.
pub open spec fn joined_line(market: MarketInfoView) -> LogLine {
    success("Joined market: "@ + market.question + " (ID: "@ + market.id + ")"@)
}

/// The lines logged when the dashboard starts.
pub open spec fn startup_lines() -> Seq<LogLine> {
    seq![
        info("TUI initialized successfully"@),
        info("Press ':' to enter command mode"@),
        info("Press 'S' to search markets"@),
        info("Loading watched markets..."@),
    ]
}

/// The list of commands that `help` logs.
pub open spec fn command_help_lines() -> Seq<LogLine> {
    seq![
        info("─── Available Commands ───"@),
        info("/search <keyword>  - Search markets"@),
        info("/trending          - Show trending markets"@),
        info("/joinmarket <id|#> - Join market by ID or index"@),
        info("/leavemarket <id>  - Leave a market"@),
        info("/help              - Show this help"@),
    ]
}

/// The list of keys that the help key logs.
pub open spec fn shortcut_help_lines() -> Seq<LogLine> {
    seq![
        info("─── Keyboard Shortcuts ───"@),
        info(":        : Enter command mode"@),
        info("S        : Quick search markets"@),
        info("T        : Load trending markets"@),
        info("Tab/←/→  : Navigate tabs"@),
        info("↑/↓      : Navigate markets list"@),
        info("Enter    : Join selected market"@),
        info("P        : Pause bot"@),
        info("R        : Resume bot"@),
        info("!        : PANIC mode"@),
        info("Q        : Quit"@),
    ]
}

/// The reminder logged when a verb comes without the argument that it needs.
pub open spec fn usage_text(verb: Verb) -> Seq<char> {
    match verb {
        Verb::Search => "Usage: /search <keyword>"@,
        Verb::Join => "Usage: /joinmarket <market_id or index>"@,
        Verb::Leave => "Usage: /leavemarket <market_id>"@,
        Verb::Trending => "Usage: /trending"@,
        Verb::Help => "Usage: /help"@,
    }
}

/// The tab that a digit key selects.
pub open spec fn tab_for_digit(c: char) -> Option<Tab> {
    if c == '1' {
        Some(Tab::Dashboard)
    } else if c == '2' {
        Some(Tab::Orders)
    } else if c == '3' {
        Some(Tab::Markets)
    } else if c == '4' {
        Some(Tab::MarketDetail)
    } else if c == '5' {
        Some(Tab::Logs)
    } else if c == '6' {
        Some(Tab::Docs)
    } else {
        None
    }
}

/// Number of lines of a section of the documentation; 30 for a section that
/// does not exist.
pub open spec fn doc_line_count(section: usize) -> u16 {
    if section == 0 {
        38
    } else if section == 1 {
        37
    } else if section == 2 {
        40
    } else if section == 3 {
        35
    } else if section == 4 {
        38
    } else {
        30
    }
}

/// How far a section of the documentation scrolls: ten lines short of its end.
pub open spec fn doc_max_scroll(section: usize) -> u16 {
    (doc_line_count(section) - 10) as u16
}

/// Whether the key flips the choice in a confirmation dialog.
pub open spec fn is_toggle_key(code: KeyCode) -> bool {
    code == KeyCode::Left || code == KeyCode::Right || code == KeyCode::Tab || code
        == KeyCode::BackTab
}

impl AppView {
    /// The dashboard before any key: the first tab, normal mode, nothing
    /// selected, found or watched.
    pub open spec fn initial(now_ms: u64) -> AppView {
        AppView {
            current_tab: Tab::Dashboard,
            should_quit: false,
            is_paused: false,
            last_order_id: None,
            last_refresh: now_ms,
            input_mode: InputModeView::Normal,
            available_markets: Seq::empty(),
            watchlist: Seq::empty(),
            market_search_query: Seq::empty(),
            selected_market_index: 0,
            selected_watched_market_index: 0,
            is_loading_markets: false,
            docs_selected_section: 0,
            docs_viewing_content: false,
            docs_scroll_offset: 0,
        }
    }

    /// The step that ends in this state, logs nothing and asks for nothing.
    pub open spec fn quiet(self) -> Step {
        Step { state: self, lines: Seq::empty(), action: ActionView::Nothing }
    }

    /// The step that ends in this state, logs one line and asks for nothing.
    pub open spec fn say(self, line: LogLine) -> Step {
        Step { state: self, lines: seq![line], action: ActionView::Nothing }
    }

    /// The step that ends in this state, logs the lines and asks for nothing.
    pub open spec fn say_all(self, lines: Seq<LogLine>) -> Step {
        Step { state: self, lines, action: ActionView::Nothing }
    }

    // ---------------------------------------------------------------------
    // Searching
    // ---------------------------------------------------------------------
    /// A search begins: the markets tab opens and shows that it is loading.
    pub open spec fn begin_search(self, keyword: Seq<char>) -> Step {
        Step {
            state: AppView {
                market_search_query: keyword,
                is_loading_markets: true,
                current_tab: Tab::Markets,
                ..self
            },
            lines: seq![info("Searching markets: '"@ + keyword + "'..."@)],
            action: ActionView::Search { keyword, limit: SEARCH_LIMIT },
        }
    }

    /// The load of the trending markets begins.
    pub open spec fn begin_trending(self) -> Step {
        Step {
            state: AppView {
                market_search_query: "Trending"@,
                is_loading_markets: true,
                current_tab: Tab::Markets,
                ..self
            },
            lines: seq![info("Loading trending markets..."@)],
            action: ActionView::LoadTrending { limit: TRENDING_LIMIT },
        }
    }

    /// The found markets replace the earlier ones and the first is selected; a
    /// failure leaves the earlier ones. Either way loading is over. `found` and
    /// `failed` are what the log says before the count and before the failure.
    pub open spec fn markets_loaded(
        self,
        result: Result<Seq<MarketInfoView>, Seq<char>>,
        found: Seq<char>,
        found_end: Seq<char>,
        failed: Seq<char>,
    ) -> Step {
        match result {
            Ok(markets) => AppView {
                available_markets: markets,
                selected_market_index: 0,
                is_loading_markets: false,
                ..self
            }.say(success(found + decimal(markets.len()) + found_end)),
            Err(message) => AppView { is_loading_markets: false, ..self }.say(
                error(failed + message),
            ),
        }
    }

    /// A search has ended.
    pub open spec fn search_done(self, result: Result<Seq<MarketInfoView>, Seq<char>>) -> Step {
        self.markets_loaded(result, "Found "@, " markets"@, "Search failed: "@)
    }

    /// The load of the trending markets has ended.
    pub open spec fn trending_done(self, result: Result<Seq<MarketInfoView>, Seq<char>>) -> Step {
        self.markets_loaded(result, "Loaded "@, " trending markets"@, "Failed to load trending: "@)
    }

    // ---------------------------------------------------------------------
    // Joining and leaving
    // ---------------------------------------------------------------------
    /// Joining the market with the given number, counted from 1, in the list of
    /// found markets. A number outside the list, and a market that is watched
    /// already, are refused with a warning; else the market is to be stored.
    pub open spec fn join_numbered(self, number: int) -> Step {
        if 1 <= number <= self.available_markets.len() {
            let market = self.available_markets[number - 1];
            if contains_id(self.watchlist, market.id) {
                self.say(warning("Already monitoring this market"@))
            } else {
                Step {
                    state: self,
                    lines: Seq::empty(),
                    action: ActionView::Join { market },
                }
            }
        } else {
            self.say(
                warning(
                    "Invalid index: "@ + decimal(number as nat) + ". Use 1-"@ + decimal(
                        self.available_markets.len(),
                    ),
                ),
            )
        }
    }

    /// The market that joining by id stores: the first found market with the id,
    /// or a placeholder made of the id where none was found.
    pub open spec fn market_for_id(self, id: Seq<char>) -> MarketInfoView {
        match position_of(self.available_markets, id) {
            Some(i) => self.available_markets[i],
            None => MarketInfoView::placeholder(id),
        }
    }

    /// Joining the market with the given id. A market that is watched already is
    /// refused with a warning.
    pub open spec fn join_by_id(self, id: Seq<char>) -> Step {
        if contains_id(self.watchlist, id) {
            self.say(warning("Already monitoring this market"@))
        } else {
            Step {
                state: self,
                lines: Seq::empty(),
                action: ActionView::Join { market: self.market_for_id(id) },
            }
        }
    }

    /// The number that a reference gives, if it reads as an unsigned number that
    /// the machine can hold; any other reference is an id.
    pub open spec fn reference_number(reference: Seq<char>) -> Option<int> {
        match parse_unsigned(reference) {
            Some(n) => if n <= usize::MAX {
                Some(n as int)
            } else {
                None
            },
            None => None,
        }
    }

    /// Joining by reference: a reference that reads as a number is the number of
    /// a found market, and never an id; any other reference is an id.
    pub open spec fn begin_join(self, reference: Seq<char>) -> Step {
        match AppView::reference_number(reference) {
            Some(number) => self.join_numbered(number),
            None => self.join_by_id(reference),
        }
    }

    /// The store has answered a request to store `market`. On success the market
    /// is appended to the watchlist and one line of the log names its question
    /// and its id; on failure nothing changes but the log.
    pub open spec fn join_done(self, market: MarketInfoView, result: Result<(), Seq<char>>) -> Step {
        match result {
            Err(message) => self.say(error("Failed to save market: "@ + message)),
            Ok(_) => if contains_id(self.watchlist, market.id) {
                self.say(warning("Already monitoring this market"@))
            } else {
                AppView { watchlist: self.watchlist.push(market), ..self }.say(
                    joined_line(market),
                )
            },
        }
    }

    /// Leaving the market with the given id: a market that is not watched is
    /// refused with a warning; else its removal from the store is asked for.
    pub open spec fn begin_leave(self, id: Seq<char>) -> Step {
        if contains_id(self.watchlist, id) {
            Step {
                state: self,
                lines: Seq::empty(),
                action: ActionView::Leave { id, selected: false },
            }
        } else {
            self.say(warning("Not monitoring market: "@ + id))
        }
    }

    /// The selection in the list of watched markets, pulled back to the last
    /// entry where it points behind the list.
    pub open spec fn clamp_watched_selection(self) -> AppView {
        if self.selected_watched_market_index > 0 && self.selected_watched_market_index
            >= self.watchlist.len() {
            AppView {
                selected_watched_market_index: if self.watchlist.len() == 0 {
                    0usize
                } else {
                    (self.watchlist.len() - 1) as usize
                },
                ..self
            }
        } else {
            self
        }
    }

    /// The store has answered a request to remove the market with the id. On
    /// success the market leaves the watchlist; on failure nothing changes but
    /// the log. Where the market had been picked in the list of watched markets,
    /// the selection is then pulled back into the list.
    pub open spec fn leave_done(
        self,
        id: Seq<char>,
        selected: bool,
        result: Result<(), Seq<char>>,
    ) -> Step {
        let step = match result {
            Err(message) => self.say(error("Failed to remove from DB: "@ + message)),
            Ok(_) => if contains_id(self.watchlist, id) {
                AppView { watchlist: without_id(self.watchlist, id), ..self }.say(
                    info("Left market: "@ + id),
                )
            } else {
                self.say(warning("Not monitoring market: "@ + id))
            },
        };
        if selected {
            Step { state: step.state.clamp_watched_selection(), ..step }
        } else {
            step
        }
    }

    /// The store has answered the request for the watched markets. They replace
    /// the watchlist, each id once; a failure leaves the watchlist.
    pub open spec fn watched_loaded(self, result: Result<Seq<MarketInfoView>, Seq<char>>) -> Step {
        match result {
            Ok(markets) => AppView { watchlist: first_of_each_id(markets), ..self }.say(
                success(
                    "Loaded "@ + decimal(first_of_each_id(markets).len()) + " watched markets"@,
                ),
            ),
            Err(message) => self.say(error("Failed to load watched markets: "@ + message)),
        }
    }

    // ---------------------------------------------------------------------
    // The execution engine
    // ---------------------------------------------------------------------
    /// The engine has answered a request to cancel all orders. Either way the
    /// dashboard shows the engine as paused.
    pub open spec fn cancel_done(self, result: Result<usize, Seq<char>>) -> Step {
        AppView { is_paused: true, ..self }.say_all(
            match result {
                Ok(count) => seq![
                    error("Cancelled "@ + decimal(count as nat) + " orders"@),
                    error("Bot is now PAUSED"@),
                ],
                Err(message) => seq![error("Panic error: "@ + message)],
            },
        )
    }

    /// Whether enough time has passed since the engine's state was last read.
    pub open spec fn refresh_is_due(self, now_ms: u64) -> bool {
        now_ms >= self.last_refresh && now_ms - self.last_refresh >= REFRESH_INTERVAL_MS
    }

    /// What the driver does once a key has been handled: it stops if the
    /// operator has asked to quit; else it reads the engine's state again if
    /// that is due; else it goes on.
    pub open spec fn next_step(self, now_ms: u64) -> NextStep {
        if self.should_quit {
            NextStep::Stop
        } else if self.refresh_is_due(now_ms) {
            NextStep::Refresh
        } else {
            NextStep::Wait
        }
    }

    // ---------------------------------------------------------------------
    // Commands
    // ---------------------------------------------------------------------
    /// What a command does.
    pub open spec fn run_command(self, command: CommandView) -> Step {
        match command {
            CommandView::Empty => self.quiet(),
            CommandView::Search(keyword) => self.begin_search(keyword),
            CommandView::Join(reference) => self.begin_join(reference),
            CommandView::Leave(id) => self.begin_leave(id),
            CommandView::Trending => self.begin_trending(),
            CommandView::Help => self.say_all(command_help_lines()),
            CommandView::MissingArgument(verb) => self.say(warning(usage_text(verb))),
            CommandView::Unknown(word) => self.say_all(
                seq![
                    warning("Unknown command: "@ + word),
                    info("Type /help for available commands"@),
                ],
            ),
        }
    }

    /// What a command line does.
    pub open spec fn execute_command(self, line: Seq<char>) -> Step {
        self.run_command(parse_line(line))
    }

    // ---------------------------------------------------------------------
    // Keys
    // ---------------------------------------------------------------------
    /// A key while a command line is edited: Enter runs the line and Esc drops
    /// it, both going back to normal mode; Backspace and characters edit it.
    pub open spec fn on_command_key(self, line: Seq<char>, code: KeyCode) -> Step {
        match code {
            KeyCode::Enter => AppView { input_mode: InputModeView::Normal, ..self }.execute_command(
                line,
            ),
            KeyCode::Esc => AppView { input_mode: InputModeView::Normal, ..self }.quiet(),
            KeyCode::Backspace => AppView {
                input_mode: InputModeView::Command(
                    if line.len() > 0 {
                        line.drop_last()
                    } else {
                        line
                    },
                ),
                ..self
            }.quiet(),
            KeyCode::Char(c) => AppView {
                input_mode: InputModeView::Command(line.push(c)),
                ..self
            }.quiet(),
            _ => self.quiet(),
        }
    }

    /// A key while the quit dialog is open: the toggle keys flip the choice,
    /// Enter closes the dialog and quits if the choice is yes, Esc closes it.
    pub open spec fn on_quit_key(self, selection: QuitSelection, code: KeyCode) -> Step {
        if is_toggle_key(code) {
            AppView {
                input_mode: InputModeView::QuitConfirmation(selection.flipped()),
                ..self
            }.quiet()
        } else if code == KeyCode::Enter {
            AppView {
                input_mode: InputModeView::Normal,
                should_quit: self.should_quit || selection == QuitSelection::Yes,
                ..self
            }.quiet()
        } else if code == KeyCode::Esc {
            AppView { input_mode: InputModeView::Normal, ..self }.quiet()
        } else {
            self.quiet()
        }
    }

    /// A key while the leave dialog is open: the toggle keys flip the choice,
    /// Enter closes the dialog and, if the choice is yes, asks for the removal
    /// of the selected watched market, Esc closes it.
    pub open spec fn on_leave_key(self, selection: LeaveSelection, code: KeyCode) -> Step {
        if is_toggle_key(code) {
            AppView {
                input_mode: InputModeView::LeaveMarketConfirmation(selection.flipped()),
                ..self
            }.quiet()
        } else if code == KeyCode::Enter {
            let closed = AppView { input_mode: InputModeView::Normal, ..self };
            if selection == LeaveSelection::Yes && self.selected_watched_market_index
                < self.watchlist.len() {
                Step {
                    state: closed,
                    lines: Seq::empty(),
                    action: ActionView::Leave {
                        id: self.watchlist[self.selected_watched_market_index as int].id,
                        selected: true,
                    },
                }
            } else {
                closed.quiet()
            }
        } else if code == KeyCode::Esc {
            AppView { input_mode: InputModeView::Normal, ..self }.quiet()
        } else {
            self.quiet()
        }
    }

    /// The selection moves up by one in the list that the tab shows, and stops
    /// at the first entry.
    pub open spec fn move_up(self) -> AppView {
        if self.current_tab == Tab::Markets && self.selected_market_index > 0 {
            AppView { selected_market_index: (self.selected_market_index - 1) as usize, ..self }
        } else if self.current_tab == Tab::MarketDetail && self.selected_watched_market_index > 0 {
            AppView {
                selected_watched_market_index: (self.selected_watched_market_index - 1) as usize,
                ..self
            }
        } else {
            self
        }
    }

    /// The selection moves down by one in the list that the tab shows, and
    /// stops at the last entry.
    pub open spec fn move_down(self) -> AppView {
        if self.current_tab == Tab::Markets && self.selected_market_index + 1
            < self.available_markets.len() {
            AppView { selected_market_index: (self.selected_market_index + 1) as usize, ..self }
        } else if self.current_tab == Tab::MarketDetail && self.selected_watched_market_index + 1
            < self.watchlist.len() {
            AppView {
                selected_watched_market_index: (self.selected_watched_market_index + 1) as usize,
                ..self
            }
        } else {
            self
        }
    }

    /// A key in normal mode on the documentation tab. While a section is read,
    /// up and down scroll it and the back keys close it; else up and down move
    /// between the sections, Enter opens one, and the arrow keys change the tab.
    pub open spec fn on_docs_key(self, code: KeyCode, control: bool) -> Step {
        if code == KeyCode::Up || code == KeyCode::Char('k') {
            if self.docs_viewing_content {
                AppView {
                    docs_scroll_offset: if self.docs_scroll_offset > 0 {
                        (self.docs_scroll_offset - 1) as u16
                    } else {
                        0u16
                    },
                    ..self
                }.quiet()
            } else if self.docs_selected_section > 0 {
                AppView {
                    docs_selected_section: (self.docs_selected_section - 1) as usize,
                    ..self
                }.quiet()
            } else {
                self.quiet()
            }
        } else if code == KeyCode::Down || code == KeyCode::Char('j') {
            if self.docs_viewing_content {
                if self.docs_scroll_offset < doc_max_scroll(self.docs_selected_section) {
                    AppView {
                        docs_scroll_offset: (self.docs_scroll_offset + 1) as u16,
                        ..self
                    }.quiet()
                } else {
                    self.quiet()
                }
            } else if self.docs_selected_section + 1 < DOC_SECTIONS {
                AppView {
                    docs_selected_section: (self.docs_selected_section + 1) as usize,
                    ..self
                }.quiet()
            } else {
                self.quiet()
            }
        } else if code == KeyCode::Enter {
            if !self.docs_viewing_content {
                AppView { docs_viewing_content: true, docs_scroll_offset: 0, ..self }.quiet()
            } else {
                self.quiet()
            }
        } else if code == KeyCode::Backspace || code == KeyCode::Left || code == KeyCode::Esc {
            if self.docs_viewing_content {
                AppView { docs_viewing_content: false, docs_scroll_offset: 0, ..self }.quiet()
            } else {
                AppView { current_tab: self.current_tab.predecessor(), ..self }.quiet()
            }
        } else if code == KeyCode::Right || code == KeyCode::Tab {
            if !self.docs_viewing_content {
                AppView { current_tab: self.current_tab.successor(), ..self }.quiet()
            } else {
                self.quiet()
            }
        } else if code == KeyCode::Char('q') || code == KeyCode::Char('Q') {
            AppView {
                input_mode: InputModeView::QuitConfirmation(QuitSelection::No),
                ..self
            }.quiet()
        } else if code matches KeyCode::Char(c) && tab_for_digit(c).is_some() {
            AppView { current_tab: tab_for_digit(code->Char_0).unwrap(), ..self }.quiet()
        } else if code == KeyCode::Char('c') && control {
            AppView { should_quit: true, ..self }.quiet()
        } else {
            self.quiet()
        }
    }

    /// A key in normal mode on any tab but the documentation tab. The command
    /// keys open an empty command line; the search key opens one that begins a
    /// search.
    pub open spec fn on_normal_key(self, code: KeyCode, control: bool) -> Step {
        if code == KeyCode::Char(':') || code == KeyCode::Char('/') {
            AppView { input_mode: InputModeView::Command(Seq::empty()), ..self }.quiet()
        } else if code == KeyCode::Char('s') || code == KeyCode::Char('S') {
            AppView {
                input_mode: InputModeView::Command("/search "@),
                current_tab: Tab::Markets,
                ..self
            }.quiet()
        } else if code == KeyCode::Char('t') || code == KeyCode::Char('T') {
            self.begin_trending()
        } else if code == KeyCode::Up || code == KeyCode::Char('k') {
            self.move_up().quiet()
        } else if code == KeyCode::Down || code == KeyCode::Char('j') {
            self.move_down().quiet()
        } else if code == KeyCode::Enter {
            if self.current_tab == Tab::Markets && self.available_markets.len() > 0 {
                self.join_numbered(self.selected_market_index + 1)
            } else {
                self.quiet()
            }
        } else if code == KeyCode::Delete || code == KeyCode::Backspace {
            if self.current_tab == Tab::MarketDetail && self.watchlist.len() > 0 {
                AppView {
                    input_mode: InputModeView::LeaveMarketConfirmation(LeaveSelection::No),
                    ..self
                }.quiet()
            } else {
                self.quiet()
            }
        } else if code == KeyCode::Char('q') || code == KeyCode::Char('Q') {
            AppView {
                input_mode: InputModeView::QuitConfirmation(QuitSelection::No),
                ..self
            }.quiet()
        } else if code == KeyCode::Tab || code == KeyCode::Right {
            AppView { current_tab: self.current_tab.successor(), ..self }.quiet()
        } else if code == KeyCode::BackTab || code == KeyCode::Left {
            AppView { current_tab: self.current_tab.predecessor(), ..self }.quiet()
        } else if code matches KeyCode::Char(c) && tab_for_digit(c).is_some() {
            AppView { current_tab: tab_for_digit(code->Char_0).unwrap(), ..self }.quiet()
        } else if code == KeyCode::Char('p') || code == KeyCode::Char('P') {
            Step {
                state: AppView { is_paused: true, ..self },
                lines: seq![warning("Bot PAUSED - trading disabled"@)],
                action: ActionView::Pause,
            }
        } else if code == KeyCode::Char('r') || code == KeyCode::Char('R') {
            Step {
                state: AppView { is_paused: false, ..self },
                lines: seq![success("Bot RESUMED - trading enabled"@)],
                action: ActionView::Resume,
            }
        } else if code == KeyCode::Char('!') {
            Step {
                state: self,
                lines: seq![error("🚨 PANIC MODE ACTIVATED"@)],
                action: ActionView::CancelAll,
            }
        } else if code == KeyCode::Char('e') || code == KeyCode::Char('E') {
            self.say(info("Export feature coming soon..."@))
        } else if code == KeyCode::Char('h') || code == KeyCode::Char('H') {
            self.say_all(shortcut_help_lines())
        } else if code == KeyCode::Char('c') && control {
            AppView { should_quit: true, ..self }.quiet()
        } else {
            self.quiet()
        }
    }

    /// What a key does: the mode decides who reads it.
    pub open spec fn on_key(self, event: KeyEvent) -> Step {
        match self.input_mode {
            InputModeView::Command(line) => self.on_command_key(line, event.code),
            InputModeView::QuitConfirmation(selection) => self.on_quit_key(selection, event.code),
            InputModeView::LeaveMarketConfirmation(selection) => self.on_leave_key(
                selection,
                event.code,
            ),
            InputModeView::Normal => if self.current_tab == Tab::Docs {
                self.on_docs_key(event.code, event.control)
            } else {
                self.on_normal_key(event.code, event.control)
            },
        }
    }

    /// What the outcome of an action does. An outcome that does not answer the
    /// action changes nothing.
    pub open spec fn complete(self, action: ActionView, outcome: OutcomeView) -> Step {
        match (action, outcome) {
            (ActionView::Search { .. }, OutcomeView::Markets(result)) => self.search_done(result),
            (ActionView::LoadTrending { .. }, OutcomeView::Markets(result)) => self.trending_done(
                result,
            ),
            (ActionView::Join { market }, OutcomeView::Stored(result)) => self.join_done(
                market,
                result,
            ),
            (ActionView::Leave { id, selected }, OutcomeView::Stored(result)) => self.leave_done(
                id,
                selected,
                result,
            ),
            (ActionView::CancelAll, OutcomeView::Cancelled(result)) => self.cancel_done(result),
            _ => self.quiet(),
        }
    }
}

} // verus!
