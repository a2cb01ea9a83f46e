//! The dashboard: what it does on each key and on each outcome of an action.
//! Every operation is held to the state machine of [`crate::model`].

use vstd::prelude::*;
use vstd::string::*;
use crate::command::{parse, Command, Verb};
use crate::keys::{KeyCode, KeyEvent};
use crate::logs::{
    lemma_log_extends_nothing, lemma_log_extends_twice, log_extends, LogBuffer, LogLevel, LogLine,
};
use crate::markets::{market_views, MarketInfo, MarketInfoView};
use crate::model::{
    command_help_lines, shortcut_help_lines, startup_lines, DOC_SECTIONS, REFRESH_INTERVAL_MS,
    SEARCH_LIMIT, TRENDING_LIMIT,
};
use crate::state::{
    Action, App, AppView, InputMode, LeaveSelection, NextStep, Outcome, QuitSelection, Step,
};
use crate::tab::Tab;
use crate::text::{decimal_text, parse_index, text_of_three, text_of_two};
use crate::watchlist::{distinct_ids, find_by_id, Watchlist};

verus! {

impl App {
    /// `after` is where `step` leads from `before`: the state is the step's, and
    /// the log has grown by the step's lines.
    pub open spec fn performs(before: App, after: App, step: Step) -> bool {
        &&& after@ == step.state
        &&& log_extends(before.logs@, after.logs@, step.lines)
    }

    /// `performs`, and `action` is the step's.
    pub open spec fn takes(before: App, after: App, action: Action, step: Step) -> bool {
        &&& App::performs(before, after, step)
        &&& action@ == step.action
    }

    /// The dashboard at its start, with its first lines in the log. `now_ms` is
    /// the time on the driver's clock, in milliseconds.
    pub fn new(now_ms: u64) -> (app: App)
        ensures
            app@ == AppView::initial(now_ms),
            log_extends(Seq::empty(), app.logs@, startup_lines()),
    {
        let mut app = App {
            current_tab: Tab::Dashboard,
            should_quit: false,
            logs: LogBuffer::new(),
            is_paused: false,
            last_order_id: None,
            last_refresh: now_ms,
            input_mode: InputMode::Normal,
            available_markets: Vec::new(),
            watchlist: Watchlist::new(),
            market_search_query: String::new(),
            selected_market_index: 0,
            selected_watched_market_index: 0,
            is_loading_markets: false,
            docs_selected_section: 0,
            docs_viewing_content: false,
            docs_scroll_offset: 0,
        };
        assert(app@.available_markets =~= Seq::<MarketInfoView>::empty());
        app.say_all(
            LogLevel::Info,
            [
                "TUI initialized successfully",
                "Press ':' to enter command mode",
                "Press 'S' to search markets",
                "Loading watched markets...",
            ].as_slice(),
            Ghost(startup_lines()),
        );
        app
    }

    /// Appends a line to the log under the current time of day.
    pub fn add_log(&mut self, level: LogLevel, message: &str)
        ensures
            App::performs(
                *old(self),
                *final(self),
                old(self)@.say(LogLine { level, message: message@ }),
            ),
    {
        self.logs.record(level, message);
    }

    /// Appends two lines to the log.
    fn say_two(&mut self, first_level: LogLevel, first: &str, second_level: LogLevel, second: &str)
        ensures
            App::performs(
                *old(self),
                *final(self),
                old(self)@.say_all(
                    seq![
                        LogLine { level: first_level, message: first@ },
                        LogLine { level: second_level, message: second@ },
                    ],
                ),
            ),
    {
        self.logs.recall_capacity();
        self.logs.record(first_level, first);
        let ghost middle = self.logs@;
        self.logs.record(second_level, second);
        proof {
            lemma_log_extends_twice(
                old(self).logs@,
                middle,
                self.logs@,
                seq![LogLine { level: first_level, message: first@ }],
                seq![LogLine { level: second_level, message: second@ }],
            );
            assert(seq![LogLine { level: first_level, message: first@ }] + seq![
                LogLine { level: second_level, message: second@ },
            ] =~= seq![
                LogLine { level: first_level, message: first@ },
                LogLine { level: second_level, message: second@ },
            ]);
        }
    }

    /// Appends the lines, all of one level, to the log.
    fn say_all(&mut self, level: LogLevel, messages: &[&str], Ghost(lines): Ghost<Seq<LogLine>>)
        requires
            lines.len() == messages@.len(),
            forall|i: int|
                0 <= i < lines.len() ==> #[trigger] lines[i] == (LogLine {
                    level,
                    message: messages@[i]@,
                }),
        ensures
            App::performs(*old(self), *final(self), old(self)@.say_all(lines)),
    {
        self.logs.record_all(level, messages);
        assert(crate::logs::leveled(level, messages@) =~= lines);
    }

    /// Whether the engine's state is to be read again: it is when `now_ms`, the
    /// time on the driver's clock, is at least `REFRESH_INTERVAL_MS` past the
    /// last reading, and `now_ms` then becomes the time of the last reading.
    pub fn refresh_due(&mut self, now_ms: u64) -> (due: bool)
        ensures
            due == old(self)@.refresh_is_due(now_ms),
            final(self)@ == if due {
                AppView { last_refresh: now_ms, ..old(self)@ }
            } else {
                old(self)@
            },
            final(self).logs@ == old(self).logs@,
    {
        if now_ms >= self.last_refresh && now_ms - self.last_refresh >= REFRESH_INTERVAL_MS {
            self.last_refresh = now_ms;
            true
        } else {
            false
        }
    }

    /// Says what the driver does once a key, if there was one, has been handled.
    /// When the answer is to read the engine's state again, `now_ms` becomes the
    /// time of the last reading.
    pub fn next_step(&mut self, now_ms: u64) -> (step: NextStep)
        ensures
            step == old(self)@.next_step(now_ms),
            final(self)@ == if step == NextStep::Refresh {
                AppView { last_refresh: now_ms, ..old(self)@ }
            } else {
                old(self)@
            },
            final(self).logs@ == old(self).logs@,
    {
        if self.should_quit {
            NextStep::Stop
        } else if self.refresh_due(now_ms) {
            NextStep::Refresh
        } else {
            NextStep::Wait
        }
    }

    /// Takes over what the execution engine reports of itself.
    pub fn refresh_data(&mut self, is_paused: bool, last_order_id: Option<String>)
        ensures
            final(self)@ == (AppView {
                is_paused,
                last_order_id: match last_order_id {
                    Some(id) => Some(id@),
                    None => None,
                },
                ..old(self)@
            }),
            final(self).logs@ == old(self).logs@,
    {
        self.is_paused = is_paused;
        self.last_order_id = last_order_id;
    }

    /// Takes over the watched markets that the store has returned.
    pub fn init_watched_markets(&mut self, loaded: Result<Vec<MarketInfo>, String>)
        ensures
            App::performs(
                *old(self),
                *final(self),
                old(self)@.watched_loaded(
                    match loaded {
                        Ok(markets) => Ok(market_views(markets@)),
                        Err(message) => Err(message@),
                    },
                ),
            ),
            distinct_ids(final(self).watchlist@),
    {
        match loaded {
            Ok(markets) => {
                self.watchlist = Watchlist::from_markets(&markets);
                let count = decimal_text(self.watchlist.len() as u128);
                let line = text_of_three("Loaded ", count.as_str(), " watched markets");
                self.logs.record(LogLevel::Success, line.as_str());
            },
            Err(message) => {
                self.watchlist.recall_distinct();
                let line = text_of_two("Failed to load watched markets: ", message.as_str());
                self.logs.record(LogLevel::Error, line.as_str());
            },
        }
    }

    /// Begins a search for the keyword.
    pub fn search_markets(&mut self, keyword: &str) -> (action: Action)
        ensures
            App::takes(*old(self), *final(self), action, old(self)@.begin_search(keyword@)),
    {
        let line = text_of_three("Searching markets: '", keyword, "'...");
        self.logs.record(LogLevel::Info, line.as_str());
        self.market_search_query = keyword.to_owned();
        self.is_loading_markets = true;
        self.current_tab = Tab::Markets;
        Action::Search { keyword: keyword.to_owned(), limit: SEARCH_LIMIT }
    }

    /// Begins the load of the trending markets.
    pub fn load_trending_markets(&mut self) -> (action: Action)
        ensures
            App::takes(*old(self), *final(self), action, old(self)@.begin_trending()),
    {
        self.logs.record(LogLevel::Info, "Loading trending markets...");
        self.market_search_query = "Trending".to_owned();
        self.is_loading_markets = true;
        self.current_tab = Tab::Markets;
        Action::LoadTrending { limit: TRENDING_LIMIT }
    }

    /// Ends a search with what the discovery service returned.
    pub fn search_completed(&mut self, result: Result<Vec<MarketInfo>, String>)
        ensures
            App::performs(
                *old(self),
                *final(self),
                old(self)@.search_done(
                    match result {
                        Ok(markets) => Ok(market_views(markets@)),
                        Err(message) => Err(message@),
                    },
                ),
            ),
            final(self).watchlist@ == old(self).watchlist@,
    {
        self.is_loading_markets = false;
        match result {
            Ok(markets) => {
                let count = decimal_text(markets.len() as u128);
                let line = text_of_three("Found ", count.as_str(), " markets");
                self.available_markets = markets;
                self.selected_market_index = 0;
                self.logs.record(LogLevel::Success, line.as_str());
            },
            Err(message) => {
                let line = text_of_two("Search failed: ", message.as_str());
                self.logs.record(LogLevel::Error, line.as_str());
            },
        }
    }

    /// Ends the load of the trending markets with what the discovery service
    /// returned.
    pub fn trending_completed(&mut self, result: Result<Vec<MarketInfo>, String>)
        ensures
            App::performs(
                *old(self),
                *final(self),
                old(self)@.trending_done(
                    match result {
                        Ok(markets) => Ok(market_views(markets@)),
                        Err(message) => Err(message@),
                    },
                ),
            ),
            final(self).watchlist@ == old(self).watchlist@,
    {
        self.is_loading_markets = false;
        match result {
            Ok(markets) => {
                let count = decimal_text(markets.len() as u128);
                let line = text_of_three("Loaded ", count.as_str(), " trending markets");
                self.available_markets = markets;
                self.selected_market_index = 0;
                self.logs.record(LogLevel::Success, line.as_str());
            },
            Err(message) => {
                let line = text_of_two("Failed to load trending: ", message.as_str());
                self.logs.record(LogLevel::Error, line.as_str());
            },
        }
    }

    /// Joins the market with the given number, counted from 1, in the list of
    /// found markets.
    pub fn join_numbered(&mut self, number: u128) -> (action: Action)
        ensures
            App::takes(*old(self), *final(self), action, old(self)@.join_numbered(number as int)),
            final(self).watchlist@ == old(self).watchlist@,
    {
        if 1 <= number && number <= self.available_markets.len() as u128 {
            let market = self.available_markets[(number - 1) as usize].clone();
            if self.watchlist.contains(market.id.as_str()) {
                self.logs.record(LogLevel::Warning, "Already monitoring this market");
                Action::Nothing
            } else {
                self.quiet();
                Action::Join { market }
            }
        } else {
            let given = decimal_text(number);
            let most = decimal_text(self.available_markets.len() as u128);
            let mut line = text_of_three("Invalid index: ", given.as_str(), ". Use 1-");
            line.append(most.as_str());
            self.logs.record(LogLevel::Warning, line.as_str());
            Action::Nothing
        }
    }

    /// Logs nothing; shows that the log extends itself by no line.
    fn quiet(&mut self)
        ensures
            App::performs(*old(self), *final(self), old(self)@.quiet()),
            *final(self) == *old(self),
    {
        self.logs.recall_capacity();
        proof {
            lemma_log_extends_nothing(self.logs@);
        }
    }

    /// Joins the market with the given id.
    pub fn join_by_id(&mut self, id: &str) -> (action: Action)
        ensures
            App::takes(*old(self), *final(self), action, old(self)@.join_by_id(id@)),
            final(self).watchlist@ == old(self).watchlist@,
    {
        if self.watchlist.contains(id) {
            self.logs.record(LogLevel::Warning, "Already monitoring this market");
            Action::Nothing
        } else {
            let market = match find_by_id(&self.available_markets, id) {
                Some(i) => self.available_markets[i].clone(),
                None => MarketInfo::placeholder(id),
            };
            self.quiet();
            Action::Join { market }
        }
    }

    /// Joins the market that the reference names: by its number in the list of
    /// found markets if the reference reads as a number, else by its id.
    pub fn join_market(&mut self, reference: &str) -> (action: Action)
        ensures
            App::takes(*old(self), *final(self), action, old(self)@.begin_join(reference@)),
            final(self).watchlist@ == old(self).watchlist@,
    {
        match parse_index(reference) {
            Some(number) => self.join_numbered(number as u128),
            None => self.join_by_id(reference),
        }
    }

    /// Ends a join with the answer of the store.
    pub fn join_completed(&mut self, market: MarketInfo, result: Result<(), String>)
        ensures
            App::performs(
                *old(self),
                *final(self),
                old(self)@.join_done(
                    market@,
                    match result {
                        Ok(_) => Ok(()),
                        Err(message) => Err(message@),
                    },
                ),
            ),
            distinct_ids(final(self).watchlist@),
    {
        match result {
            Err(message) => {
                self.watchlist.recall_distinct();
                let line = text_of_two("Failed to save market: ", message.as_str());
                self.logs.record(LogLevel::Error, line.as_str());
            },
            Ok(_) => {
                let mut joined = text_of_three(
                    "Joined market: ",
                    market.question.as_str(),
                    " (ID: ",
                );
                joined.append(market.id.as_str());
                joined.append(")");
                if self.watchlist.insert(market) {
                    self.logs.record(LogLevel::Success, joined.as_str());
                } else {
                    self.logs.record(LogLevel::Warning, "Already monitoring this market");
                }
            },
        }
    }

    /// Leaves the market with the given id.
    pub fn leave_market(&mut self, id: &str) -> (action: Action)
        ensures
            App::takes(*old(self), *final(self), action, old(self)@.begin_leave(id@)),
            final(self).watchlist@ == old(self).watchlist@,
    {
        if self.watchlist.contains(id) {
            self.quiet();
            Action::Leave { id: id.to_owned(), selected: false }
        } else {
            let line = text_of_two("Not monitoring market: ", id);
            self.logs.record(LogLevel::Warning, line.as_str());
            Action::Nothing
        }
    }

    /// Ends a leave with the answer of the store.
    pub fn leave_completed(&mut self, id: &str, selected: bool, result: Result<(), String>)
        ensures
            App::performs(
                *old(self),
                *final(self),
                old(self)@.leave_done(
                    id@,
                    selected,
                    match result {
                        Ok(_) => Ok(()),
                        Err(message) => Err(message@),
                    },
                ),
            ),
            distinct_ids(final(self).watchlist@),
    {
        match result {
            Err(message) => {
                let line = text_of_two("Failed to remove from DB: ", message.as_str());
                self.logs.record(LogLevel::Error, line.as_str());
            },
            Ok(_) => {
                if self.watchlist.remove(id) {
                    let line = text_of_two("Left market: ", id);
                    self.logs.record(LogLevel::Info, line.as_str());
                } else {
                    let line = text_of_two("Not monitoring market: ", id);
                    self.logs.record(LogLevel::Warning, line.as_str());
                }
            },
        }
        let watched = self.watchlist.len();
        if selected && self.selected_watched_market_index > 0 && self.selected_watched_market_index
            >= watched {
            self.selected_watched_market_index = if watched == 0 {
                0
            } else {
                watched - 1
            };
        }
    }

    /// Ends the cancelling of all orders with the answer of the engine.
    pub fn cancel_completed(&mut self, result: Result<usize, String>)
        ensures
            App::performs(
                *old(self),
                *final(self),
                old(self)@.cancel_done(
                    match result {
                        Ok(count) => Ok(count),
                        Err(message) => Err(message@),
                    },
                ),
            ),
            final(self).watchlist@ == old(self).watchlist@,
    {
        self.is_paused = true;
        match result {
            Ok(count) => {
                let number = decimal_text(count as u128);
                let line = text_of_three("Cancelled ", number.as_str(), " orders");
                self.say_two(
                    LogLevel::Error,
                    line.as_str(),
                    LogLevel::Error,
                    "Bot is now PAUSED",
                );
            },
            Err(message) => {
                let line = text_of_two("Panic error: ", message.as_str());
                self.logs.record(LogLevel::Error, line.as_str());
            },
        }
    }

    /// Finishes an action with what came of it.
    pub fn complete(&mut self, action: Action, outcome: Outcome)
        ensures
            App::performs(*old(self), *final(self), old(self)@.complete(action@, outcome@)),
            distinct_ids(final(self).watchlist@),
    {
        match (action, outcome) {
            (Action::Search { keyword, limit }, Outcome::Markets(result)) => {
                self.search_completed(result);
                self.watchlist.recall_distinct();
            },
            (Action::LoadTrending { limit }, Outcome::Markets(result)) => {
                self.trending_completed(result);
                self.watchlist.recall_distinct();
            },
            (Action::Join { market }, Outcome::Stored(result)) => {
                self.join_completed(market, result);
            },
            (Action::Leave { id, selected }, Outcome::Stored(result)) => {
                self.leave_completed(id.as_str(), selected, result);
            },
            (Action::CancelAll, Outcome::Cancelled(result)) => {
                self.cancel_completed(result);
                self.watchlist.recall_distinct();
            },
            _ => {
                self.quiet();
                self.watchlist.recall_distinct();
            },
        }
    }

    /// Logs the list of commands.
    pub fn show_command_help(&mut self)
        ensures
            App::performs(*old(self), *final(self), old(self)@.say_all(command_help_lines())),
    {
        self.say_all(
            LogLevel::Info,
            [
                "─── Available Commands ───",
                "/search <keyword>  - Search markets",
                "/trending          - Show trending markets",
                "/joinmarket <id|#> - Join market by ID or index",
                "/leavemarket <id>  - Leave a market",
                "/help              - Show this help",
            ].as_slice(),
            Ghost(command_help_lines()),
        );
    }

    /// Logs the list of keys.
    fn show_shortcut_help(&mut self)
        ensures
            App::performs(*old(self), *final(self), old(self)@.say_all(shortcut_help_lines())),
    {
        self.say_all(
            LogLevel::Info,
            [
                "─── Keyboard Shortcuts ───",
                ":        : Enter command mode",
                "S        : Quick search markets",
                "T        : Load trending markets",
                "Tab/←/→  : Navigate tabs",
                "↑/↓      : Navigate markets list",
                "Enter    : Join selected market",
                "P        : Pause bot",
                "R        : Resume bot",
                "!        : PANIC mode",
                "Q        : Quit",
            ].as_slice(),
            Ghost(shortcut_help_lines()),
        );
    }

    /// Does what a command asks for.
    pub fn run_command(&mut self, command: Command) -> (action: Action)
        ensures
            App::takes(*old(self), *final(self), action, old(self)@.run_command(command@)),
            final(self).watchlist@ == old(self).watchlist@,
    {
        match command {
            Command::Empty => {
                self.quiet();
                Action::Nothing
            },
            Command::Search(keyword) => self.search_markets(keyword.as_str()),
            Command::Join(reference) => self.join_market(reference.as_str()),
            Command::Leave(id) => self.leave_market(id.as_str()),
            Command::Trending => self.load_trending_markets(),
            Command::Help => {
                self.show_command_help();
                Action::Nothing
            },
            Command::MissingArgument(verb) => {
                let usage = match verb {
                    Verb::Search => "Usage: /search <keyword>",
                    Verb::Join => "Usage: /joinmarket <market_id or index>",
                    Verb::Leave => "Usage: /leavemarket <market_id>",
                    Verb::Trending => "Usage: /trending",
                    Verb::Help => "Usage: /help",
                };
                self.logs.record(LogLevel::Warning, usage);
                Action::Nothing
            },
            Command::Unknown(word) => {
                let line = text_of_two("Unknown command: ", word.as_str());
                self.say_two(
                    LogLevel::Warning,
                    line.as_str(),
                    LogLevel::Info,
                    "Type /help for available commands",
                );
                Action::Nothing
            },
        }
    }

    /// Reads a command line and does what it asks for.
    pub fn execute_command(&mut self, line: &str) -> (action: Action)
        ensures
            App::takes(*old(self), *final(self), action, old(self)@.execute_command(line@)),
            final(self).watchlist@ == old(self).watchlist@,
    {
        let command = parse(line);
        self.run_command(command)
    }

    /// A key while a command line is edited.
    fn handle_command_input(&mut self, event: KeyEvent) -> (action: Action)
        requires
            old(self).input_mode is Command,
        ensures
            App::takes(
                *old(self),
                *final(self),
                action,
                old(self)@.on_command_key(old(self).input_mode->Command_0@, event.code),
            ),
            final(self).watchlist@ == old(self).watchlist@,
    {
        match event.code {
            KeyCode::Enter => {
                let mut mode = InputMode::Normal;
                std::mem::swap(&mut mode, &mut self.input_mode);
                match mode {
                    InputMode::Command(line) => self.execute_command(line.as_str()),
                    _ => Action::Nothing,
                }
            },
            KeyCode::Esc => {
                self.input_mode = InputMode::Normal;
                self.quiet();
                Action::Nothing
            },
            KeyCode::Backspace => {
                match &mut self.input_mode {
                    InputMode::Command(line) => {
                        line.pop();
                    },
                    _ => {},
                }
                self.quiet();
                Action::Nothing
            },
            KeyCode::Char(c) => {
                match &mut self.input_mode {
                    InputMode::Command(line) => {
                        line.push(c);
                    },
                    _ => {},
                }
                self.quiet();
                Action::Nothing
            },
            _ => {
                self.quiet();
                Action::Nothing
            },
        }
    }

    /// A key while the quit dialog is open.
    fn handle_quit_confirmation(&mut self, event: KeyEvent) -> (action: Action)
        requires
            old(self).input_mode is QuitConfirmation,
        ensures
            App::takes(
                *old(self),
                *final(self),
                action,
                old(self)@.on_quit_key(old(self).input_mode->QuitConfirmation_0, event.code),
            ),
            final(self).watchlist@ == old(self).watchlist@,
    {
        let selection = match self.input_mode {
            InputMode::QuitConfirmation(selection) => selection,
            _ => QuitSelection::No,
        };
        match event.code {
            KeyCode::Left | KeyCode::Right | KeyCode::Tab | KeyCode::BackTab => {
                self.input_mode = InputMode::QuitConfirmation(selection.toggle());
            },
            KeyCode::Enter => {
                if selection == QuitSelection::Yes {
                    self.should_quit = true;
                }
                self.input_mode = InputMode::Normal;
            },
            KeyCode::Esc => {
                self.input_mode = InputMode::Normal;
            },
            _ => {},
        }
        self.quiet();
        Action::Nothing
    }

    /// A key while the leave dialog is open.
    fn handle_leave_confirmation(&mut self, event: KeyEvent) -> (action: Action)
        requires
            old(self).input_mode is LeaveMarketConfirmation,
        ensures
            App::takes(
                *old(self),
                *final(self),
                action,
                old(self)@.on_leave_key(
                    old(self).input_mode->LeaveMarketConfirmation_0,
                    event.code,
                ),
            ),
            final(self).watchlist@ == old(self).watchlist@,
    {
        let selection = match self.input_mode {
            InputMode::LeaveMarketConfirmation(selection) => selection,
            _ => LeaveSelection::No,
        };
        match event.code {
            KeyCode::Left | KeyCode::Right | KeyCode::Tab | KeyCode::BackTab => {
                self.input_mode = InputMode::LeaveMarketConfirmation(selection.toggle());
                self.quiet();
                Action::Nothing
            },
            KeyCode::Enter => {
                self.input_mode = InputMode::Normal;
                self.quiet();
                if selection == LeaveSelection::Yes {
                    match self.watchlist.get(self.selected_watched_market_index) {
                        Some(market) => Action::Leave { id: market.id.clone(), selected: true },
                        None => Action::Nothing,
                    }
                } else {
                    Action::Nothing
                }
            },
            KeyCode::Esc => {
                self.input_mode = InputMode::Normal;
                self.quiet();
                Action::Nothing
            },
            _ => {
                self.quiet();
                Action::Nothing
            },
        }
    }

    /// The tab that a digit key selects.
    fn digit_tab(c: char) -> (tab: Option<Tab>)
        ensures
            tab == crate::model::tab_for_digit(c),
    {
        if c == '1' {
            Some(Tab::Dashboard)
        } else if c == '2' {
            Some(Tab::Orders)
        } else if c == '3' {
            Some(Tab::Markets)
        } else if c == '4' {
            Some(Tab::MarketDetail)
        } else if c == '5' {
            Some(Tab::Logs)
        } else if c == '6' {
            Some(Tab::Docs)
        } else {
            None
        }
    }

    /// How far a section of the documentation scrolls.
    fn max_scroll(section: usize) -> (lines: u16)
        ensures
            lines == crate::model::doc_max_scroll(section),
    {
        let count: u16 = if section == 0 {
            38
        } else if section == 1 {
            37
        } else if section == 2 {
            40
        } else if section == 3 {
            35
        } else if section == 4 {
            38
        } else {
            30
        };
        count - 10
    }

    /// A key in normal mode on the documentation tab.
    fn handle_docs_input(&mut self, event: KeyEvent) -> (action: Action)
        requires
            old(self).input_mode is Normal,
        ensures
            App::takes(
                *old(self),
                *final(self),
                action,
                old(self)@.on_docs_key(event.code, event.control),
            ),
            final(self).watchlist@ == old(self).watchlist@,
    {
        match event.code {
            KeyCode::Up | KeyCode::Char('k') => {
                if self.docs_viewing_content {
                    if self.docs_scroll_offset > 0 {
                        self.docs_scroll_offset = self.docs_scroll_offset - 1;
                    }
                } else if self.docs_selected_section > 0 {
                    self.docs_selected_section = self.docs_selected_section - 1;
                }
            },
            KeyCode::Down | KeyCode::Char('j') => {
                if self.docs_viewing_content {
                    if self.docs_scroll_offset < App::max_scroll(self.docs_selected_section) {
                        self.docs_scroll_offset = self.docs_scroll_offset + 1;
                    }
                } else if self.docs_selected_section < DOC_SECTIONS - 1 {
                    self.docs_selected_section = self.docs_selected_section + 1;
                }
            },
            KeyCode::Enter => {
                if !self.docs_viewing_content {
                    self.docs_viewing_content = true;
                    self.docs_scroll_offset = 0;
                }
            },
            KeyCode::Backspace | KeyCode::Left | KeyCode::Esc => {
                if self.docs_viewing_content {
                    self.docs_viewing_content = false;
                    self.docs_scroll_offset = 0;
                } else {
                    self.current_tab = self.current_tab.prev();
                }
            },
            KeyCode::Right | KeyCode::Tab => {
                if !self.docs_viewing_content {
                    self.current_tab = self.current_tab.next();
                }
            },
            KeyCode::Char(c) => {
                if c == 'q' || c == 'Q' {
                    self.input_mode = InputMode::QuitConfirmation(QuitSelection::No);
                } else if let Some(tab) = App::digit_tab(c) {
                    self.current_tab = tab;
                } else if c == 'c' && event.control {
                    self.should_quit = true;
                }
            },
            _ => {},
        }
        self.quiet();
        Action::Nothing
    }

    /// A key in normal mode on any tab but the documentation tab.
    fn handle_normal_input(&mut self, event: KeyEvent) -> (action: Action)
        requires
            old(self).input_mode is Normal,
        ensures
            App::takes(
                *old(self),
                *final(self),
                action,
                old(self)@.on_normal_key(event.code, event.control),
            ),
            final(self).watchlist@ == old(self).watchlist@,
    {
        match event.code {
            KeyCode::Up => {
                self.select_previous();
                self.quiet();
                Action::Nothing
            },
            KeyCode::Down => {
                self.select_next();
                self.quiet();
                Action::Nothing
            },
            KeyCode::Enter => {
                if self.current_tab == Tab::Markets && self.available_markets.len() > 0 {
                    self.join_numbered(self.selected_market_index as u128 + 1)
                } else {
                    self.quiet();
                    Action::Nothing
                }
            },
            KeyCode::Delete | KeyCode::Backspace => {
                if self.current_tab == Tab::MarketDetail && !self.watchlist.is_empty() {
                    self.input_mode = InputMode::LeaveMarketConfirmation(LeaveSelection::No);
                }
                self.quiet();
                Action::Nothing
            },
            KeyCode::Tab | KeyCode::Right => {
                self.current_tab = self.current_tab.next();
                self.quiet();
                Action::Nothing
            },
            KeyCode::BackTab | KeyCode::Left => {
                self.current_tab = self.current_tab.prev();
                self.quiet();
                Action::Nothing
            },
            KeyCode::Char(c) => self.handle_normal_char(c, event.control),
            _ => {
                self.quiet();
                Action::Nothing
            },
        }
    }

    /// A character key in normal mode on any tab but the documentation tab.
    fn handle_normal_char(&mut self, c: char, control: bool) -> (action: Action)
        requires
            old(self).input_mode is Normal,
        ensures
            App::takes(
                *old(self),
                *final(self),
                action,
                old(self)@.on_normal_key(KeyCode::Char(c), control),
            ),
            final(self).watchlist@ == old(self).watchlist@,
    {
        if c == ':' || c == '/' {
            self.input_mode = InputMode::Command(String::new());
            self.quiet();
            Action::Nothing
        } else if c == 's' || c == 'S' {
            self.input_mode = InputMode::Command("/search ".to_owned());
            self.current_tab = Tab::Markets;
            self.quiet();
            Action::Nothing
        } else if c == 't' || c == 'T' {
            self.load_trending_markets()
        } else if c == 'k' {
            self.select_previous();
            self.quiet();
            Action::Nothing
        } else if c == 'j' {
            self.select_next();
            self.quiet();
            Action::Nothing
        } else if c == 'q' || c == 'Q' {
            self.input_mode = InputMode::QuitConfirmation(QuitSelection::No);
            self.quiet();
            Action::Nothing
        } else if let Some(tab) = App::digit_tab(c) {
            self.current_tab = tab;
            self.quiet();
            Action::Nothing
        } else if c == 'p' || c == 'P' {
            self.is_paused = true;
            self.logs.record(LogLevel::Warning, "Bot PAUSED - trading disabled");
            Action::Pause
        } else if c == 'r' || c == 'R' {
            self.is_paused = false;
            self.logs.record(LogLevel::Success, "Bot RESUMED - trading enabled");
            Action::Resume
        } else if c == '!' {
            self.logs.record(LogLevel::Error, "🚨 PANIC MODE ACTIVATED");
            Action::CancelAll
        } else if c == 'e' || c == 'E' {
            self.logs.record(LogLevel::Info, "Export feature coming soon...");
            Action::Nothing
        } else if c == 'h' || c == 'H' {
            self.show_shortcut_help();
            Action::Nothing
        } else if c == 'c' && control {
            self.should_quit = true;
            self.quiet();
            Action::Nothing
        } else {
            self.quiet();
            Action::Nothing
        }
    }

    /// Moves the selection up by one in the list that the tab shows.
    fn select_previous(&mut self)
        ensures
            final(self)@ == old(self)@.move_up(),
            final(self).logs@ == old(self).logs@,
    {
        if self.current_tab == Tab::Markets && self.selected_market_index > 0 {
            self.selected_market_index = self.selected_market_index - 1;
        } else if self.current_tab == Tab::MarketDetail && self.selected_watched_market_index > 0 {
            self.selected_watched_market_index = self.selected_watched_market_index - 1;
        }
    }

    /// Moves the selection down by one in the list that the tab shows.
    fn select_next(&mut self)
        ensures
            final(self)@ == old(self)@.move_down(),
            final(self).logs@ == old(self).logs@,
    {
        if self.current_tab == Tab::Markets && self.available_markets.len() > 0
            && self.selected_market_index < self.available_markets.len() - 1 {
            self.selected_market_index = self.selected_market_index + 1;
        } else if self.current_tab == Tab::MarketDetail && self.watchlist.len() > 0
            && self.selected_watched_market_index < self.watchlist.len() - 1 {
            self.selected_watched_market_index = self.selected_watched_market_index + 1;
        }
    }

    /// Handles one key: the mode decides who reads it. What is left to do
    /// outside the dashboard comes back as an action, to be finished by
    /// `complete`.
    pub fn handle_event(&mut self, event: KeyEvent) -> (action: Action)
        ensures
            App::takes(*old(self), *final(self), action, old(self)@.on_key(event)),
            final(self).watchlist@ == old(self).watchlist@,
            distinct_ids(final(self).watchlist@),
    {
        self.watchlist.recall_distinct();
        match &self.input_mode {
            InputMode::Command(_) => self.handle_command_input(event),
            InputMode::QuitConfirmation(_) => self.handle_quit_confirmation(event),
            InputMode::LeaveMarketConfirmation(_) => self.handle_leave_confirmation(event),
            InputMode::Normal => if self.current_tab == Tab::Docs {
                self.handle_docs_input(event)
            } else {
                self.handle_normal_input(event)
            },
        }
    }
}

} // verus!
