//! The state of the dashboard, the actions that it asks of its driver, and the
//! outcomes that the driver reports back.
//!
//! The dashboard itself does no input or output. Handling a key may leave an
//! [`Action`] for the driver: a search, a write to the store, a call of the
//! execution engine. The driver performs it and hands the [`Outcome`] to
//! `App::complete`, which finishes what the key began.

use vstd::prelude::*;
use crate::logs::{LogBuffer, LogLine};
use crate::markets::{market_views, MarketInfo, MarketInfoView};
use crate::tab::Tab;
use crate::watchlist::Watchlist;

verus! {

/// The choice in the dialog that asks whether to quit. It starts at `No`.
#[derive(Debug, Clone, Copy, PartialEq, Eq, Structural)]
pub enum QuitSelection {
    No,
    Yes,
}

/// The choice in the dialog that asks whether to leave a market. It starts at `No`.
#[derive(Debug, Clone, Copy, PartialEq, Eq, Structural)]
pub enum LeaveSelection {
    No,
    Yes,
}

impl Default for QuitSelection {
    /// The choice that a dialog opens with: no.
    fn default() -> (r: QuitSelection)
        ensures
            r == QuitSelection::No,
    {
        QuitSelection::No
    }
}

impl Default for LeaveSelection {
    /// The choice that a dialog opens with: no.
    fn default() -> (r: LeaveSelection)
        ensures
            r == LeaveSelection::No,
    {
        LeaveSelection::No
    }
}

impl QuitSelection {
    /// The other of the two choices.
    pub open spec fn flipped(self) -> QuitSelection {
        match self {
            QuitSelection::No => QuitSelection::Yes,
            QuitSelection::Yes => QuitSelection::No,
        }
    }

    /// The other of the two choices.
    pub fn toggle(self) -> (r: QuitSelection)
        ensures
            r == self.flipped(),
    {
        match self {
            QuitSelection::No => QuitSelection::Yes,
            QuitSelection::Yes => QuitSelection::No,
        }
    }
}

impl LeaveSelection {
    /// The other of the two choices.
    pub open spec fn flipped(self) -> LeaveSelection {
        match self {
            LeaveSelection::No => LeaveSelection::Yes,
            LeaveSelection::Yes => LeaveSelection::No,
        }
    }

    /// The other of the two choices.
    pub fn toggle(self) -> (r: LeaveSelection)
        ensures
            r == self.flipped(),
    {
        match self {
            LeaveSelection::No => LeaveSelection::Yes,
            LeaveSelection::Yes => LeaveSelection::No,
        }
    }
}

/// What the keyboard is used for at the moment. Exactly one mode is active.
#[derive(Debug)]
pub enum InputMode {
    /// Keys navigate and trigger actions.
    Normal,
    /// Keys edit the command line held here.
    Command(String),
    /// The dialog that asks whether to quit is open.
    QuitConfirmation(QuitSelection),
    /// The dialog that asks whether to leave the selected market is open.
    LeaveMarketConfirmation(LeaveSelection),
}

/// What an `InputMode` holds, as plain values.
pub enum InputModeView {
    Normal,
    Command(Seq<char>),
    QuitConfirmation(QuitSelection),
    LeaveMarketConfirmation(LeaveSelection),
}

impl View for InputMode {
    type V = InputModeView;

    open spec fn view(&self) -> InputModeView {
        match self {
            InputMode::Normal => InputModeView::Normal,
            InputMode::Command(line) => InputModeView::Command(line@),
            InputMode::QuitConfirmation(selection) => InputModeView::QuitConfirmation(*selection),
            InputMode::LeaveMarketConfirmation(selection) => InputModeView::LeaveMarketConfirmation(
                *selection,
            ),
        }
    }
}

/// Work that the dashboard asks of its driver.
#[derive(Debug)]
pub enum Action {
    /// Nothing to do.
    Nothing,
    /// Ask the discovery service for markets that match the keyword.
    Search { keyword: String, limit: usize },
    /// Ask the discovery service for the trending markets.
    LoadTrending { limit: usize },
    /// Write the market to the store of watched markets.
    Join { market: MarketInfo },
    /// Mark the market as left in the store of watched markets. `selected` says
    /// that the market was picked in the list of watched markets.
    Leave { id: String, selected: bool },
    /// Tell the execution engine to pause.
    Pause,
    /// Tell the execution engine to resume.
    Resume,
    /// Tell the execution engine to cancel all orders.
    CancelAll,
}

/// What an `Action` holds, as plain values.
pub enum ActionView {
    Nothing,
    Search { keyword: Seq<char>, limit: usize },
    LoadTrending { limit: usize },
    Join { market: MarketInfoView },
    Leave { id: Seq<char>, selected: bool },
    Pause,
    Resume,
    CancelAll,
}

impl View for Action {
    type V = ActionView;

    open spec fn view(&self) -> ActionView {
        match self {
            Action::Nothing => ActionView::Nothing,
            Action::Search { keyword, limit } => ActionView::Search {
                keyword: keyword@,
                limit: *limit,
            },
            Action::LoadTrending { limit } => ActionView::LoadTrending { limit: *limit },
            Action::Join { market } => ActionView::Join { market: market@ },
            Action::Leave { id, selected } => ActionView::Leave { id: id@, selected: *selected },
            Action::Pause => ActionView::Pause,
            Action::Resume => ActionView::Resume,
            Action::CancelAll => ActionView::CancelAll,
        }
    }
}

/// What came of an action. A failure carries the collaborator's message.
#[derive(Debug)]
pub enum Outcome {
    /// The action needs no answer.
    Done,
    /// The answer of the discovery service.
    Markets(Result<Vec<MarketInfo>, String>),
    /// The answer of the store.
    Stored(Result<(), String>),
    /// The answer of the execution engine to a request to cancel all orders: how
    /// many it cancelled.
    Cancelled(Result<usize, String>),
}

/// What an `Outcome` holds, as plain values.
pub enum OutcomeView {
    Done,
    Markets(Result<Seq<MarketInfoView>, Seq<char>>),
    Stored(Result<(), Seq<char>>),
    Cancelled(Result<usize, Seq<char>>),
}

impl View for Outcome {
    type V = OutcomeView;

    open spec fn view(&self) -> OutcomeView {
        match self {
            Outcome::Done => OutcomeView::Done,
            Outcome::Markets(Ok(list)) => OutcomeView::Markets(Ok(market_views(list@))),
            Outcome::Markets(Err(message)) => OutcomeView::Markets(Err(message@)),
            Outcome::Stored(Ok(())) => OutcomeView::Stored(Ok(())),
            Outcome::Stored(Err(message)) => OutcomeView::Stored(Err(message@)),
            Outcome::Cancelled(Ok(count)) => OutcomeView::Cancelled(Ok(*count)),
            Outcome::Cancelled(Err(message)) => OutcomeView::Cancelled(Err(message@)),
        }
    }
}

/// What the driver does once a key, if there was one, has been handled.
#[derive(Debug, Clone, Copy, PartialEq, Eq, Structural)]
pub enum NextStep {
    /// The operator has asked to quit: the driver stops.
    Stop,
    /// The engine's state is to be read again, then the driver goes on.
    Refresh,
    /// The driver goes on to the next key.
    Wait,
}

/// The state of the dashboard.
pub struct App {
    pub current_tab: Tab,
    /// Set once the operator has asked to quit; the driver then stops.
    pub should_quit: bool,
    pub logs: LogBuffer,
    pub is_paused: bool,
    pub last_order_id: Option<String>,
    /// When the engine's state was last read, in milliseconds on the driver's clock.
    pub last_refresh: u64,
    pub input_mode: InputMode,
    /// The markets that the last search found.
    pub available_markets: Vec<MarketInfo>,
    pub watchlist: Watchlist,
    pub market_search_query: String,
    pub selected_market_index: usize,
    pub selected_watched_market_index: usize,
    /// Set while a search is under way.
    pub is_loading_markets: bool,
    pub docs_selected_section: usize,
    pub docs_viewing_content: bool,
    pub docs_scroll_offset: u16,
}

/// The state of the dashboard as plain values, without the log.
pub struct AppView {
    pub current_tab: Tab,
    pub should_quit: bool,
    pub is_paused: bool,
    pub last_order_id: Option<Seq<char>>,
    pub last_refresh: u64,
    pub input_mode: InputModeView,
    pub available_markets: Seq<MarketInfoView>,
    pub watchlist: Seq<MarketInfoView>,
    pub market_search_query: Seq<char>,
    pub selected_market_index: usize,
    pub selected_watched_market_index: usize,
    pub is_loading_markets: bool,
    pub docs_selected_section: usize,
    pub docs_viewing_content: bool,
    pub docs_scroll_offset: u16,
}

impl View for App {
    type V = AppView;

    open spec fn view(&self) -> AppView {
        AppView {
            current_tab: self.current_tab,
            should_quit: self.should_quit,
            is_paused: self.is_paused,
            last_order_id: match self.last_order_id {
                Some(id) => Some(id@),
                None => None,
            },
            last_refresh: self.last_refresh,
            input_mode: self.input_mode@,
            available_markets: market_views(self.available_markets@),
            watchlist: self.watchlist@,
            market_search_query: self.market_search_query@,
            selected_market_index: self.selected_market_index,
            selected_watched_market_index: self.selected_watched_market_index,
            is_loading_markets: self.is_loading_markets,
            docs_selected_section: self.docs_selected_section,
            docs_viewing_content: self.docs_viewing_content,
            docs_scroll_offset: self.docs_scroll_offset,
        }
    }
}

/// What one step of the dashboard does: the state after it, the lines that it
/// adds to the log, and the action that it leaves for the driver.
pub struct Step {
    pub state: AppView,
    pub lines: Seq<LogLine>,
    pub action: ActionView,
}

} // verus!
