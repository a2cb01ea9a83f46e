//! What holds of the dashboard's state machine in every state and for every
//! input, proved from the definitions in [`crate::model`].

use vstd::prelude::*;
use crate::keys::{KeyCode, KeyEvent};
use crate::logs::{log_extends, LogEntryView, LogLine, LOG_CAPACITY};
use crate::markets::MarketInfoView;
use crate::model::{is_toggle_key, success, warning};
use crate::state::{
    ActionView, AppView, InputModeView, LeaveSelection, NextStep, OutcomeView, QuitSelection, Step,
};
use crate::tab::Tab;
use crate::watchlist::{
    contains_id, distinct_ids, lemma_distinct_kept, lemma_first_of_each_id, with_entry, without_id,
};

verus! {

/// One thing that happens to the dashboard.
pub enum Input {
    /// A key was pressed.
    Key(KeyEvent),
    /// An action came to its end.
    Completion(ActionView, OutcomeView),
    /// The store answered the request for the watched markets.
    Loaded(Result<Seq<MarketInfoView>, Seq<char>>),
}

/// The step that an input makes.
pub open spec fn step_of(state: AppView, input: Input) -> Step {
    match input {
        Input::Key(event) => state.on_key(event),
        Input::Completion(action, outcome) => state.complete(action, outcome),
        Input::Loaded(result) => state.watched_loaded(result),
    }
}

/// The state after a run of inputs.
pub open spec fn run(state: AppView, inputs: Seq<Input>) -> AppView
    decreases inputs.len(),
{
    if inputs.len() == 0 {
        state
    } else {
        step_of(run(state, inputs.drop_last()), inputs.last()).state
    }
}

/// No key changes the watchlist: only the end of a join or of a leave, and the
/// load of the watched markets, do.
pub proof fn lemma_keys_keep_watchlist(state: AppView, event: KeyEvent)
    ensures
        state.on_key(event).state.watchlist == state.watchlist,
{
}

/// No input brings a second entry with an id into the watchlist.
pub proof fn lemma_step_keeps_ids_distinct(state: AppView, input: Input)
    requires
        distinct_ids(state.watchlist),
    ensures
        distinct_ids(step_of(state, input).state.watchlist),
{
    match input {
        Input::Key(event) => {
            lemma_keys_keep_watchlist(state, event);
        },
        Input::Completion(action, outcome) => {
            match (action, outcome) {
                (ActionView::Join { market }, OutcomeView::Stored(result)) => {
                    lemma_distinct_kept(state.watchlist, market, market.id);
                },
                (ActionView::Leave { id, selected }, OutcomeView::Stored(result)) => {
                    lemma_distinct_kept(state.watchlist, MarketInfoView::placeholder(id), id);
                },
                _ => {},
            }
        },
        Input::Loaded(result) => {
            if let Ok(markets) = result {
                lemma_first_of_each_id(markets);
            }
        },
    }
}

/// Whatever happens to the dashboard from its start on, and in whatever order,
/// the watchlist never holds two entries with the same id.
pub proof fn lemma_watchlist_never_holds_an_id_twice(now_ms: u64, inputs: Seq<Input>)
    ensures
        distinct_ids(run(AppView::initial(now_ms), inputs).watchlist),
    decreases inputs.len(),
{
    if inputs.len() > 0 {
        lemma_watchlist_never_holds_an_id_twice(now_ms, inputs.drop_last());
        lemma_step_keeps_ids_distinct(
            run(AppView::initial(now_ms), inputs.drop_last()),
            inputs.last(),
        );
    }
}

/// A reference that reads as a number is the number of a found market and is
/// never looked up as an id, also where a watched or a found market has that
/// very id.
pub proof fn lemma_numbers_come_first(state: AppView, reference: Seq<char>)
    ensures
        AppView::reference_number(reference) matches Some(number) ==> state.begin_join(reference)
            == state.join_numbered(number),
        AppView::reference_number(reference).is_none() ==> state.begin_join(reference)
            == state.join_by_id(reference),
{
}

/// Joining a market that is watched already changes nothing and logs exactly
/// one warning, whether the market is named by its id, where the id does not
/// read as a number, or by its number in the list of found markets, and also
/// where the store is asked for it all the same.
pub proof fn lemma_join_of_watched_market(
    state: AppView,
    id: Seq<char>,
    number: int,
    market: MarketInfoView,
)
    ensures
        contains_id(state.watchlist, id) && AppView::reference_number(id).is_none()
            ==> state.begin_join(id) == state.say(warning("Already monitoring this market"@)),
        1 <= number <= state.available_markets.len() && contains_id(
            state.watchlist,
            state.available_markets[number - 1].id,
        ) ==> state.join_numbered(number) == state.say(
            warning("Already monitoring this market"@),
        ),
        contains_id(state.watchlist, market.id) ==> state.join_done(market, Ok(())) == state.say(
            warning("Already monitoring this market"@),
        ),
{
}

/// A join that the store accepts appends the market to the watchlist, which
/// grows by one, and logs one line, a success that names the market's question
/// and its id; unless the market is watched already. A join that the store
/// refuses leaves the watchlist as it is.
pub proof fn lemma_join_appends(
    state: AppView,
    market: MarketInfoView,
    result: Result<(), Seq<char>>,
)
    ensures
        state.join_done(market, result).state.watchlist == if result.is_ok() {
            with_entry(state.watchlist, market)
        } else {
            state.watchlist
        },
        result.is_ok() && !contains_id(state.watchlist, market.id) ==> {
            &&& state.join_done(market, result).state.watchlist.len() == state.watchlist.len() + 1
            &&& state.join_done(market, result).lines == seq![
                success("Joined market: "@ + market.question + " (ID: "@ + market.id + ")"@),
            ]
        },
        state.join_done(market, result).action == ActionView::Nothing,
{
}

/// Leaving a market that is not watched changes nothing, asks nothing of the
/// store and logs exactly one warning. Leaving a watched market asks the store
/// once for its removal and logs nothing yet; when the store has removed it,
/// the watchlist is shorter by one and, its ids being distinct, holds the
/// market no more.
pub proof fn lemma_leave(state: AppView, id: Seq<char>, selected: bool)
    ensures
        !contains_id(state.watchlist, id) ==> state.begin_leave(id) == state.say(
            warning("Not monitoring market: "@ + id),
        ),
        contains_id(state.watchlist, id) ==> state.begin_leave(id) == (Step {
            state,
            lines: Seq::empty(),
            action: ActionView::Leave { id, selected: false },
        }),
        state.leave_done(id, selected, Ok(())).state.watchlist == without_id(state.watchlist, id),
        contains_id(state.watchlist, id) ==> state.leave_done(
            id,
            selected,
            Ok(()),
        ).state.watchlist.len() == state.watchlist.len() - 1,
        contains_id(state.watchlist, id) ==> state.leave_done(id, selected, Ok(())).lines.len()
            == 1,
        distinct_ids(state.watchlist) ==> !contains_id(
            state.leave_done(id, selected, Ok(())).state.watchlist,
            id,
        ),
        forall|message: Seq<char>|
            (#[trigger] state.leave_done(id, selected, Err(message))).state.watchlist
                == state.watchlist,
{
    crate::watchlist::lemma_position_of(state.watchlist, id);
    if distinct_ids(state.watchlist) {
        lemma_distinct_kept(state.watchlist, MarketInfoView::placeholder(id), id);
    }
}

/// A log below its capacity that takes one line grows by exactly that line.
pub proof fn lemma_one_line_more(before: Seq<LogEntryView>, after: Seq<LogEntryView>, line: LogLine)
    requires
        before.len() < LOG_CAPACITY,
        log_extends(before, after, seq![line]),
    ensures
        after.len() == before.len() + 1,
        after.drop_last() == before,
        after.last().line() == line,
        crate::clock::is_time_of_day(after.last().timestamp),
{
    assert(after.drop_last() =~= before);
}

/// In normal mode the quit key opens the quit dialog on any tab, with the
/// choice at no, and does nothing else.
pub proof fn lemma_quit_key_opens_dialog(state: AppView, event: KeyEvent)
    requires
        state.input_mode == InputModeView::Normal,
        event.code == KeyCode::Char('q') || event.code == KeyCode::Char('Q'),
    ensures
        state.on_key(event) == (AppView {
            input_mode: InputModeView::QuitConfirmation(QuitSelection::No),
            ..state
        }).quiet(),
{
}

/// In the quit dialog a toggle key flips the choice and nothing else; Esc
/// closes the dialog and changes nothing else; Enter closes it and sets the
/// quit flag exactly when the choice is yes.
pub proof fn lemma_quit_dialog(state: AppView, selection: QuitSelection, event: KeyEvent)
    requires
        state.input_mode == InputModeView::QuitConfirmation(selection),
    ensures
        is_toggle_key(event.code) ==> state.on_key(event) == (AppView {
            input_mode: InputModeView::QuitConfirmation(selection.flipped()),
            ..state
        }).quiet(),
        event.code == KeyCode::Esc ==> state.on_key(event) == (AppView {
            input_mode: InputModeView::Normal,
            ..state
        }).quiet(),
        event.code == KeyCode::Enter ==> state.on_key(event) == (AppView {
            input_mode: InputModeView::Normal,
            should_quit: state.should_quit || selection == QuitSelection::Yes,
            ..state
        }).quiet(),
        !is_toggle_key(event.code) && event.code != KeyCode::Esc && event.code != KeyCode::Enter
            ==> state.on_key(event) == state.quiet(),
{
}

/// From normal mode the quit key, one toggle and Enter set the quit flag; the
/// quit key and Esc, or the quit key and Enter, lead back to the same state.
pub proof fn lemma_quit_needs_toggle(
    state: AppView,
    quit: KeyEvent,
    toggle: KeyEvent,
    enter: KeyEvent,
    esc: KeyEvent,
)
    requires
        state.input_mode == InputModeView::Normal,
        quit.code == KeyCode::Char('q') || quit.code == KeyCode::Char('Q'),
        is_toggle_key(toggle.code),
        enter.code == KeyCode::Enter,
        esc.code == KeyCode::Esc,
    ensures
        state.on_key(quit).state.on_key(toggle).state.on_key(enter).state == (AppView {
            should_quit: true,
            ..state
        }),
        state.on_key(quit).state.on_key(esc).state == state,
        state.on_key(quit).state.on_key(enter).state == state,
{
}

/// The quit flag, once set, stays set.
pub proof fn lemma_quit_flag_stays(state: AppView, input: Input)
    requires
        state.should_quit,
    ensures
        step_of(state, input).state.should_quit,
{
}

/// Once the quit flag is set the driver stops, whatever the time; and the
/// engine's state is read again only when at least the refresh interval has
/// passed since it was last read.
pub proof fn lemma_driver_stops_and_throttles(state: AppView, now_ms: u64)
    ensures
        state.should_quit ==> state.next_step(now_ms) == NextStep::Stop,
        state.next_step(now_ms) == NextStep::Refresh ==> now_ms - state.last_refresh
            >= crate::model::REFRESH_INTERVAL_MS,
        !state.should_quit && now_ms - state.last_refresh < crate::model::REFRESH_INTERVAL_MS
            ==> state.next_step(now_ms) == NextStep::Wait,
{
}

/// The leave dialog opens only on the tab of the watched markets and only when
/// a market is watched, with the choice at no.
pub proof fn lemma_leave_dialog_opens(state: AppView, event: KeyEvent)
    requires
        state.input_mode == InputModeView::Normal,
    ensures
        state.on_key(event).state.input_mode is LeaveMarketConfirmation ==> {
            &&& event.code == KeyCode::Delete || event.code == KeyCode::Backspace
            &&& state.current_tab == Tab::MarketDetail
            &&& state.watchlist.len() > 0
            &&& state.on_key(event).state.input_mode == InputModeView::LeaveMarketConfirmation(
                LeaveSelection::No,
            )
        },
{
}

/// While a dialog is open no key changes the tab, a selection, or what is
/// found or logged; the only action that can follow is the leave of the
/// selected watched market, from the leave dialog on Enter with the choice at yes.
pub proof fn lemma_dialogs_hold_the_rest(state: AppView, event: KeyEvent)
    requires
        state.input_mode is QuitConfirmation || state.input_mode is LeaveMarketConfirmation,
    ensures
        state.on_key(event).state == (AppView {
            input_mode: state.on_key(event).state.input_mode,
            should_quit: state.on_key(event).state.should_quit,
            ..state
        }),
        state.on_key(event).lines.len() == 0,
        state.on_key(event).action != ActionView::Nothing ==> {
            &&& state.input_mode == InputModeView::LeaveMarketConfirmation(LeaveSelection::Yes)
            &&& event.code == KeyCode::Enter
            &&& state.selected_watched_market_index < state.watchlist.len()
            &&& state.on_key(event).action == (ActionView::Leave {
                id: state.watchlist[state.selected_watched_market_index as int].id,
                selected: true,
            })
        },
{
}

/// A command line ends in normal mode on Enter and on Esc, whatever the line
/// holds and whatever comes of it; any other key leaves the line open.
pub proof fn lemma_command_line_ends(state: AppView, line: Seq<char>, event: KeyEvent)
    requires
        state.input_mode == InputModeView::Command(line),
    ensures
        event.code == KeyCode::Enter || event.code == KeyCode::Esc ==> state.on_key(
            event,
        ).state.input_mode == InputModeView::Normal,
        event.code != KeyCode::Enter && event.code != KeyCode::Esc ==> state.on_key(
            event,
        ).state.input_mode is Command,
        event.code == KeyCode::Esc ==> state.on_key(event) == (AppView {
            input_mode: InputModeView::Normal,
            ..state
        }).quiet(),
{
}

/// While a command line is edited, any key but Enter changes nothing but the
/// line, logs nothing and asks for nothing: no key navigates.
pub proof fn lemma_command_keys_only_edit(state: AppView, line: Seq<char>, event: KeyEvent)
    requires
        state.input_mode == InputModeView::Command(line),
        event.code != KeyCode::Enter,
    ensures
        state.on_key(event) == (AppView {
            input_mode: state.on_key(event).state.input_mode,
            ..state
        }).quiet(),
        event.code matches KeyCode::Char(c) ==> state.on_key(event).state.input_mode
            == InputModeView::Command(line.push(c)),
{
}

/// On the documentation tab, reading a section is a state of its own: Enter
/// opens the selected section at its top, the back keys close it, and while
/// it is open no arrow key changes the tab or the selected section, and the
/// scroll position stays within the section.
pub proof fn lemma_docs_reading(state: AppView, event: KeyEvent)
    requires
        state.input_mode == InputModeView::Normal,
        state.current_tab == Tab::Docs,
    ensures
        !state.docs_viewing_content && event.code == KeyCode::Enter ==> state.on_key(event).state
            == (AppView { docs_viewing_content: true, docs_scroll_offset: 0, ..state }),
        state.docs_viewing_content && (event.code == KeyCode::Backspace || event.code
            == KeyCode::Left || event.code == KeyCode::Esc) ==> state.on_key(event).state
            == (AppView { docs_viewing_content: false, docs_scroll_offset: 0, ..state }),
        state.docs_viewing_content && (event.code == KeyCode::Up || event.code == KeyCode::Down
            || event.code == KeyCode::Left || event.code == KeyCode::Right || event.code
            == KeyCode::Tab) ==> {
            &&& state.on_key(event).state.current_tab == Tab::Docs
            &&& state.on_key(event).state.docs_selected_section == state.docs_selected_section
        },
        state.docs_scroll_offset <= crate::model::doc_max_scroll(state.docs_selected_section)
            && state.docs_viewing_content ==> state.on_key(event).state.docs_scroll_offset
            <= crate::model::doc_max_scroll(state.on_key(event).state.docs_selected_section),
        state.docs_selected_section < crate::model::DOC_SECTIONS ==> state.on_key(
            event,
        ).state.docs_selected_section < crate::model::DOC_SECTIONS,
        state.on_key(event).lines.len() == 0,
        state.on_key(event).action == ActionView::Nothing,
{
}

/// The selection in the list of found markets never leaves the list: while it
/// points into the list, or at the first place of an empty list, it does so
/// after any input.
pub open spec fn selection_in_list(state: AppView) -> bool {
    state.selected_market_index == 0 || state.selected_market_index
        < state.available_markets.len()
}

/// No input moves the selection out of the list of found markets.
pub proof fn lemma_selection_stays_in_list(state: AppView, input: Input)
    requires
        selection_in_list(state),
    ensures
        selection_in_list(step_of(state, input).state),
{
}

/// After a leave from the list of watched markets has ended, well or not, the
/// selection points into that list again, or at the first place of an empty
/// list.
pub proof fn lemma_leave_pulls_selection_back(
    state: AppView,
    id: Seq<char>,
    result: Result<(), Seq<char>>,
)
    ensures
        ({
            let after = state.leave_done(id, true, result).state;
            after.selected_watched_market_index == 0 || after.selected_watched_market_index
                < after.watchlist.len()
        }),
{
}

/// When a search or the load of the trending markets ends, loading is over.
/// If it failed, the found markets and the selection are as before; if it
/// succeeded, the new markets are there and the first is selected.
pub proof fn lemma_loading_ends(state: AppView, result: Result<Seq<MarketInfoView>, Seq<char>>)
    ensures
        !state.search_done(result).state.is_loading_markets,
        !state.trending_done(result).state.is_loading_markets,
        result is Err ==> state.search_done(result).state == (AppView {
            is_loading_markets: false,
            ..state
        }),
        result is Err ==> state.trending_done(result).state == (AppView {
            is_loading_markets: false,
            ..state
        }),
        result matches Ok(markets) ==> state.search_done(result).state == (AppView {
            is_loading_markets: false,
            available_markets: markets,
            selected_market_index: 0,
            ..state
        }),
        state.search_done(result).lines.len() == 1,
        state.trending_done(result).lines.len() == 1,
{
}

} // verus!
