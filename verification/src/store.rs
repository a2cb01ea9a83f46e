//! The rows of the store of watched markets: one row per market, keyed by the
//! market's id, with the outcome labels and the prices as JSON lists.

use vstd::prelude::*;
use crate::clock::unix_seconds;
use crate::markets::{MarketInfo, MarketInfoView};
use crate::text::texts;

verus! {

/// What `serde_json::to_string` gives for a list of strings: the JSON text, or
/// the message of the error.
pub uninterp spec fn json_of_texts(list: Seq<Seq<char>>) -> Result<Seq<char>, Seq<char>>;

/// What `serde_json::from_str` gives when a list of strings is asked of a
/// text: the list, or the message of the error.
pub uninterp spec fn texts_of_json(text: Seq<char>) -> Result<Seq<Seq<char>>, Seq<char>>;

/// The character sequences of a list that may have failed.
pub open spec fn texts_or_message(result: Result<Vec<String>, String>) -> Result<
    Seq<Seq<char>>,
    Seq<char>,
> {
    match result {
        Ok(list) => Ok(texts(list@)),
        Err(message) => Err(message@),
    }
}

/// The character sequence of a text that may have failed.
pub open spec fn text_or_message(result: Result<String, String>) -> Result<Seq<char>, Seq<char>> {
    match result {
        Ok(text) => Ok(text@),
        Err(message) => Err(message@),
    }
}

/// `serde_json::to_string` on a list of strings; an error is handed on as its
/// message. The contract only names the result.
#[verifier::external_body]
fn encode_texts(list: &Vec<String>) -> (r: Result<String, String>)
    ensures
        text_or_message(r) == json_of_texts(texts(list@)),
{
    match serde_json::to_string(list) {
        Ok(text) => Ok(text),
        Err(error) => Err(error.to_string()),
    }
}

/// `serde_json::from_str` asked for a list of strings; an error is handed on
/// as its message. The contract only names the result.
#[verifier::external_body]
pub(crate) fn decode_texts(text: &str) -> (r: Result<Vec<String>, String>)
    ensures
        texts_or_message(r) == texts_of_json(text@),
{
    match serde_json::from_str::<Vec<String>>(text) {
        Ok(list) => Ok(list),
        Err(error) => Err(error.to_string()),
    }
}

/// One row of the store of watched markets.
#[derive(Debug)]
pub struct WatchedRow {
    pub id: String,
    pub question: String,
    pub volume: String,
    /// The outcome labels as a JSON list.
    pub outcomes: String,
    /// The prices as a JSON list.
    pub prices: String,
    /// When the market was joined, in seconds since the start of 1970.
    pub joined_at: i64,
}

/// What a `WatchedRow` holds, as plain values.
pub struct WatchedRowView {
    pub id: Seq<char>,
    pub question: Seq<char>,
    pub volume: Seq<char>,
    pub outcomes: Seq<char>,
    pub prices: Seq<char>,
    pub joined_at: i64,
}

impl View for WatchedRow {
    type V = WatchedRowView;

    open spec fn view(&self) -> WatchedRowView {
        WatchedRowView {
            id: self.id@,
            question: self.question@,
            volume: self.volume@,
            outcomes: self.outcomes@,
            prices: self.prices@,
            joined_at: self.joined_at,
        }
    }
}

/// The row that stores a market, given its outcome labels as JSON; the
/// message where the labels could not be written as JSON.
pub open spec fn row_for(
    market: MarketInfoView,
    outcomes: Result<Seq<char>, Seq<char>>,
    prices: Seq<char>,
    joined_at: i64,
) -> Result<WatchedRowView, Seq<char>> {
    match outcomes {
        Ok(text) => Ok(
            WatchedRowView {
                id: market.id,
                question: market.question,
                volume: market.volume,
                outcomes: text,
                prices,
                joined_at,
            },
        ),
        Err(message) => Err(message),
    }
}

/// The market that a row stands for, given what reading its outcome labels
/// gave: a stored market is active and has an order book, and labels that
/// cannot be read count as none.
pub open spec fn market_for(
    id: Seq<char>,
    question: Seq<char>,
    volume: Seq<char>,
    outcomes: Result<Seq<Seq<char>>, Seq<char>>,
    prices: Seq<u64>,
) -> MarketInfoView {
    MarketInfoView {
        id,
        question,
        active: true,
        order_book_enabled: true,
        volume,
        outcomes: match outcomes {
            Ok(list) => list,
            Err(_) => Seq::empty(),
        },
        prices,
    }
}

/// The view of a row that may have failed.
pub open spec fn row_or_message(result: Result<WatchedRow, String>) -> Result<
    WatchedRowView,
    Seq<char>,
> {
    match result {
        Ok(row) => Ok(row@),
        Err(message) => Err(message@),
    }
}

/// Builds the row that stores `market` from its parts: `outcomes` is what
/// writing the outcome labels as JSON gave, `prices` the prices as a JSON
/// list, `joined_at` the time of joining.
pub fn row_from_parts(
    market: &MarketInfo,
    outcomes: Result<String, String>,
    prices: String,
    joined_at: i64,
) -> (r: Result<WatchedRow, String>)
    ensures
        row_or_message(r) == row_for(market@, text_or_message(outcomes), prices@, joined_at),
{
    match outcomes {
        Ok(text) => Ok(
            WatchedRow {
                id: market.id.clone(),
                question: market.question.clone(),
                volume: market.volume.clone(),
                outcomes: text,
                prices,
                joined_at,
            },
        ),
        Err(message) => Err(message),
    }
}

/// Builds the row that stores `market` as joined now. `prices` is the list of
/// the market's prices as JSON. The row is owed unless the outcome labels
/// cannot be written as JSON; the time of joining is read from the clock.
pub fn watched_row(market: &MarketInfo, prices: String) -> (r: Result<WatchedRow, String>)
    ensures
        r matches Ok(row) ==> row_or_message(r) == row_for(
            market@,
            json_of_texts(market@.outcomes),
            prices@,
            row.joined_at,
        ),
        r matches Err(message) ==> json_of_texts(market@.outcomes) == Err::<
            Seq<char>,
            Seq<char>,
        >(message@),
        r.is_ok() == json_of_texts(market@.outcomes).is_ok(),
{
    let outcomes = encode_texts(&market.outcomes);
    let joined_at = unix_seconds();
    row_from_parts(market, outcomes, prices, joined_at)
}

/// The market that a row stands for, given what reading its outcome labels
/// gave.
pub fn market_from_parts(
    id: String,
    question: String,
    volume: String,
    outcomes: Result<Vec<String>, String>,
    prices: Vec<u64>,
) -> (market: MarketInfo)
    ensures
        market@ == market_for(id@, question@, volume@, texts_or_message(outcomes), prices@),
{
    let outcomes = match outcomes {
        Ok(list) => list,
        Err(_) => {
            let none: Vec<String> = Vec::new();
            assert(texts(none@) =~= Seq::<Seq<char>>::empty());
            none
        },
    };
    MarketInfo {
        id,
        question,
        active: true,
        order_book_enabled: true,
        volume,
        outcomes,
        prices,
    }
}

/// The market that a stored row stands for. `outcomes` is the row's JSON list
/// of outcome labels, `prices` are the prices read from the row.
pub fn market_from_row(
    id: String,
    question: String,
    volume: String,
    outcomes: &str,
    prices: Vec<u64>,
) -> (market: MarketInfo)
    ensures
        market@ == market_for(id@, question@, volume@, texts_of_json(outcomes@), prices@),
{
    let decoded = decode_texts(outcomes);
    market_from_parts(id, question, volume, decoded, prices)
}

} // verus!
