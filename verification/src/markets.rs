//! Markets as the discovery service reports them and as the dashboard shows them.

use vstd::prelude::*;
use vstd::string::*;
use crate::text::{clone_numbers, clone_strings, texts};

verus! {

/// A market as the listing endpoint of the discovery service reports it.
#[derive(Debug)]
pub struct GammaMarket {
    pub id: String,
    pub question: String,
    pub description: String,
    pub active: bool,
    pub closed: bool,
    pub enable_order_book: bool,
    pub condition_id: String,
    pub question_id: String,
    pub volume: String,
    pub liquidity: String,
    pub start_date: Option<String>,
    pub end_date: Option<String>,
    pub outcomes: Vec<String>,
    pub outcome_prices: Vec<String>,
}

/// A market as the search endpoint of the discovery service reports it.
#[derive(Debug)]
pub struct PublicSearchMarket {
    pub id: String,
    pub question: String,
    pub volume: Option<String>,
    pub closed: bool,
    pub enable_order_book: bool,
}

/// What the dashboard keeps of a market. A market is identified by `id`.
#[derive(Debug)]
pub struct MarketInfo {
    pub id: String,
    pub question: String,
    pub active: bool,
    pub order_book_enabled: bool,
    /// Traded volume, as a decimal number in text.
    pub volume: String,
    /// Labels of the outcomes.
    pub outcomes: Vec<String>,
    /// Price of each outcome, position by position; each price is carried as the
    /// 64 bits of its IEEE 754 double-precision encoding and never read here.
    pub prices: Vec<u64>,
}

/// What a `MarketInfo` holds, as plain values.
pub struct MarketInfoView {
    pub id: Seq<char>,
    pub question: Seq<char>,
    pub active: bool,
    pub order_book_enabled: bool,
    pub volume: Seq<char>,
    pub outcomes: Seq<Seq<char>>,
    pub prices: Seq<u64>,
}

impl View for MarketInfo {
    type V = MarketInfoView;

    open spec fn view(&self) -> MarketInfoView {
        MarketInfoView {
            id: self.id@,
            question: self.question@,
            active: self.active,
            order_book_enabled: self.order_book_enabled,
            volume: self.volume@,
            outcomes: texts(self.outcomes@),
            prices: self.prices@,
        }
    }
}

impl Clone for MarketInfo {
    fn clone(&self) -> (r: Self)
        ensures
            r@ == self@,
    {
        MarketInfo {
            id: self.id.clone(),
            question: self.question.clone(),
            active: self.active,
            order_book_enabled: self.order_book_enabled,
            volume: self.volume.clone(),
            outcomes: clone_strings(&self.outcomes),
            prices: clone_numbers(&self.prices),
        }
    }
}

/// The views of a list of markets, in order.
pub open spec fn market_views(list: Seq<MarketInfo>) -> Seq<MarketInfoView> {
    list.map_values(|m: MarketInfo| m@)
}

/// The ids of a list of markets, in order.
pub open spec fn market_ids(list: Seq<MarketInfoView>) -> Seq<Seq<char>> {
    list.map_values(|m: MarketInfoView| m.id)
}

impl MarketInfoView {
    /// What the dashboard keeps of a market found by search: it is active unless
    /// closed, its volume is "0" where none is reported, and it has no outcomes.
    pub open spec fn of_search(market: PublicSearchMarket) -> MarketInfoView {
        MarketInfoView {
            id: market.id@,
            question: market.question@,
            active: !market.closed,
            order_book_enabled: market.enable_order_book,
            volume: match market.volume {
                Some(v) => v@,
                None => "0"@,
            },
            outcomes: Seq::empty(),
            prices: Seq::empty(),
        }
    }

    /// What the dashboard keeps of a listed market. Its identity is the condition
    /// id, or the plain id where the market has no condition id; it is active when
    /// it is listed as active and not closed.
    pub open spec fn of_gamma(market: GammaMarket, prices: Seq<u64>) -> MarketInfoView {
        MarketInfoView {
            id: if market.condition_id@.len() == 0 {
                market.id@
            } else {
                market.condition_id@
            },
            question: market.question@,
            active: market.active && !market.closed,
            order_book_enabled: market.enable_order_book,
            volume: market.volume@,
            outcomes: texts(market.outcomes@),
            prices,
        }
    }

    /// The entry that stands for a market of which only the id is known: the id
    /// serves as its question, it counts as active with an order book, and it has
    /// volume "0" and no outcomes.
    pub open spec fn placeholder(id: Seq<char>) -> MarketInfoView {
        MarketInfoView {
            id,
            question: id,
            active: true,
            order_book_enabled: true,
            volume: "0"@,
            outcomes: Seq::empty(),
            prices: Seq::empty(),
        }
    }
}

impl MarketInfo {
    /// The entry for a market of which only the id is known.
    pub fn placeholder(id: &str) -> (r: MarketInfo)
        ensures
            r@ == MarketInfoView::placeholder(id@),
    {
        let r = MarketInfo {
            id: String::from_str(id),
            question: String::from_str(id),
            active: true,
            order_book_enabled: true,
            volume: String::from_str("0"),
            outcomes: Vec::new(),
            prices: Vec::new(),
        };
        assert(r@.outcomes =~= Seq::<Seq<char>>::empty());
        r
    }

    /// The dashboard's entry for a listed market. `prices` are the outcome prices
    /// that the caller has read from `market.outcome_prices`.
    pub fn from_gamma(market: GammaMarket, prices: Vec<u64>) -> (r: MarketInfo)
        ensures
            r@ == MarketInfoView::of_gamma(market, prices@),
    {
        let id = if market.condition_id.as_str().is_empty() {
            market.id
        } else {
            market.condition_id
        };
        MarketInfo {
            id,
            question: market.question,
            active: market.active && !market.closed,
            order_book_enabled: market.enable_order_book,
            volume: market.volume,
            outcomes: market.outcomes,
            prices,
        }
    }

    /// The dashboard's entry for a market found by search.
    pub fn from_search(market: PublicSearchMarket) -> (r: MarketInfo)
        ensures
            r@ == MarketInfoView::of_search(market),
    {
        let volume = match market.volume {
            Some(v) => v,
            None => String::from_str("0"),
        };
        let r = MarketInfo {
            id: market.id,
            question: market.question,
            active: !market.closed,
            order_book_enabled: market.enable_order_book,
            volume,
            outcomes: Vec::new(),
            prices: Vec::new(),
        };
        assert(r@.outcomes =~= Seq::<Seq<char>>::empty());
        r
    }
}

impl vstd::std_specs::convert::FromSpecImpl<PublicSearchMarket> for MarketInfo {
    open spec fn obeys_from_spec() -> bool {
        false
    }

    open spec fn from_spec(market: PublicSearchMarket) -> MarketInfo {
        arbitrary()
    }
}

impl From<PublicSearchMarket> for MarketInfo {
    fn from(market: PublicSearchMarket) -> (r: MarketInfo)
        ensures
            r@ == MarketInfoView::of_search(market),
    {
        MarketInfo::from_search(market)
    }
}

} // verus!

verus! {

/// The most markets that a search shows.
pub const SEARCH_RESULTS_SHOWN: usize = 20;

/// Whether a found market can be traded: it has an order book and is not closed.
pub open spec fn is_tradable(market: PublicSearchMarket) -> bool {
    market.enable_order_book && !market.closed
}

/// The first `n` items of a list, or all where it has fewer.
pub open spec fn first_items<T>(list: Seq<T>, n: nat) -> Seq<T> {
    if list.len() > n {
        list.take(n as int)
    } else {
        list
    }
}

/// What a search shows of the markets that it found: the tradable ones, in
/// order, no more than `SEARCH_RESULTS_SHOWN`.
pub open spec fn search_selection(found: Seq<PublicSearchMarket>) -> Seq<MarketInfoView> {
    first_items(
        found.filter(|m: PublicSearchMarket| is_tradable(m)).map_values(
            |m: PublicSearchMarket| MarketInfoView::of_search(m),
        ),
        SEARCH_RESULTS_SHOWN as nat,
    )
}

/// The markets of a list that have an order book, in order.
pub open spec fn order_book_selection(list: Seq<MarketInfoView>) -> Seq<MarketInfoView> {
    list.filter(|m: MarketInfoView| m.order_book_enabled)
}

fn entry_for_found(market: &PublicSearchMarket) -> (r: MarketInfo)
    ensures
        r@ == MarketInfoView::of_search(*market),
{
    let volume = match &market.volume {
        Some(v) => v.clone(),
        None => String::from_str("0"),
    };
    let r = MarketInfo {
        id: market.id.clone(),
        question: market.question.clone(),
        active: !market.closed,
        order_book_enabled: market.enable_order_book,
        volume,
        outcomes: Vec::new(),
        prices: Vec::new(),
    };
    assert(r@.outcomes =~= Seq::<Seq<char>>::empty());
    r
}

/// The entries that a search shows for the markets that it found.
pub fn search_results(found: &Vec<PublicSearchMarket>) -> (shown: Vec<MarketInfo>)
    ensures
        market_views(shown@) == search_selection(found@),
        shown.len() <= SEARCH_RESULTS_SHOWN,
{
    let ghost tradable = |m: PublicSearchMarket| is_tradable(m);
    let ghost entry = |m: PublicSearchMarket| MarketInfoView::of_search(m);
    let mut shown: Vec<MarketInfo> = Vec::new();
    let mut i: usize = 0;
    proof {
        reveal(Seq::filter);
        assert(found@.take(0).filter(tradable) =~= Seq::<PublicSearchMarket>::empty());
        assert(market_views(shown@) =~= first_items(
            found@.take(0).filter(tradable).map_values(entry),
            SEARCH_RESULTS_SHOWN as nat,
        ));
    }
    while i < found.len()
        invariant
            i <= found.len(),
            tradable == |m: PublicSearchMarket| is_tradable(m),
            entry == |m: PublicSearchMarket| MarketInfoView::of_search(m),
            market_views(shown@) == first_items(
                found@.take(i as int).filter(tradable).map_values(entry),
                SEARCH_RESULTS_SHOWN as nat,
            ),
        decreases found.len() - i,
    {
        let ghost before = found@.take(i as int).filter(tradable);
        let ghost shown_before = shown@;
        proof {
            reveal(Seq::filter);
            assert(found@.take(i + 1).drop_last() == found@.take(i as int));
            assert(found@.take(i + 1).last() == found@[i as int]);
        }
        let market = &found[i];
        if market.enable_order_book && !market.closed {
            assert(found@.take(i + 1).filter(tradable) == before.push(found@[i as int]));
            if shown.len() < SEARCH_RESULTS_SHOWN {
                shown.push(entry_for_found(market));
                assert(market_views(shown@) =~= market_views(shown_before).push(
                    MarketInfoView::of_search(found@[i as int]),
                ));
            }
            assert(market_views(shown@) =~= first_items(
                before.push(found@[i as int]).map_values(entry),
                SEARCH_RESULTS_SHOWN as nat,
            ));
        } else {
            assert(found@.take(i + 1).filter(tradable) == before);
        }
        i = i + 1;
    }
    assert(found@.take(found.len() as int) == found@);
    shown
}

/// The markets of a list that have an order book, in order.
pub fn with_order_book(list: Vec<MarketInfo>) -> (kept: Vec<MarketInfo>)
    ensures
        market_views(kept@) == order_book_selection(market_views(list@)),
{
    let ghost has_book = |m: MarketInfoView| m.order_book_enabled;
    let ghost all = market_views(list@);
    let mut kept: Vec<MarketInfo> = Vec::new();
    let mut i: usize = 0;
    proof {
        reveal(Seq::filter);
        assert(market_views(kept@) =~= all.take(0).filter(has_book));
    }
    while i < list.len()
        invariant
            i <= list.len(),
            all == market_views(list@),
            has_book == |m: MarketInfoView| m.order_book_enabled,
            market_views(kept@) == all.take(i as int).filter(has_book),
        decreases list.len() - i,
    {
        let ghost kept_before = kept@;
        proof {
            reveal(Seq::filter);
            assert(all.take(i + 1).drop_last() == all.take(i as int));
            assert(all.take(i + 1).last() == list@[i as int]@);
        }
        if list[i].order_book_enabled {
            kept.push(list[i].clone());
            assert(market_views(kept@) =~= market_views(kept_before).push(list@[i as int]@));
        }
        i = i + 1;
    }
    assert(all.take(list.len() as int) == all);
    kept
}

} // verus!
