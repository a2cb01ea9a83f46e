//! The watchlist: the markets that the operator has joined, in the order in which
//! they were joined, no market twice.

use vstd::prelude::*;
use crate::markets::{market_ids, market_views, MarketInfo, MarketInfoView};

verus! {

/// No two entries of the list have the same id.
pub open spec fn distinct_ids(list: Seq<MarketInfoView>) -> bool {
    forall|i: int, j: int| 0 <= i < j < list.len() ==> (#[trigger] list[i]).id != (#[trigger] list[j]).id
}

/// Some entry of the list has the id.
pub open spec fn contains_id(list: Seq<MarketInfoView>, id: Seq<char>) -> bool {
    exists|i: int| 0 <= i < list.len() && (#[trigger] list[i]).id == id
}

/// `i` is the position of the first entry with the id.
pub open spec fn is_position_of(list: Seq<MarketInfoView>, id: Seq<char>, i: int) -> bool {
    &&& 0 <= i < list.len()
    &&& list[i].id == id
    &&& forall|j: int| 0 <= j < i ==> (#[trigger] list[j]).id != id
}

/// The position of the first entry with the id, if there is one.
pub open spec fn position_of(list: Seq<MarketInfoView>, id: Seq<char>) -> Option<int> {
    if contains_id(list, id) {
        Some(choose|i: int| is_position_of(list, id, i))
    } else {
        None
    }
}

/// The list without the first entry that has the id; the list itself where no
/// entry has it.
pub open spec fn without_id(list: Seq<MarketInfoView>, id: Seq<char>) -> Seq<MarketInfoView> {
    match position_of(list, id) {
        Some(i) => list.remove(i),
        None => list,
    }
}

/// The list with the entry appended, unless an entry with its id is there already.
pub open spec fn with_entry(list: Seq<MarketInfoView>, entry: MarketInfoView) -> Seq<
    MarketInfoView,
> {
    if contains_id(list, entry.id) {
        list
    } else {
        list.push(entry)
    }
}

/// The list with each entry dropped whose id an earlier entry has.
pub open spec fn first_of_each_id(list: Seq<MarketInfoView>) -> Seq<MarketInfoView>
    decreases list.len(),
{
    if list.len() == 0 {
        list
    } else {
        with_entry(first_of_each_id(list.drop_last()), list.last())
    }
}

/// The first entry with the id is where `position_of` says; it is the only one
/// in a list of distinct ids.
pub proof fn lemma_position_of(list: Seq<MarketInfoView>, id: Seq<char>)
    ensures
        contains_id(list, id) ==> is_position_of(list, id, position_of(list, id).unwrap()),
        !contains_id(list, id) ==> position_of(list, id).is_none(),
        forall|i: int| is_position_of(list, id, i) ==> position_of(list, id) == Some(i),
{
    if contains_id(list, id) {
        let k = choose|k: int| 0 <= k < list.len() && (#[trigger] list[k]).id == id;
        lemma_first_position(list, id, k);
        let p = choose|i: int| is_position_of(list, id, i);
        assert forall|i: int| is_position_of(list, id, i) implies i == p by {
            if i < p {
                assert(list[i].id != id);
            } else if p < i {
                assert(list[p].id != id);
            }
        }
    } else {
        assert forall|i: int| !is_position_of(list, id, i) by {
            if is_position_of(list, id, i) {
                assert(list[i].id == id);
            }
        }
    }
}

proof fn lemma_first_position(list: Seq<MarketInfoView>, id: Seq<char>, k: int)
    requires
        0 <= k < list.len(),
        list[k].id == id,
    ensures
        exists|i: int| is_position_of(list, id, i),
    decreases k,
{
    if forall|j: int| 0 <= j < k ==> (#[trigger] list[j]).id != id {
        assert(is_position_of(list, id, k));
    } else {
        let j = choose|j: int| 0 <= j < k && (#[trigger] list[j]).id == id;
        lemma_first_position(list, id, j);
    }
}

/// Appending an entry with a new id, and removing an entry, keep the ids distinct;
/// removing the entry with an id leaves no entry with it.
pub proof fn lemma_distinct_kept(list: Seq<MarketInfoView>, entry: MarketInfoView, id: Seq<char>)
    requires
        distinct_ids(list),
    ensures
        distinct_ids(with_entry(list, entry)),
        contains_id(with_entry(list, entry), entry.id),
        distinct_ids(without_id(list, id)),
        !contains_id(without_id(list, id), id),
        contains_id(list, id) ==> without_id(list, id).len() == list.len() - 1,
        !contains_id(list, id) ==> without_id(list, id) == list,
        contains_id(list, entry.id) ==> with_entry(list, entry) == list,
        !contains_id(list, entry.id) ==> with_entry(list, entry).len() == list.len() + 1,
{
    lemma_position_of(list, id);
    let added = with_entry(list, entry);
    if !contains_id(list, entry.id) {
        assert forall|i: int, j: int| 0 <= i < j < added.len() implies (#[trigger] added[i]).id != (
        #[trigger] added[j]).id by {
            if j == list.len() {
                assert(list[i].id != entry.id);
            }
        }
        assert(added[list.len() as int].id == entry.id);
    }
    let removed = without_id(list, id);
    if contains_id(list, id) {
        let p = position_of(list, id).unwrap();
        assert forall|i: int, j: int| 0 <= i < j < removed.len() implies (#[trigger] removed[i]).id
            != (#[trigger] removed[j]).id by {
            let a = if i < p {
                i
            } else {
                i + 1
            };
            let b = if j < p {
                j
            } else {
                j + 1
            };
            assert(removed[i] == list[a]);
            assert(removed[j] == list[b]);
        }
        assert forall|i: int| 0 <= i < removed.len() implies (#[trigger] removed[i]).id != id by {
            let a = if i < p {
                i
            } else {
                i + 1
            };
            assert(removed[i] == list[a]);
            if a < p {
                assert(list[a].id != id);
            } else {
                assert(list[p].id != list[a].id);
            }
        }
    }
}

/// A list reduced to the first entry of each id has distinct ids, and holds an
/// id exactly when the list did.
pub proof fn lemma_first_of_each_id(list: Seq<MarketInfoView>)
    ensures
        distinct_ids(first_of_each_id(list)),
        first_of_each_id(list).len() <= list.len(),
        forall|id: Seq<char>| contains_id(first_of_each_id(list), id) == contains_id(list, id),
        distinct_ids(list) ==> first_of_each_id(list) == list,
    decreases list.len(),
{
    if list.len() > 0 {
        let front = list.drop_last();
        let kept = first_of_each_id(front);
        lemma_first_of_each_id(front);
        lemma_distinct_kept(kept, list.last(), list.last().id);
        let out = first_of_each_id(list);
        assert forall|id: Seq<char>| contains_id(out, id) == contains_id(list, id) by {
            assert(contains_id(kept, id) == contains_id(front, id));
            if contains_id(out, id) && !contains_id(list, id) {
                let i = choose|i: int| 0 <= i < out.len() && (#[trigger] out[i]).id == id;
                if i < kept.len() {
                    assert(kept[i].id == id);
                    assert(contains_id(front, id));
                    let k = choose|k: int| 0 <= k < front.len() && (#[trigger] front[k]).id == id;
                    assert(list[k].id == id);
                } else {
                    assert(list[list.len() - 1].id == id);
                }
            }
            if contains_id(list, id) && !contains_id(out, id) {
                let k = choose|k: int| 0 <= k < list.len() && (#[trigger] list[k]).id == id;
                if k < front.len() {
                    assert(front[k].id == id);
                    assert(contains_id(kept, id));
                    let i = choose|i: int| 0 <= i < kept.len() && (#[trigger] kept[i]).id == id;
                    assert(out[i].id == id);
                } else {
                    assert(list.last().id == id);
                }
            }
        }
        if distinct_ids(list) {
            assert(distinct_ids(front)) by {
                assert forall|i: int, j: int| 0 <= i < j < front.len() implies (#[trigger] front[i]).id
                    != (#[trigger] front[j]).id by {
                    assert(front[i] == list[i]);
                    assert(front[j] == list[j]);
                }
            }
            if contains_id(front, list.last().id) {
                let k = choose|k: int| 0 <= k < front.len() && (#[trigger] front[k]).id
                    == list.last().id;
                assert(list[k].id != list[list.len() - 1].id);
            }
            assert(out == front.push(list.last()));
            assert(front.push(list.last()) == list);
        }
    }
}

/// Where the first market with the id stands in the list, if there is one.
pub fn find_by_id(list: &Vec<MarketInfo>, id: &str) -> (r: Option<usize>)
    ensures
        r.is_some() == contains_id(market_views(list@), id@),
        r matches Some(i) ==> i < list.len() && position_of(market_views(list@), id@) == Some(
            i as int,
        ),
        r.is_none() ==> position_of(market_views(list@), id@).is_none(),
{
    let ghost views = market_views(list@);
    let mut i: usize = 0;
    while i < list.len()
        invariant
            i <= list.len(),
            views == market_views(list@),
            forall|j: int| 0 <= j < i ==> (#[trigger] views[j]).id != id@,
        decreases list.len() - i,
    {
        if list[i].id.as_str().eq(id) {
            proof {
                assert(views[i as int].id == id@);
                assert(is_position_of(views, id@, i as int));
                lemma_position_of(views, id@);
            }
            return Some(i);
        }
        i = i + 1;
    }
    proof {
        lemma_position_of(views, id@);
    }
    None
}

/// The markets that the operator watches.
pub struct Watchlist {
    markets: Vec<MarketInfo>,
}

impl View for Watchlist {
    type V = Seq<MarketInfoView>;

    closed spec fn view(&self) -> Seq<MarketInfoView> {
        market_views(self.markets@)
    }
}

impl Watchlist {
    #[verifier::type_invariant]
    spec fn no_id_twice(self) -> bool {
        distinct_ids(market_views(self.markets@))
    }

    /// The ids of the watched markets, in the order in which they were joined.
    pub open spec fn ids(self) -> Seq<Seq<char>> {
        market_ids(self@)
    }

    /// An empty watchlist.
    pub fn new() -> (list: Watchlist)
        ensures
            list@ == Seq::<MarketInfoView>::empty(),
    {
        let list = Watchlist { markets: Vec::new() };
        assert(list@ =~= Seq::<MarketInfoView>::empty());
        list
    }

    /// Does nothing; brings into a proof that the ids of a watchlist are
    /// distinct at all times.
    pub(crate) fn recall_distinct(&self)
        ensures
            distinct_ids(self@),
    {
        proof {
            use_type_invariant(self);
        }
    }

    /// Number of watched markets.
    pub fn len(&self) -> (n: usize)
        ensures
            n == self@.len(),
            distinct_ids(self@),
    {
        proof {
            use_type_invariant(self);
        }
        self.markets.len()
    }

    pub fn is_empty(&self) -> (r: bool)
        ensures
            r == (self@.len() == 0),
    {
        self.markets.len() == 0
    }

    /// The market at position `i`.
    pub fn get(&self, i: usize) -> (r: Option<&MarketInfo>)
        ensures
            r.is_some() == (i < self@.len()),
            r matches Some(m) ==> m@ == self@[i as int],
            distinct_ids(self@),
    {
        proof {
            use_type_invariant(self);
        }
        if i < self.markets.len() {
            Some(&self.markets[i])
        } else {
            None
        }
    }

    /// All watched markets, in the order in which they were joined.
    pub fn markets(&self) -> (r: &Vec<MarketInfo>)
        ensures
            market_views(r@) == self@,
            distinct_ids(self@),
    {
        proof {
            use_type_invariant(self);
        }
        &self.markets
    }

    /// Where the market with the id stands, if it is watched.
    pub fn position(&self, id: &str) -> (r: Option<usize>)
        ensures
            r.is_some() == contains_id(self@, id@),
            r matches Some(i) ==> i < self@.len() && position_of(self@, id@) == Some(i as int),
            r.is_none() ==> position_of(self@, id@).is_none(),
            distinct_ids(self@),
    {
        proof {
            use_type_invariant(self);
        }
        find_by_id(&self.markets, id)
    }

    /// Whether the market with the id is watched.
    pub fn contains(&self, id: &str) -> (r: bool)
        ensures
            r == contains_id(self@, id@),
            distinct_ids(self@),
    {
        self.position(id).is_some()
    }

    /// Appends the market unless one with its id is watched already; says whether
    /// it was appended.
    pub fn insert(&mut self, market: MarketInfo) -> (added: bool)
        ensures
            added == !contains_id(old(self)@, market@.id),
            final(self)@ == with_entry(old(self)@, market@),
            distinct_ids(final(self)@),
    {
        proof {
            use_type_invariant(&*self);
            lemma_distinct_kept(self@, market@, market@.id);
        }
        if self.contains(market.id.as_str()) {
            return false;
        }
        let mut markets: Vec<MarketInfo> = Vec::new();
        std::mem::swap(&mut markets, &mut self.markets);
        markets.push(market);
        assert(market_views(markets@) =~= old(self)@.push(market@));
        self.markets = markets;
        true
    }

    /// Removes the market with the id; says whether there was one.
    pub fn remove(&mut self, id: &str) -> (removed: bool)
        ensures
            removed == contains_id(old(self)@, id@),
            final(self)@ == without_id(old(self)@, id@),
            distinct_ids(final(self)@),
    {
        proof {
            use_type_invariant(&*self);
            lemma_distinct_kept(self@, MarketInfoView::placeholder(id@), id@);
        }
        match self.position(id) {
            Some(i) => {
                let mut markets: Vec<MarketInfo> = Vec::new();
                std::mem::swap(&mut markets, &mut self.markets);
                markets.remove(i);
                assert(market_views(markets@) =~= old(self)@.remove(i as int));
                self.markets = markets;
                true
            },
            None => false,
        }
    }

    /// The watchlist made of the first market of each id in `list`, in order.
    pub fn from_markets(list: &Vec<MarketInfo>) -> (r: Watchlist)
        ensures
            r@ == first_of_each_id(market_views(list@)),
            distinct_ids(r@),
    {
        let mut out = Watchlist::new();
        let ghost all = market_views(list@);
        let mut i: usize = 0;
        while i < list.len()
            invariant
                i <= list.len(),
                all == market_views(list@),
                out@ == first_of_each_id(all.take(i as int)),
            decreases list.len() - i,
        {
            assert(all.take(i + 1).drop_last() == all.take(i as int));
            assert(all.take(i + 1).last() == list@[i as int]@);
            out.insert(list[i].clone());
            i = i + 1;
        }
        assert(all.take(list.len() as int) == all);
        proof {
            lemma_first_of_each_id(all);
        }
        out
    }
}

} // verus!
