//! The dashboard's tabs and their cyclic order.

use vstd::prelude::*;

verus! {

/// The tabs of the dashboard, in display order.
#[derive(Debug, Clone, Copy, PartialEq, Eq, Structural)]
pub enum Tab {
    Dashboard,
    Orders,
    Markets,
    MarketDetail,
    Logs,
    Docs,
}

/// Number of tabs.
pub const TAB_COUNT: usize = 6;

impl Tab {
    /// Position of the tab in display order, from 0.
    pub open spec fn index(self) -> int {
        match self {
            Tab::Dashboard => 0,
            Tab::Orders => 1,
            Tab::Markets => 2,
            Tab::MarketDetail => 3,
            Tab::Logs => 4,
            Tab::Docs => 5,
        }
    }

    /// The tab at position `i`; positions outside `0..6` name no tab and map to `Dashboard`.
    pub open spec fn at(i: int) -> Tab {
        if i == 1 {
            Tab::Orders
        } else if i == 2 {
            Tab::Markets
        } else if i == 3 {
            Tab::MarketDetail
        } else if i == 4 {
            Tab::Logs
        } else if i == 5 {
            Tab::Docs
        } else {
            Tab::Dashboard
        }
    }

    /// The tab one step to the right, wrapping from the last to the first.
    pub open spec fn successor(self) -> Tab {
        Tab::at((self.index() + 1) % 6)
    }

    /// The tab one step to the left, wrapping from the first to the last.
    pub open spec fn predecessor(self) -> Tab {
        Tab::at((self.index() + 5) % 6)
    }

    /// `successor` applied `n` times.
    pub open spec fn advance(self, n: nat) -> Tab
        decreases n,
    {
        if n == 0 {
            self
        } else {
            self.successor().advance((n - 1) as nat)
        }
    }

    /// The label shown for the tab.
    pub open spec fn label(self) -> Seq<char> {
        match self {
            Tab::Dashboard => "Dashboard"@,
            Tab::Orders => "Orders"@,
            Tab::Markets => "Markets"@,
            Tab::MarketDetail => "Market Detail"@,
            Tab::Logs => "Logs"@,
            Tab::Docs => "Docs"@,
        }
    }

    pub fn next(&self) -> (r: Tab)
        ensures
            r == self.successor(),
    {
        match self {
            Tab::Dashboard => Tab::Orders,
            Tab::Orders => Tab::Markets,
            Tab::Markets => Tab::MarketDetail,
            Tab::MarketDetail => Tab::Logs,
            Tab::Logs => Tab::Docs,
            Tab::Docs => Tab::Dashboard,
        }
    }

    pub fn prev(&self) -> (r: Tab)
        ensures
            r == self.predecessor(),
    {
        match self {
            Tab::Dashboard => Tab::Docs,
            Tab::Orders => Tab::Dashboard,
            Tab::Markets => Tab::Orders,
            Tab::MarketDetail => Tab::Markets,
            Tab::Logs => Tab::MarketDetail,
            Tab::Docs => Tab::Logs,
        }
    }

    pub fn title(&self) -> (r: &'static str)
        ensures
            r@ == self.label(),
    {
        match self {
            Tab::Dashboard => "Dashboard",
            Tab::Orders => "Orders",
            Tab::Markets => "Markets",
            Tab::MarketDetail => "Market Detail",
            Tab::Logs => "Logs",
            Tab::Docs => "Docs",
        }
    }

    /// Every tab once, in display order.
    pub fn all() -> (r: [Tab; 6])
        ensures
            forall|i: int| 0 <= i < 6 ==> #[trigger] r@[i] == Tab::at(i),
    {
        [Tab::Dashboard, Tab::Orders, Tab::Markets, Tab::MarketDetail, Tab::Logs, Tab::Docs]
    }

    /// `at` and `index` are inverse to each other on the six positions.
    pub proof fn lemma_index_at(self)
        ensures
            0 <= self.index() < 6,
            Tab::at(self.index()) == self,
    {
    }

    /// Stepping right and then left, or left and then right, comes back to the same tab.
    pub proof fn lemma_prev_inverts_next(self)
        ensures
            self.successor().predecessor() == self,
            self.predecessor().successor() == self,
    {
    }

    /// Six steps to the right visit every tab and come back to the start.
    pub proof fn lemma_full_cycle(self)
        ensures
            self.advance(6) == self,
            forall|n: nat| 0 < n < 6 ==> #[trigger] self.advance(n) != self,
    {
        reveal_with_fuel(Tab::advance, 7);
    }
}

} // verus!
