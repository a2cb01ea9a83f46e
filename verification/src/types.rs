//! What the execution engine remembers of itself.

use vstd::prelude::*;

verus! {

/// The state of the trading bot.
#[derive(Debug)]
pub struct BotState {
    /// While paused the bot places no new order.
    pub is_paused: bool,
    pub last_order_id: Option<String>,
    pub monitored_markets: Vec<String>,
}

impl Default for BotState {
    /// The bot at its start: running, with no order placed and no market
    /// monitored.
    fn default() -> (state: BotState)
        ensures
            !state.is_paused,
            state.last_order_id.is_none(),
            state.monitored_markets@.len() == 0,
    {
        BotState { is_paused: false, last_order_id: None, monitored_markets: Vec::new() }
    }
}

impl BotState {
    /// Whether the bot takes a new order: it does unless it is paused.
    pub fn accepts_orders(&self) -> (r: bool)
        ensures
            r == !self.is_paused,
    {
        !self.is_paused
    }

    /// Remembers the id of the order that was placed last.
    pub fn record_order(&mut self, order_id: String)
        ensures
            final(self).last_order_id == Some(order_id),
            final(self).is_paused == old(self).is_paused,
            final(self).monitored_markets == old(self).monitored_markets,
    {
        self.last_order_id = Some(order_id);
    }

    /// Pauses or resumes the bot; nothing else changes.
    pub fn set_paused(&mut self, paused: bool)
        ensures
            final(self).is_paused == paused,
            final(self).last_order_id == old(self).last_order_id,
            final(self).monitored_markets == old(self).monitored_markets,
    {
        self.is_paused = paused;
    }
}

} // verus!
