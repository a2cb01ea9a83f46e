//! Polling of the keyboard: how long to wait, and which events count.

use vstd::prelude::*;
use crate::keys::{KeyEvent, KeyEventKind};

verus! {

/// Decides how long the dashboard waits for a key and which events it takes.
pub struct EventHandler {
    tick_rate_ms: u64,
}

impl EventHandler {
    /// The longest wait for an event, in milliseconds.
    pub closed spec fn tick_rate(self) -> u64 {
        self.tick_rate_ms
    }

    /// The event that `next` hands on for what the terminal delivered: a key
    /// press, and nothing else.
    pub open spec fn accepted(polled: Option<KeyEvent>) -> Option<KeyEvent> {
        match polled {
            Some(event) => if event.kind == KeyEventKind::Press {
                Some(event)
            } else {
                None
            },
            None => None,
        }
    }

    pub fn new(tick_rate_ms: u64) -> (handler: EventHandler)
        ensures
            handler.tick_rate() == tick_rate_ms,
    {
        EventHandler { tick_rate_ms }
    }

    /// The longest wait for an event, in milliseconds.
    pub fn tick_rate_ms(&self) -> (ms: u64)
        ensures
            ms == self.tick_rate(),
    {
        self.tick_rate_ms
    }

    /// The next event for the dashboard, given what the terminal delivered within
    /// the tick (`None` when nothing came, or something other than a key): only
    /// the press of a key is handed on; repeats and releases are dropped.
    pub fn next(&mut self, polled: Option<KeyEvent>) -> (event: Option<KeyEvent>)
        ensures
            event == EventHandler::accepted(polled),
            final(self).tick_rate() == old(self).tick_rate(),
    {
        match polled {
            Some(event) => match event.kind {
                KeyEventKind::Press => Some(event),
                _ => None,
            },
            None => None,
        }
    }
}

} // verus!
