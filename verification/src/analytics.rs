//! The parts of the market analytics that work on whole numbers: the generator
//! behind the simulated feed, the time between two volume samples, and the
//! bounded list of recent events.

use vstd::prelude::*;

verus! {

/// Multiplier of the generator.
pub const LCG_MULTIPLIER: u64 = 6364136223846793005;

/// Increment of the generator.
pub const LCG_INCREMENT: u64 = 1;

/// The most recent events that are kept for one market.
pub const RECENT_EVENTS_CAPACITY: usize = 10;

/// The state that follows `state` in the generator: a linear congruential step
/// modulo 2^64.
pub open spec fn lcg_successor(state: u64) -> u64 {
    ((state as int * LCG_MULTIPLIER as int + LCG_INCREMENT as int)
        % 0x1_0000_0000_0000_0000) as u64
}

/// The state after `draws` steps of the generator.
pub open spec fn lcg_after(state: u64, draws: nat) -> u64
    decreases draws,
{
    if draws == 0 {
        state
    } else {
        lcg_successor(lcg_after(state, (draws - 1) as nat))
    }
}

/// Advances the generator by one step. The new state is also the draw: the
/// caller maps it to the unit interval by dividing by the largest state.
pub fn lcg_next(state: u64) -> (next: u64)
    ensures
        next == lcg_successor(state),
{
    let product = state.wrapping_mul(LCG_MULTIPLIER);
    let next = product.wrapping_add(LCG_INCREMENT);
    proof {
        let m = 0x1_0000_0000_0000_0000int;
        let p = state as int * LCG_MULTIPLIER as int;
        assert(product as int == p % m) by {
            vstd::arithmetic::mul::lemma_mul_nonnegative(state as int, LCG_MULTIPLIER as int);
            vstd::arithmetic::div_mod::lemma_fundamental_div_mod(p, m);
        }
        assert(next as int == (product as int + 1) % m);
        assert((p % m + 1) % m == (p + 1) % m) by {
            vstd::arithmetic::div_mod::lemma_add_mod_noop(p, 1, m);
            vstd::arithmetic::div_mod::lemma_small_mod(1, m as nat);
        }
    }
    next
}

/// The seconds from the sample taken at `previous` to the sample taken at
/// `now`, where time has moved on; `None` for a sample that is no later than
/// the one before it, which is then dropped.
pub open spec fn elapsed_between(previous: i64, now: i64) -> Option<u64> {
    if now > previous {
        Some((now - previous) as u64)
    } else {
        None
    }
}

/// The time over which a velocity is computed: the seconds since the previous
/// sample of the market. There is none for the first sample of a market, and
/// none for a sample that is no later than the previous one: no velocity is
/// published for it and no event is raised.
pub open spec fn velocity_window(previous: Option<i64>, now: i64) -> Option<u64> {
    match previous {
        Some(at) => elapsed_between(at, now),
        None => None,
    }
}

/// The seconds over which the velocity of a new volume sample is computed, if
/// it is to be computed at all. `previous` is the time of the market's last
/// sample, `now` that of the new one, both in seconds.
pub fn sample_window(previous: Option<i64>, now: i64) -> (window: Option<u64>)
    ensures
        window == velocity_window(previous, now),
        window matches Some(seconds) ==> seconds > 0,
{
    match previous {
        Some(at) => {
            if now > at {
                let seconds: i128 = now as i128 - at as i128;
                Some(seconds as u64)
            } else {
                None
            }
        },
        None => None,
    }
}

/// The list with `event` put in front, and without its last entry where it then
/// holds more than `RECENT_EVENTS_CAPACITY`.
pub open spec fn with_recent<T>(events: Seq<T>, event: T) -> Seq<T> {
    let grown = seq![event] + events;
    if grown.len() > RECENT_EVENTS_CAPACITY {
        grown.drop_last()
    } else {
        grown
    }
}

/// Puts `event` in front of the list of a market's recent events, newest
/// first. A list that then holds more than `RECENT_EVENTS_CAPACITY` events
/// loses its oldest, so a list within the capacity stays within it.
pub fn push_recent<T>(events: &mut Vec<T>, event: T)
    ensures
        final(events)@ == with_recent(old(events)@, event),
        old(events).len() <= RECENT_EVENTS_CAPACITY ==> final(events).len()
            <= RECENT_EVENTS_CAPACITY,
{
    events.insert(0, event);
    assert(events@ =~= seq![event] + old(events)@);
    if events.len() > RECENT_EVENTS_CAPACITY {
        events.pop();
    }
}

/// Events put in front one by one, each time keeping the newest
/// `RECENT_EVENTS_CAPACITY`.
pub open spec fn with_all_recent<T>(events: Seq<T>, arrivals: Seq<T>) -> Seq<T>
    decreases arrivals.len(),
{
    if arrivals.len() == 0 {
        events
    } else {
        with_recent(with_all_recent(events, arrivals.drop_last()), arrivals.last())
    }
}

/// However many events arrive, a list that starts within the capacity stays
/// within it, and its first entry is the event that arrived last.
pub proof fn lemma_recent_stays_bounded<T>(events: Seq<T>, arrivals: Seq<T>)
    requires
        events.len() <= RECENT_EVENTS_CAPACITY,
    ensures
        with_all_recent(events, arrivals).len() <= RECENT_EVENTS_CAPACITY,
        with_all_recent(events, arrivals).len() == if events.len() + arrivals.len()
            > RECENT_EVENTS_CAPACITY {
            RECENT_EVENTS_CAPACITY as nat
        } else {
            events.len() + arrivals.len()
        },
        arrivals.len() > 0 ==> with_all_recent(events, arrivals)[0] == arrivals.last(),
    decreases arrivals.len(),
{
    if arrivals.len() > 0 {
        lemma_recent_stays_bounded(events, arrivals.drop_last());
    }
}

} // verus!
