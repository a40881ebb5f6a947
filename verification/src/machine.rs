//! The alert state machine: debounce on the way in, hysteresis on the way out.
//!
//! Each source has an `AlertState` of its own, created on the first sample
//! that is evaluated for it. A streak of samples under the threshold raises
//! one alert; the alert stays latched until a sample lies over the threshold
//! plus the reset buffer.

use vstd::prelude::*;
use crate::sample::Sample;
use crate::strategy::{bump, fresh_state, AlertState, AlertStrategy};

verus! {

/// What one evaluation asks of the caller.
#[derive(Clone, Copy, Debug, PartialEq, Eq, Structural)]
pub enum Decision {
    /// Nothing changes hands: the streak is still short, or the premium is
    /// not under the threshold and nothing is cleared.
    NoAction,
    /// The streak has reached the required length: deliver one alert.
    Fire,
    /// Still under the threshold, and the alert was raised before.
    AlreadyAlerting,
    /// The premium has left the reset band: the alert is over.
    Clear,
}

/// The decision on `sample` for a source in `state`.
pub open spec fn decide(min_hits: u32, state: AlertState, sample: Sample) -> Decision {
    match sample {
        Sample::Below => {
            if !state.alerting && bump(state.consecutive_below) >= min_hits {
                Decision::Fire
            } else if state.alerting {
                Decision::AlreadyAlerting
            } else {
                Decision::NoAction
            }
        },
        Sample::Recovered => {
            if state.alerting {
                Decision::Clear
            } else {
                Decision::NoAction
            }
        },
        Sample::Holding => Decision::NoAction,
    }
}

/// The state of a source after `sample` has been evaluated in `state`.
pub open spec fn next_state(min_hits: u32, state: AlertState, sample: Sample) -> AlertState {
    match sample {
        Sample::Below => AlertState {
            consecutive_below: bump(state.consecutive_below),
            alerting: state.alerting || bump(state.consecutive_below) >= min_hits,
        },
        Sample::Recovered => AlertState { consecutive_below: 0, alerting: false },
        Sample::Holding => AlertState { consecutive_below: 0, alerting: state.alerting },
    }
}

/// The table of alert states, one per source name, with the debounce length
/// that all sources share.
pub struct AlertStateMachine {
    strategy: AlertStrategy,
}

impl View for AlertStateMachine {
    type V = Map<Seq<char>, AlertState>;

    /// The alert state of every source evaluated so far.
    closed spec fn view(&self) -> Map<Seq<char>, AlertState> {
        self.strategy@
    }
}

impl AlertStateMachine {
    /// The streak length that raises an alert.
    pub closed spec fn required_hits(&self) -> u32 {
        self.strategy.required_hits()
    }

    /// The alert state of a source; the fresh state for one never evaluated.
    pub open spec fn state(&self, source: Seq<char>) -> AlertState {
        if self@.contains_key(source) {
            self@[source]
        } else {
            fresh_state()
        }
    }

    /// A machine that has evaluated nothing yet. With a length of zero the
    /// first sample under the threshold raises the alert, as with one.
    pub fn new(min_hits: u32) -> (m: Self)
        ensures
            m@ == Map::<Seq<char>, AlertState>::empty(),
            m.required_hits() == min_hits,
    {
        AlertStateMachine { strategy: AlertStrategy::new(min_hits) }
    }

    /// Evaluates one sample for `source`: moves that source's state by
    /// `next_state` and returns the decision that `decide` gives. No other
    /// source's state changes.
    pub fn evaluate(&mut self, source: &str, sample: Sample) -> (decision: Decision)
        ensures
            final(self).required_hits() == old(self).required_hits(),
            decision == decide(old(self).required_hits(), old(self).state(source@), sample),
            final(self)@ == old(self)@.insert(
                source@,
                next_state(old(self).required_hits(), old(self).state(source@), sample),
            ),
    {
        let alerting: bool = self.strategy.is_alerting(source);
        match sample {
            Sample::Below => {
                if self.strategy.should_alert(source, true) {
                    Decision::Fire
                } else if alerting {
                    Decision::AlreadyAlerting
                } else {
                    Decision::NoAction
                }
            },
            Sample::Recovered => {
                self.strategy.reset_if_needed(source);
                if alerting {
                    Decision::Clear
                } else {
                    Decision::NoAction
                }
            },
            Sample::Holding => {
                self.strategy.should_alert(source, false);
                Decision::NoAction
            },
        }
    }

    /// The alert state of `source`.
    pub fn state_of(&self, source: &str) -> (s: AlertState)
        ensures
            s == self.state(source@),
    {
        self.strategy.state_of(source)
    }

    /// Whether an alert for `source` was raised and not cleared.
    pub fn is_alerting(&self, source: &str) -> (alerting: bool)
        ensures
            alerting == self.state(source@).alerting,
    {
        self.strategy.is_alerting(source)
    }

    /// The streak length that raises an alert.
    pub fn min_hits(&self) -> (n: u32)
        ensures
            n == self.required_hits(),
    {
        self.strategy.min_hits()
    }
}

} // verus!
