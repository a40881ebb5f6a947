//! Debounce with a latch: a streak counter and an alert flag per source.
//!
//! `AlertStrategy` counts, for each source name, how many rounds in a row the
//! premium has been under the threshold. It confirms an alert on the round
//! that completes the required streak, and confirms no other alert for that
//! source until the alert is reset.

use vstd::prelude::*;
use vstd::hash_map::StringHashMap;

verus! {

/// The alert state of one source.
#[derive(Clone, Copy, Debug, PartialEq, Eq, Structural)]
pub struct AlertState {
    /// Rounds in a row with the premium under the threshold.
    pub consecutive_below: u32,
    /// An alert was confirmed and has not been reset.
    pub alerting: bool,
}

/// The state of a source that has not been seen yet.
pub open spec fn fresh_state() -> AlertState {
    AlertState { consecutive_below: 0, alerting: false }
}

/// The streak after one more round under the threshold. A streak that has
/// reached `u32::MAX` stays there.
pub open spec fn bump(count: u32) -> u32 {
    if count < u32::MAX {
        (count + 1) as u32
    } else {
        count
    }
}

/// A round confirms an alert for a source in `state` if it is under the
/// threshold, brings the streak to the required length or beyond, and no
/// alert is standing.
pub open spec fn confirms(min_hits: u32, state: AlertState, is_below_threshold: bool) -> bool {
    &&& is_below_threshold
    &&& !state.alerting
    &&& bump(state.consecutive_below) >= min_hits
}

/// The state of a source after one round: the streak grows or ends, and a
/// confirmed alert stands from then on.
pub open spec fn after_round(
    min_hits: u32,
    state: AlertState,
    is_below_threshold: bool,
) -> AlertState {
    AlertState {
        consecutive_below: if is_below_threshold {
            bump(state.consecutive_below)
        } else {
            0
        },
        alerting: state.alerting || confirms(min_hits, state, is_below_threshold),
    }
}

/// Alert states keyed by source name, and the streak length that confirms an
/// alert.
pub struct AlertStrategy {
    states: StringHashMap<AlertState>,
    min_hits: u32,
}

impl View for AlertStrategy {
    type V = Map<Seq<char>, AlertState>;

    /// The state of every source seen so far.
    closed spec fn view(&self) -> Map<Seq<char>, AlertState> {
        self.states@
    }
}

impl AlertStrategy {
    /// The streak length that confirms an alert.
    pub closed spec fn required_hits(&self) -> u32 {
        self.min_hits
    }

    /// The state of a source; the fresh state for a source never seen.
    pub open spec fn state(&self, source_name: Seq<char>) -> AlertState {
        if self@.contains_key(source_name) {
            self@[source_name]
        } else {
            fresh_state()
        }
    }

    /// A strategy that has seen no source yet. A length of zero confirms on
    /// the first round under the threshold, as a length of one does.
    pub fn new(min_hits: u32) -> (s: Self)
        ensures
            s@ == Map::<Seq<char>, AlertState>::empty(),
            s.required_hits() == min_hits,
    {
        AlertStrategy { states: StringHashMap::new(), min_hits }
    }

    /// Records one round for `source_name`. A round under the threshold
    /// lengthens the streak, any other round ends it. Returns `true` on the
    /// round that completes the required streak while no alert is standing;
    /// the alert then stands, and no later round returns `true` for this
    /// source until `reset_if_needed` is called for it.
    pub fn should_alert(&mut self, source_name: &str, is_below_threshold: bool) -> (alert: bool)
        ensures
            final(self).required_hits() == old(self).required_hits(),
            alert == confirms(
                old(self).required_hits(),
                old(self).state(source_name@),
                is_below_threshold,
            ),
            final(self)@ == old(self)@.insert(
                source_name@,
                after_round(
                    old(self).required_hits(),
                    old(self).state(source_name@),
                    is_below_threshold,
                ),
            ),
    {
        let before: AlertState = self.state_of(source_name);
        let streak: u32 = if !is_below_threshold {
            0
        } else if before.consecutive_below < u32::MAX {
            before.consecutive_below + 1
        } else {
            before.consecutive_below
        };
        let alert: bool = is_below_threshold && !before.alerting && streak >= self.min_hits;
        self.states.insert(
            source_name.to_owned(),
            AlertState { consecutive_below: streak, alerting: before.alerting || alert },
        );
        alert
    }

    /// Ends the streak of `source_name` and takes its alert down, so that a
    /// new streak can confirm a new alert.
    pub fn reset_if_needed(&mut self, source_name: &str)
        ensures
            final(self).required_hits() == old(self).required_hits(),
            final(self)@ == old(self)@.insert(source_name@, fresh_state()),
    {
        self.states.insert(
            source_name.to_owned(),
            AlertState { consecutive_below: 0, alerting: false },
        );
    }

    /// The state of `source_name`.
    pub fn state_of(&self, source_name: &str) -> (s: AlertState)
        ensures
            s == self.state(source_name@),
    {
        match self.states.get(source_name) {
            Some(state) => *state,
            None => AlertState { consecutive_below: 0, alerting: false },
        }
    }

    /// The current streak of `source_name`.
    pub fn hits(&self, source_name: &str) -> (n: u32)
        ensures
            n == self.state(source_name@).consecutive_below,
    {
        self.state_of(source_name).consecutive_below
    }

    /// Whether an alert for `source_name` was confirmed and not reset.
    pub fn is_alerting(&self, source_name: &str) -> (alerting: bool)
        ensures
            alerting == self.state(source_name@).alerting,
    {
        self.state_of(source_name).alerting
    }

    /// The streak length that confirms an alert.
    pub fn min_hits(&self) -> (n: u32)
        ensures
            n == self.required_hits(),
    {
        self.min_hits
    }
}

} // verus!
