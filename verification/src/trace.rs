//! Runs of one source over a sequence of rounds or samples, and what holds
//! of every run.

use vstd::prelude::*;
use crate::machine::{decide, next_state, Decision};
use crate::sample::Sample;
use crate::strategy::{after_round, bump, confirms, fresh_state, AlertState};

verus! {

/// The state of a source after `rounds` have been recorded in order, with no
/// reset between them, starting in `start`.
pub open spec fn record(min_hits: u32, start: AlertState, rounds: Seq<bool>) -> AlertState
    decreases rounds.len(),
{
    if rounds.len() == 0 {
        start
    } else {
        after_round(min_hits, record(min_hits, start, rounds.drop_last()), rounds.last())
    }
}

/// The round at `i` confirms an alert.
pub open spec fn alert_at(min_hits: u32, start: AlertState, rounds: Seq<bool>, i: int) -> bool {
    confirms(min_hits, record(min_hits, start, rounds.take(i)), rounds[i])
}

/// The number of rounds under the threshold at the end of `rounds`.
pub open spec fn trailing_below(rounds: Seq<bool>) -> nat
    decreases rounds.len(),
{
    if rounds.len() == 0 || !rounds.last() {
        0
    } else {
        trailing_below(rounds.drop_last()) + 1
    }
}

/// One more round extends a record by one step of `after_round`.
pub proof fn lemma_record_step(min_hits: u32, start: AlertState, rounds: Seq<bool>, i: int)
    requires
        0 <= i < rounds.len(),
    ensures
        record(min_hits, start, rounds.take(i + 1)) == after_round(
            min_hits,
            record(min_hits, start, rounds.take(i)),
            rounds[i],
        ),
{
    assert(rounds.take(i + 1).drop_last() =~= rounds.take(i));
    assert(rounds.take(i + 1).last() == rounds[i]);
}

/// Without a reset, an alert that stands keeps standing.
pub proof fn lemma_alert_stands(
    min_hits: u32,
    start: AlertState,
    rounds: Seq<bool>,
    from: int,
    to: int,
)
    requires
        0 <= from <= to <= rounds.len(),
        record(min_hits, start, rounds.take(from)).alerting,
    ensures
        record(min_hits, start, rounds.take(to)).alerting,
    decreases to - from,
{
    if from < to {
        lemma_alert_stands(min_hits, start, rounds, from, to - 1);
        lemma_record_step(min_hits, start, rounds, to - 1);
    }
}

/// Without a reset, at most one round confirms an alert: after the round that
/// does, no later round does, whatever the later rounds are.
pub proof fn lemma_one_alert_until_reset(
    min_hits: u32,
    start: AlertState,
    rounds: Seq<bool>,
    i: int,
    j: int,
)
    requires
        0 <= i < j < rounds.len(),
        alert_at(min_hits, start, rounds, i),
    ensures
        !alert_at(min_hits, start, rounds, j),
{
    lemma_record_step(min_hits, start, rounds, i);
    lemma_alert_stands(min_hits, start, rounds, i + 1, j);
}

/// For a source that started fresh, an alert stands exactly if one of the
/// rounds recorded since has confirmed it.
pub proof fn lemma_alert_stands_iff_confirmed(min_hits: u32, rounds: Seq<bool>)
    ensures
        record(min_hits, fresh_state(), rounds).alerting <==> exists|i: int|
            0 <= i < rounds.len() && #[trigger] alert_at(min_hits, fresh_state(), rounds, i),
    decreases rounds.len(),
{
    let start = fresh_state();
    if rounds.len() > 0 {
        let last = rounds.len() - 1;
        let front = rounds.drop_last();
        lemma_alert_stands_iff_confirmed(min_hits, front);
        assert(rounds.take(last) =~= front);
        assert(rounds.take(rounds.len() as int) =~= rounds);
        assert forall|i: int| 0 <= i < last implies alert_at(min_hits, start, front, i)
            == alert_at(min_hits, start, rounds, i) by {
            assert(front.take(i) =~= rounds.take(i));
        }
        if record(min_hits, start, rounds).alerting {
            if record(min_hits, start, front).alerting {
                let i = choose|i: int|
                    0 <= i < front.len() && #[trigger] alert_at(min_hits, start, front, i);
                assert(alert_at(min_hits, start, rounds, i));
            } else {
                assert(alert_at(min_hits, start, rounds, last));
            }
        } else {
            assert forall|i: int| 0 <= i < rounds.len() implies !#[trigger] alert_at(
                min_hits,
                start,
                rounds,
                i,
            ) by {
                if i < last {
                    assert(!alert_at(min_hits, start, front, i));
                }
            }
        }
    }
}

/// The streak of a source that started fresh is the number of rounds under
/// the threshold since the last round that was not, capped at `u32::MAX`.
pub proof fn lemma_streak_counts_trailing(min_hits: u32, rounds: Seq<bool>)
    ensures
        record(min_hits, fresh_state(), rounds).consecutive_below == if trailing_below(rounds)
            <= u32::MAX {
            trailing_below(rounds)
        } else {
            u32::MAX as nat
        },
    decreases rounds.len(),
{
    if rounds.len() > 0 {
        lemma_streak_counts_trailing(min_hits, rounds.drop_last());
    }
}

/// A recorded round is a step of the state machine: a round under the
/// threshold is a sample under it, any other round a sample inside the reset
/// band, and a confirmed alert is a `Fire` decision.
pub proof fn lemma_round_is_step(min_hits: u32, state: AlertState, is_below_threshold: bool)
    ensures
        after_round(min_hits, state, is_below_threshold) == next_state(
            min_hits,
            state,
            if is_below_threshold {
                Sample::Below
            } else {
                Sample::Holding
            },
        ),
        confirms(min_hits, state, is_below_threshold) == (decide(
            min_hits,
            state,
            if is_below_threshold {
                Sample::Below
            } else {
                Sample::Holding
            },
        ) == Decision::Fire),
{
}

/// The state of a source after `samples` have been evaluated in order,
/// starting in `start`.
pub open spec fn run(min_hits: u32, start: AlertState, samples: Seq<Sample>) -> AlertState
    decreases samples.len(),
{
    if samples.len() == 0 {
        start
    } else {
        next_state(min_hits, run(min_hits, start, samples.drop_last()), samples.last())
    }
}

/// The decision on the sample at `i` of a run.
pub open spec fn decision_at(
    min_hits: u32,
    start: AlertState,
    samples: Seq<Sample>,
    i: int,
) -> Decision {
    decide(min_hits, run(min_hits, start, samples.take(i)), samples[i])
}

/// A run of `n` samples that are all under the threshold.
pub open spec fn streak_of(n: nat) -> Seq<Sample> {
    Seq::new(n, |i: int| Sample::Below)
}

/// Hysteresis: a sample inside the reset band is answered with `NoAction` and
/// leaves the alert as it is, raised or not. Only a sample over the band
/// clears an alert, and it clears every alert that is raised.
pub proof fn lemma_hysteresis(min_hits: u32, state: AlertState, sample: Sample)
    ensures
        sample == Sample::Holding ==> decide(min_hits, state, sample) == Decision::NoAction
            && next_state(min_hits, state, sample).alerting == state.alerting,
        decide(min_hits, state, sample) == Decision::Clear <==> state.alerting && sample
            == Sample::Recovered,
        decide(min_hits, state, sample) == Decision::Clear ==> !next_state(
            min_hits,
            state,
            sample,
        ).alerting,
{
}

/// A sample that is not under the threshold ends the streak; one that is
/// lengthens it by one.
pub proof fn lemma_streak_restarts(min_hits: u32, state: AlertState, sample: Sample)
    ensures
        next_state(min_hits, state, sample).consecutive_below == if sample == Sample::Below {
            bump(state.consecutive_below)
        } else {
            0
        },
{
}

/// One more sample extends a run by one step of `next_state`.
pub proof fn lemma_run_step(min_hits: u32, start: AlertState, samples: Seq<Sample>, i: int)
    requires
        0 <= i < samples.len(),
    ensures
        run(min_hits, start, samples.take(i + 1)) == next_state(
            min_hits,
            run(min_hits, start, samples.take(i)),
            samples[i],
        ),
{
    assert(samples.take(i + 1).drop_last() =~= samples.take(i));
    assert(samples.take(i + 1).last() == samples[i]);
}

/// While no sample is answered with `Clear`, an alerting source stays
/// alerting and no sample is answered with `Fire`.
pub proof fn lemma_latched_until_clear(
    min_hits: u32,
    start: AlertState,
    samples: Seq<Sample>,
    from: int,
    to: int,
)
    requires
        0 <= from <= to <= samples.len(),
        run(min_hits, start, samples.take(from)).alerting,
        forall|k: int|
            from <= k < to ==> #[trigger] decision_at(min_hits, start, samples, k)
                != Decision::Clear,
    ensures
        run(min_hits, start, samples.take(to)).alerting,
        forall|k: int|
            from <= k < to ==> #[trigger] decision_at(min_hits, start, samples, k)
                != Decision::Fire,
    decreases to - from,
{
    if from < to {
        lemma_latched_until_clear(min_hits, start, samples, from, to - 1);
        lemma_run_step(min_hits, start, samples, to - 1);
        assert(decision_at(min_hits, start, samples, to - 1) != Decision::Clear);
    }
}

/// Between two `Fire` decisions of one source there is a `Clear` decision:
/// however long the premium stays under the threshold, an alert is raised
/// once until it is cleared.
pub proof fn lemma_one_fire_until_clear(
    min_hits: u32,
    start: AlertState,
    samples: Seq<Sample>,
    i: int,
    j: int,
)
    requires
        0 <= i < j < samples.len(),
        decision_at(min_hits, start, samples, i) == Decision::Fire,
        decision_at(min_hits, start, samples, j) == Decision::Fire,
    ensures
        exists|k: int|
            i < k < j && #[trigger] decision_at(min_hits, start, samples, k) == Decision::Clear,
{
    lemma_run_step(min_hits, start, samples, i);
    if forall|k: int|
        i + 1 <= k < j ==> #[trigger] decision_at(min_hits, start, samples, k) != Decision::Clear {
        lemma_latched_until_clear(min_hits, start, samples, i + 1, j);
        assert(false);
    }
}

/// The sample at `i` was answered with `Fire`, and no sample after it and
/// before `upto` with `Clear`.
pub open spec fn raised_and_kept(
    min_hits: u32,
    start: AlertState,
    samples: Seq<Sample>,
    i: int,
    upto: int,
) -> bool {
    &&& 0 <= i < upto
    &&& decision_at(min_hits, start, samples, i) == Decision::Fire
    &&& forall|k: int|
        i < k < upto ==> #[trigger] decision_at(min_hits, start, samples, k) != Decision::Clear
}

/// A source that alerts after `upto` samples, and did not at the start, got
/// there by a `Fire` decision that no `Clear` decision has followed.
pub proof fn lemma_alerting_since_fire(
    min_hits: u32,
    start: AlertState,
    samples: Seq<Sample>,
    upto: int,
)
    requires
        !start.alerting,
        0 <= upto <= samples.len(),
        run(min_hits, start, samples.take(upto)).alerting,
    ensures
        exists|i: int| #[trigger] raised_and_kept(min_hits, start, samples, i, upto),
    decreases upto,
{
    if upto == 0 {
        assert(samples.take(0) =~= Seq::<Sample>::empty());
    } else {
        lemma_run_step(min_hits, start, samples, upto - 1);
        if decision_at(min_hits, start, samples, upto - 1) == Decision::Fire {
            assert(raised_and_kept(min_hits, start, samples, upto - 1, upto));
        } else {
            lemma_alerting_since_fire(min_hits, start, samples, upto - 1);
            let i = choose|i: int| #[trigger]
                raised_and_kept(min_hits, start, samples, i, upto - 1);
            assert(raised_and_kept(min_hits, start, samples, i, upto));
        }
    }
}

/// A `Clear` decision follows a `Fire` decision with no other `Clear`
/// between them, for a source that was not alerting at the start.
pub proof fn lemma_clear_follows_fire(
    min_hits: u32,
    start: AlertState,
    samples: Seq<Sample>,
    j: int,
)
    requires
        !start.alerting,
        0 <= j < samples.len(),
        decision_at(min_hits, start, samples, j) == Decision::Clear,
    ensures
        exists|i: int| #[trigger] raised_and_kept(min_hits, start, samples, i, j),
{
    lemma_alerting_since_fire(min_hits, start, samples, j);
}

/// A source that started fresh and is not alerting has a streak shorter than
/// the required length.
pub proof fn lemma_quiet_streak_is_short(min_hits: u32, samples: Seq<Sample>)
    requires
        min_hits >= 1,
    ensures
        !run(min_hits, fresh_state(), samples).alerting ==> run(
            min_hits,
            fresh_state(),
            samples,
        ).consecutive_below < min_hits,
    decreases samples.len(),
{
    if samples.len() > 0 {
        lemma_quiet_streak_is_short(min_hits, samples.drop_last());
    }
}

/// A source that started fresh is answered with `Fire` on the very sample
/// that brings its streak to the required length, not on a later one.
pub proof fn lemma_fire_completes_streak(min_hits: u32, samples: Seq<Sample>, i: int)
    requires
        min_hits >= 1,
        0 <= i < samples.len(),
        decision_at(min_hits, fresh_state(), samples, i) == Decision::Fire,
    ensures
        samples[i] == Sample::Below,
        run(min_hits, fresh_state(), samples.take(i)).consecutive_below + 1 == min_hits,
{
    lemma_quiet_streak_is_short(min_hits, samples.take(i));
}

/// After `n` samples under the threshold in a row, a fresh source has a
/// streak of `n`, capped at `u32::MAX`, and alerts exactly if the streak has
/// reached the required length.
pub proof fn lemma_streak_state(min_hits: u32, n: nat)
    requires
        min_hits >= 1,
    ensures
        run(min_hits, fresh_state(), streak_of(n)).consecutive_below == if n <= u32::MAX {
            n
        } else {
            u32::MAX as nat
        },
        run(min_hits, fresh_state(), streak_of(n)).alerting == (n >= min_hits),
    decreases n,
{
    if n > 0 {
        lemma_streak_state(min_hits, (n - 1) as nat);
        assert(streak_of(n).drop_last() =~= streak_of((n - 1) as nat));
    }
}

/// Debounce: in a streak of samples under the threshold, a fresh source
/// answers `NoAction` until the streak reaches the required length, `Fire` on
/// the sample that completes it, and `AlreadyAlerting` on every later one.
pub proof fn lemma_streak_fires_once(min_hits: u32, n: nat, i: int)
    requires
        min_hits >= 1,
        0 <= i < n,
    ensures
        decision_at(min_hits, fresh_state(), streak_of(n), i) == if i + 1 < min_hits {
            Decision::NoAction
        } else if i + 1 == min_hits {
            Decision::Fire
        } else {
            Decision::AlreadyAlerting
        },
{
    lemma_streak_state(min_hits, i as nat);
    assert(streak_of(n).take(i) =~= streak_of(i as nat));
}

} // verus!
