//! Whole rounds of the orchestrator, and what holds of every round.

use vstd::prelude::*;
use crate::machine::{decide, next_state};
use crate::strategy::AlertState;
use crate::orchestrator::{name_admissible, Action, Event, Phase, Report, RoundModel, Step};
use crate::sample::classify_spec;

verus! {

/// The event tells how the fetch of one price ended.
pub open spec fn is_reading(event: Event) -> bool {
    event is PriceFetched || event is PriceFailed
}

/// The state that a reading leaves a source in: a usable sample moves it by
/// `next_state`, anything else leaves it alone.
pub open spec fn settled(min_hits: u32, state: AlertState, reading: Event) -> AlertState {
    match reading {
        Event::PriceFetched(observation) => match classify_spec(observation) {
            Ok(sample) => next_state(min_hits, state, sample),
            Err(_) => state,
        },
        _ => state,
    }
}

/// The report on the reading of the source at `i`, made in `state`.
pub open spec fn reported(min_hits: u32, state: AlertState, i: usize, reading: Event) -> Report {
    match reading {
        Event::PriceFetched(observation) => match classify_spec(observation) {
            Ok(sample) => Report::Evaluated(i, decide(min_hits, state, sample)),
            Err(error) => Report::SampleRejected(i, error),
        },
        _ => Report::SourceUnavailable(i),
    }
}

/// The orchestrator after the reading of one source and, where the reading
/// raised an alert, after its delivery has succeeded or failed.
pub open spec fn poll_one(m: RoundModel, reading: Event, delivered: bool) -> RoundModel {
    let (polled, step) = m.transition(reading);
    if step.action is Deliver {
        polled.transition(
            if delivered {
                Event::Delivered
            } else {
                Event::DeliveryFailed
            },
        ).0
    } else {
        polled
    }
}

/// The orchestrator after the readings of the first sources, one reading per
/// source in registration order; `deliveries` says for each source whether an
/// alert for it, if one is raised, goes out.
pub open spec fn poll(m: RoundModel, readings: Seq<Event>, deliveries: Seq<bool>) -> RoundModel
    decreases readings.len(),
{
    if readings.len() == 0 {
        m
    } else {
        poll_one(
            poll(m, readings.drop_last(), deliveries),
            readings.last(),
            deliveries[readings.len() - 1],
        )
    }
}

/// The orchestrator after one round in which the reference rate was fetched.
pub open spec fn round(m: RoundModel, readings: Seq<Event>, deliveries: Seq<bool>) -> RoundModel {
    poll(m.transition(Event::Tick).0.transition(Event::ReferenceFetched).0, readings, deliveries)
}

/// A round without a reference rate ends at once: the orchestrator is back
/// between rounds, no source was polled and no alert state has changed.
pub proof fn lemma_failed_reference_skips_round(m: RoundModel)
    requires
        m.phase == Phase::Idle,
    ensures
        m.transition(Event::Tick).1.action == Action::FetchReference,
        m.transition(Event::Tick).0.transition(Event::ReferenceFailed) == (
            m,
            Step { report: Report::RoundSkipped, action: Action::WaitForTick },
        ),
{
}

/// Polling the first `readings.len()` sources leaves each of them in the
/// state that its own reading settles, leaves every other name alone, and
/// stops in front of the next source or at the end of the round.
pub proof fn lemma_poll(m: RoundModel, readings: Seq<Event>, deliveries: Seq<bool>)
    requires
        m.wf(),
        m.phase == Phase::AwaitingPrice(0),
        readings.len() <= m.sources.len(),
        deliveries.len() >= readings.len(),
        forall|i: int| 0 <= i < readings.len() ==> is_reading(#[trigger] readings[i]),
    ensures
        poll(m, readings, deliveries).wf(),
        poll(m, readings, deliveries).sources == m.sources,
        poll(m, readings, deliveries).min_hits == m.min_hits,
        poll(m, readings, deliveries).check_interval == m.check_interval,
        poll(m, readings, deliveries).phase == if readings.len() < m.sources.len() {
            Phase::AwaitingPrice(readings.len() as usize)
        } else {
            Phase::Idle
        },
        forall|j: int|
            0 <= j < readings.len() ==> poll(m, readings, deliveries).state(
                #[trigger] m.sources[j],
            ) == settled(m.min_hits, m.state(m.sources[j]), readings[j]),
        forall|name: Seq<char>|
            (forall|j: int| 0 <= j < readings.len() ==> m.sources[j] != name) ==> #[trigger] poll(
                m,
                readings,
                deliveries,
            ).state(name) == m.state(name),
    decreases readings.len(),
{
    if readings.len() > 0 {
        let last = readings.len() - 1;
        let before = poll(m, readings.drop_last(), deliveries);
        let after = poll(m, readings, deliveries);
        lemma_poll(m, readings.drop_last(), deliveries);
        assert(is_reading(readings[last]));
        assert(name_admissible(m.sources, last));
        assert(before.state(m.sources[last]) == m.state(m.sources[last]));
        assert forall|j: int| 0 <= j < readings.len() implies after.state(
            #[trigger] m.sources[j],
        ) == settled(m.min_hits, m.state(m.sources[j]), readings[j]) by {
            if j < last {
                assert(readings.drop_last()[j] == readings[j]);
            }
        }
        assert forall|other: Seq<char>|
            (forall|j: int| 0 <= j < readings.len() ==> m.sources[j] != other) implies after.state(
            other,
        ) == m.state(other) by {
            assert(m.sources[last] != other);
            assert(before.state(other) == m.state(other));
        }
    }
}

/// Isolation: in a round with a reference rate, every source is polled, and
/// the report on a source and the state it is left in are those of its own
/// reading and its own state at the start of the round, whatever the other
/// sources gave and whether or not any alert could be delivered.
pub proof fn lemma_sources_are_isolated(
    m: RoundModel,
    readings: Seq<Event>,
    deliveries: Seq<bool>,
    j: int,
)
    requires
        m.wf(),
        m.phase == Phase::Idle,
        readings.len() == m.sources.len(),
        deliveries.len() == m.sources.len(),
        forall|i: int| 0 <= i < readings.len() ==> is_reading(#[trigger] readings[i]),
        0 <= j < m.sources.len(),
    ensures
        round(m, readings.take(j), deliveries).phase == Phase::AwaitingPrice(j as usize),
        round(m, readings.take(j), deliveries).transition(readings[j]).1.report == reported(
            m.min_hits,
            m.state(m.sources[j]),
            j as usize,
            readings[j],
        ),
        round(m, readings, deliveries).state(m.sources[j]) == settled(
            m.min_hits,
            m.state(m.sources[j]),
            readings[j],
        ),
        round(m, readings, deliveries).phase == Phase::Idle,
{
    let ready = m.transition(Event::Tick).0.transition(Event::ReferenceFetched).0;
    lemma_poll(ready, readings, deliveries);
    lemma_poll(ready, readings.take(j), deliveries);
    assert(name_admissible(m.sources, j));
    assert(poll(ready, readings.take(j), deliveries).state(m.sources[j]) == m.state(m.sources[j]));
}

} // verus!
