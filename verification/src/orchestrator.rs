//! The polling orchestrator: one round at a time, one source at a time.
//!
//! The orchestrator performs no input or output itself. It is driven by
//! events (the timer ticked, a rate or a price arrived or failed, an alert
//! was delivered or not) and answers each with the next action for the
//! caller to perform. Between two events it remembers where in the round it
//! stands and the alert state of every source.

use vstd::prelude::*;
use crate::machine::{decide, next_state, AlertStateMachine, Decision};
use crate::strategy::{fresh_state, AlertState};
use crate::sample::{classify, classify_spec, Observation, SampleError};

verus! {

/// Where in a round the orchestrator stands.
#[derive(Clone, Copy, Debug, PartialEq, Eq, Structural)]
pub enum Phase {
    /// Between rounds, waiting for the timer.
    Idle,
    /// The reference rate has been asked for.
    AwaitingReference,
    /// The price of the source with this index has been asked for.
    AwaitingPrice(usize),
    /// An alert for the source with this index is being delivered.
    AwaitingDelivery(usize),
}

/// What the caller reports back.
#[derive(Clone, Copy, Debug, PartialEq, Eq, Structural)]
pub enum Event {
    /// The timer ticked.
    Tick,
    /// The reference rate was fetched.
    ReferenceFetched,
    /// The reference rate could not be fetched.
    ReferenceFailed,
    /// The price was fetched and compared.
    PriceFetched(Observation),
    /// The price could not be fetched.
    PriceFailed,
    /// The alert was delivered.
    Delivered,
    /// The alert could not be delivered.
    DeliveryFailed,
}

/// What the caller is to do next.
#[derive(Clone, Copy, Debug, PartialEq, Eq, Structural)]
pub enum Action {
    /// Wait for the next tick of the timer.
    WaitForTick,
    /// Fetch the reference rate.
    FetchReference,
    /// Fetch the price of the source with this index.
    FetchPrice(usize),
    /// Deliver an alert for the source with this index.
    Deliver(usize),
}

/// What an event meant, for the caller to report.
#[derive(Clone, Copy, Debug, PartialEq, Eq, Structural)]
pub enum Report {
    /// A round has begun.
    RoundStarted,
    /// The reference rate is there; the sources are polled next.
    ReferenceReady,
    /// No reference rate: the whole round is skipped.
    RoundSkipped,
    /// No price from this source: it is skipped for this round.
    SourceUnavailable(usize),
    /// The sample of this source is unusable: it is skipped for this round.
    SampleRejected(usize, SampleError),
    /// The sample of this source was evaluated, with this decision.
    Evaluated(usize, Decision),
    /// The alert for this source went out.
    AlertDelivered(usize),
    /// The alert for this source did not go out; its state stays as it is.
    AlertUndelivered(usize),
    /// The event is not the one awaited; nothing changed.
    Unexpected,
}

/// The answer to one event.
#[derive(Clone, Copy, Debug, PartialEq, Eq, Structural)]
pub struct Step {
    pub report: Report,
    pub action: Action,
}

/// Why an orchestrator cannot be set up.
#[derive(Clone, Copy, Debug, PartialEq, Eq, Structural)]
pub enum SetupError {
    /// No source is registered.
    NoSources,
    /// The source with this index has an empty name.
    EmptyName(usize),
    /// The source with this index has the name of an earlier one.
    DuplicateName(usize),
    /// The debounce length is zero.
    ZeroMinHits,
    /// The check interval is zero.
    ZeroInterval,
}

/// The name at `i` is not empty and differs from every earlier name.
pub open spec fn name_admissible(names: Seq<Seq<char>>, i: int) -> bool {
    &&& names[i].len() > 0
    &&& forall|j: int| 0 <= j < i ==> names[j] != names[i]
}

/// The action that a phase waits for.
pub open spec fn pending(phase: Phase) -> Action {
    match phase {
        Phase::Idle => Action::WaitForTick,
        Phase::AwaitingReference => Action::FetchReference,
        Phase::AwaitingPrice(i) => Action::FetchPrice(i),
        Phase::AwaitingDelivery(i) => Action::Deliver(i),
    }
}

/// The phase that follows the source at `i` among `count` sources: the next
/// source in registration order, or the end of the round.
pub open spec fn after_source(count: nat, i: usize) -> Phase {
    if i + 1 < count {
        Phase::AwaitingPrice((i + 1) as usize)
    } else {
        Phase::Idle
    }
}

/// The orchestrator as a mathematical value.
pub struct RoundModel {
    /// The source names, in registration order.
    pub sources: Seq<Seq<char>>,
    /// The streak length that raises an alert.
    pub min_hits: u32,
    /// The seconds between two rounds.
    pub check_interval: u64,
    /// The alert state of every source evaluated so far.
    pub states: Map<Seq<char>, AlertState>,
    /// Where in the round the orchestrator stands.
    pub phase: Phase,
}

impl RoundModel {
    /// The configuration is valid, the sources can be counted and their
    /// names used as keys, and the phase points at a registered source.
    pub open spec fn wf(self) -> bool {
        &&& 1 <= self.sources.len() <= usize::MAX
        &&& self.min_hits >= 1
        &&& self.check_interval >= 1
        &&& forall|i: int| 0 <= i < self.sources.len() ==> name_admissible(self.sources, i)
        &&& match self.phase {
            Phase::AwaitingPrice(i) => i < self.sources.len(),
            Phase::AwaitingDelivery(i) => i < self.sources.len(),
            _ => true,
        }
    }

    /// The alert state of a source; the fresh state for one never evaluated.
    pub open spec fn state(self, source: Seq<char>) -> AlertState {
        if self.states.contains_key(source) {
            self.states[source]
        } else {
            fresh_state()
        }
    }

    /// The same orchestrator in another phase.
    pub open spec fn at(self, phase: Phase) -> RoundModel {
        RoundModel { phase, ..self }
    }

    /// Done with the source at `i`: on to the next one, or to the end of the
    /// round.
    pub open spec fn leave(self, i: usize, report: Report) -> (RoundModel, Step) {
        let phase = after_source(self.sources.len(), i);
        (self.at(phase), Step { report, action: pending(phase) })
    }

    /// The orchestrator after `event`, and its answer.
    ///
    /// A failed reference rate ends the round before any source is touched. A
    /// source without a price, or with an unusable sample, is passed over and
    /// the next one is polled. A usable sample moves the state of its own
    /// source alone; a `Fire` decision is followed by one delivery, and the
    /// outcome of the delivery changes no state. An event that the phase does
    /// not wait for changes nothing, and the pending action is asked again.
    pub open spec fn transition(self, event: Event) -> (RoundModel, Step) {
        match (self.phase, event) {
            (Phase::Idle, Event::Tick) => (
                self.at(Phase::AwaitingReference),
                Step { report: Report::RoundStarted, action: Action::FetchReference },
            ),
            (Phase::AwaitingReference, Event::ReferenceFetched) => (
                self.at(Phase::AwaitingPrice(0)),
                Step { report: Report::ReferenceReady, action: Action::FetchPrice(0) },
            ),
            (Phase::AwaitingReference, Event::ReferenceFailed) => (
                self.at(Phase::Idle),
                Step { report: Report::RoundSkipped, action: Action::WaitForTick },
            ),
            (Phase::AwaitingPrice(i), Event::PriceFailed) => self.leave(
                i,
                Report::SourceUnavailable(i),
            ),
            (Phase::AwaitingPrice(i), Event::PriceFetched(observation)) => {
                match classify_spec(observation) {
                    Err(error) => self.leave(i, Report::SampleRejected(i, error)),
                    Ok(sample) => {
                        let name = self.sources[i as int];
                        let decision = decide(self.min_hits, self.state(name), sample);
                        let evaluated = RoundModel {
                            states: self.states.insert(
                                name,
                                next_state(self.min_hits, self.state(name), sample),
                            ),
                            ..self
                        };
                        if decision == Decision::Fire {
                            (
                                evaluated.at(Phase::AwaitingDelivery(i)),
                                Step {
                                    report: Report::Evaluated(i, decision),
                                    action: Action::Deliver(i),
                                },
                            )
                        } else {
                            evaluated.leave(i, Report::Evaluated(i, decision))
                        }
                    },
                }
            },
            (Phase::AwaitingDelivery(i), Event::Delivered) => self.leave(
                i,
                Report::AlertDelivered(i),
            ),
            (Phase::AwaitingDelivery(i), Event::DeliveryFailed) => self.leave(
                i,
                Report::AlertUndelivered(i),
            ),
            _ => (self, Step { report: Report::Unexpected, action: pending(self.phase) }),
        }
    }
}

/// The views of a list of names.
pub open spec fn names_of(list: Seq<String>) -> Seq<Seq<char>> {
    Seq::new(list.len(), |i: int| list[i]@)
}

/// The sources in registration order, their alert states, and the phase of
/// the round.
pub struct Orchestrator {
    sources: Vec<String>,
    machine: AlertStateMachine,
    check_interval: u64,
    phase: Phase,
}

impl View for Orchestrator {
    type V = RoundModel;

    closed spec fn view(&self) -> RoundModel {
        RoundModel {
            sources: names_of(self.sources@),
            min_hits: self.machine.required_hits(),
            check_interval: self.check_interval,
            states: self.machine@,
            phase: self.phase,
        }
    }
}

impl Orchestrator {
    /// Every orchestrator is well formed, from its setup on.
    #[verifier::type_invariant]
    spec fn well_formed(self) -> bool {
        self@.wf()
    }

    /// Sets up an orchestrator between rounds, with no source evaluated yet.
    ///
    /// There must be at least one source, every name must be non-empty and
    /// differ from the names before it, and neither the debounce length nor
    /// the interval may be zero. The first of these that fails is the error;
    /// among the names, the one with the least index.
    pub fn new(sources: Vec<String>, min_hits: u32, check_interval: u64) -> (r: Result<
        Self,
        SetupError,
    >)
        ensures
            match r {
                Ok(o) => {
                    &&& o@.wf()
                    &&& o@.sources == names_of(sources@)
                    &&& o@.min_hits == min_hits
                    &&& o@.check_interval == check_interval
                    &&& o@.states == Map::<Seq<char>, AlertState>::empty()
                    &&& o@.phase == Phase::Idle
                },
                Err(SetupError::NoSources) => sources@.len() == 0,
                Err(SetupError::EmptyName(i)) => {
                    &&& i < sources@.len()
                    &&& forall|k: int| 0 <= k < i ==> name_admissible(names_of(sources@), k)
                    &&& sources@[i as int]@.len() == 0
                },
                Err(SetupError::DuplicateName(i)) => {
                    &&& i < sources@.len()
                    &&& forall|k: int| 0 <= k < i ==> name_admissible(names_of(sources@), k)
                    &&& sources@[i as int]@.len() > 0
                    &&& exists|j: int| 0 <= j < i && sources@[j]@ == sources@[i as int]@
                },
                Err(SetupError::ZeroMinHits) => {
                    &&& sources@.len() > 0
                    &&& forall|k: int|
                        0 <= k < sources@.len() ==> name_admissible(names_of(sources@), k)
                    &&& min_hits == 0
                },
                Err(SetupError::ZeroInterval) => {
                    &&& sources@.len() > 0
                    &&& forall|k: int|
                        0 <= k < sources@.len() ==> name_admissible(names_of(sources@), k)
                    &&& min_hits > 0
                    &&& check_interval == 0
                },
            },
    {
        if sources.len() == 0 {
            return Err(SetupError::NoSources);
        }
        let ghost names = names_of(sources@);
        let mut i: usize = 0;
        while i < sources.len()
            invariant
                i <= sources.len(),
                names == names_of(sources@),
                forall|k: int| 0 <= k < i ==> name_admissible(names, k),
            decreases sources.len() - i,
        {
            assert(names[i as int] == sources@[i as int]@);
            if sources[i].as_str().is_empty() {
                return Err(SetupError::EmptyName(i));
            }
            let mut j: usize = 0;
            while j < i
                invariant
                    j <= i < sources.len(),
                    names == names_of(sources@),
                    names[i as int] == sources@[i as int]@,
                    names[i as int].len() > 0,
                    forall|k: int| 0 <= k < i ==> name_admissible(names, k),
                    forall|k: int| 0 <= k < j ==> names[k] != names[i as int],
                decreases i - j,
            {
                assert(names[j as int] == sources@[j as int]@);
                if sources[j] == sources[i] {
                    return Err(SetupError::DuplicateName(i));
                }
                j += 1;
            }
            i += 1;
        }
        if min_hits == 0 {
            return Err(SetupError::ZeroMinHits);
        }
        if check_interval == 0 {
            return Err(SetupError::ZeroInterval);
        }
        Ok(
            Orchestrator {
                sources,
                machine: AlertStateMachine::new(min_hits),
                check_interval,
                phase: Phase::Idle,
            },
        )
    }

    /// Takes one event and answers with the next action, as `transition`
    /// says.
    pub fn advance(&mut self, event: Event) -> (step: Step)
        ensures
            final(self)@.wf(),
            final(self)@ == old(self)@.transition(event).0,
            step == old(self)@.transition(event).1,
    {
        proof {
            use_type_invariant(&*self);
        }
        match (self.phase, event) {
            (Phase::Idle, Event::Tick) => {
                self.phase = Phase::AwaitingReference;
                Step { report: Report::RoundStarted, action: Action::FetchReference }
            },
            (Phase::AwaitingReference, Event::ReferenceFetched) => {
                self.phase = Phase::AwaitingPrice(0);
                Step { report: Report::ReferenceReady, action: Action::FetchPrice(0) }
            },
            (Phase::AwaitingReference, Event::ReferenceFailed) => {
                self.phase = Phase::Idle;
                Step { report: Report::RoundSkipped, action: Action::WaitForTick }
            },
            (Phase::AwaitingPrice(i), Event::PriceFailed) => self.leave(
                i,
                Report::SourceUnavailable(i),
            ),
            (Phase::AwaitingPrice(i), Event::PriceFetched(observation)) => {
                match classify(&observation) {
                    Err(error) => self.leave(i, Report::SampleRejected(i, error)),
                    Ok(sample) => {
                        // The table is taken out while it changes: the orchestrator
                        // has to be well formed at every point in between.
                        let mut machine = AlertStateMachine::new(self.machine.min_hits());
                        std::mem::swap(&mut machine, &mut self.machine);
                        let decision = machine.evaluate(self.sources[i].as_str(), sample);
                        self.machine = machine;
                        match decision {
                            Decision::Fire => {
                                self.phase = Phase::AwaitingDelivery(i);
                                Step {
                                    report: Report::Evaluated(i, decision),
                                    action: Action::Deliver(i),
                                }
                            },
                            _ => self.leave(i, Report::Evaluated(i, decision)),
                        }
                    },
                }
            },
            (Phase::AwaitingDelivery(i), Event::Delivered) => self.leave(
                i,
                Report::AlertDelivered(i),
            ),
            (Phase::AwaitingDelivery(i), Event::DeliveryFailed) => self.leave(
                i,
                Report::AlertUndelivered(i),
            ),
            _ => Step { report: Report::Unexpected, action: self.pending_action() },
        }
    }

    /// Moves on from the source at `i`.
    fn leave(&mut self, i: usize, report: Report) -> (step: Step)
        requires
            i < old(self)@.sources.len(),
        ensures
            final(self)@ == old(self)@.leave(i, report).0,
            step == old(self)@.leave(i, report).1,
    {
        proof {
            use_type_invariant(&*self);
        }
        let count: usize = self.sources.len();
        if i < count - 1 {
            self.phase = Phase::AwaitingPrice(i + 1);
            Step { report, action: Action::FetchPrice(i + 1) }
        } else {
            self.phase = Phase::Idle;
            Step { report, action: Action::WaitForTick }
        }
    }

    /// The action that the orchestrator is waiting for.
    pub fn pending_action(&self) -> (action: Action)
        ensures
            action == pending(self@.phase),
    {
        match self.phase {
            Phase::Idle => Action::WaitForTick,
            Phase::AwaitingReference => Action::FetchReference,
            Phase::AwaitingPrice(i) => Action::FetchPrice(i),
            Phase::AwaitingDelivery(i) => Action::Deliver(i),
        }
    }

    /// Where in the round the orchestrator stands. An orchestrator is well
    /// formed wherever it came from.
    pub fn phase(&self) -> (phase: Phase)
        ensures
            phase == self@.phase,
            self@.wf(),
    {
        proof {
            use_type_invariant(self);
        }
        self.phase
    }

    /// The number of registered sources.
    pub fn source_count(&self) -> (count: usize)
        ensures
            count == self@.sources.len(),
    {
        self.sources.len()
    }

    /// The name of the source at `index`, or `None` past the last source.
    pub fn source_name(&self, index: usize) -> (name: Option<&str>)
        ensures
            match name {
                Some(text) => index < self@.sources.len() && text@ == self@.sources[index as int],
                None => index >= self@.sources.len(),
            },
    {
        if index < self.sources.len() {
            Some(self.sources[index].as_str())
        } else {
            None
        }
    }

    /// The alert state of `source`.
    pub fn state_of(&self, source: &str) -> (s: AlertState)
        ensures
            s == self@.state(source@),
    {
        self.machine.state_of(source)
    }

    /// The streak length that raises an alert.
    pub fn min_hits(&self) -> (n: u32)
        ensures
            n == self@.min_hits,
    {
        self.machine.min_hits()
    }

    /// The seconds between two rounds.
    pub fn check_interval(&self) -> (seconds: u64)
        ensures
            seconds == self@.check_interval,
    {
        self.check_interval
    }
}

} // verus!
