//! The consolidation scheduler: one ledger after the other, a pause, and
//! again from the first ledger, without end.
//!
//! As with a cycle, the caller does what the phase asks for and reports
//! back with a signal. How a ledger's cycle ended is part of the signal,
//! and has no influence on what comes next.

use crate::cycle::Outcome;
use crate::types::SLEEP_SECONDS;
use vstd::prelude::*;

verus! {

/// Where the scheduler stands.
#[derive(Clone, Copy, Debug, PartialEq, Eq)]
pub enum Phase {
    /// A pass over the ledgers is complete.
    Idle,
    /// The ledger at this position is being processed.
    RunningLedger(usize),
    /// The pause between two passes.
    Sleeping,
}

/// What the caller is asked to do in a phase.
#[derive(Clone, Copy, Debug, PartialEq, Eq)]
pub enum Directive {
    /// Run one consolidation cycle for the ledger at this position.
    RunLedger(usize),
    /// Announce that the pass is over and a pause follows.
    AnnouncePause,
    /// Sleep for this many seconds.
    Sleep { seconds: u64 },
}

/// What the caller reports back.
#[derive(Clone, Copy, Debug, PartialEq, Eq)]
pub enum Signal {
    /// The cycle of the running ledger ended, in this way.
    LedgerFinished(Outcome),
    /// The pause has been announced.
    PauseAnnounced,
    /// The pause is over.
    Woke,
}

/// The phase in which a pass over `ledger_count` ledgers begins.
pub open spec fn first_phase(ledger_count: usize) -> Phase {
    if ledger_count > 0 {
        Phase::RunningLedger(0)
    } else {
        Phase::Idle
    }
}

/// The phase that follows `phase` when `signal` is reported. A signal that
/// does not belong to the phase changes nothing.
pub open spec fn next_phase(phase: Phase, signal: Signal, ledger_count: usize) -> Phase {
    match (phase, signal) {
        (Phase::RunningLedger(i), Signal::LedgerFinished(_)) => {
            if i + 1 < ledger_count {
                Phase::RunningLedger((i + 1) as usize)
            } else {
                Phase::Idle
            }
        },
        (Phase::Idle, Signal::PauseAnnounced) => Phase::Sleeping,
        (Phase::Sleeping, Signal::Woke) => first_phase(ledger_count),
        _ => phase,
    }
}

/// What the caller is asked to do in `phase`.
pub open spec fn directive_of(phase: Phase) -> Directive {
    match phase {
        Phase::RunningLedger(i) => Directive::RunLedger(i),
        Phase::Idle => Directive::AnnouncePause,
        Phase::Sleeping => Directive::Sleep { seconds: SLEEP_SECONDS },
    }
}

/// The signal that answers the directive of `phase`, for a ledger cycle
/// that ended with `outcome`.
pub open spec fn answer_to(phase: Phase, outcome: Outcome) -> Signal {
    match phase {
        Phase::RunningLedger(_) => Signal::LedgerFinished(outcome),
        Phase::Idle => Signal::PauseAnnounced,
        Phase::Sleeping => Signal::Woke,
    }
}

/// The phase reached from `phase` after `signals`, one after the other.
pub open spec fn phase_after(phase: Phase, signals: Seq<Signal>, ledger_count: usize) -> Phase
    decreases signals.len(),
{
    if signals.len() == 0 {
        phase
    } else {
        next_phase(phase_after(phase, signals.drop_last(), ledger_count), signals.last(), ledger_count)
    }
}

/// The signals that report the end of one ledger cycle after the other.
pub open spec fn ledger_signals(outcomes: Seq<Outcome>) -> Seq<Signal> {
    outcomes.map_values(|o: Outcome| Signal::LedgerFinished(o))
}

/// A scheduler as the contracts see it.
pub struct SchedulerView {
    pub ledger_count: usize,
    pub phase: Phase,
}

impl SchedulerView {
    /// A running ledger is one of the configured ledgers.
    pub open spec fn wf(self) -> bool {
        self.phase matches Phase::RunningLedger(i) ==> i < self.ledger_count
    }
}

/// The outer control loop's state.
pub struct Scheduler {
    ledger_count: usize,
    phase: Phase,
}

impl View for Scheduler {
    type V = SchedulerView;

    closed spec fn view(&self) -> SchedulerView {
        SchedulerView { ledger_count: self.ledger_count, phase: self.phase }
    }
}

impl Scheduler {
    #[verifier::type_invariant]
    spec fn well_formed(self) -> bool {
        self@.wf()
    }

    /// A scheduler for `ledger_count` ledgers, at the start of a pass.
    pub fn new(ledger_count: usize) -> (scheduler: Scheduler)
        ensures
            scheduler@ == (SchedulerView { ledger_count, phase: first_phase(ledger_count) }),
            scheduler@.wf(),
    {
        let phase = if ledger_count > 0 {
            Phase::RunningLedger(0)
        } else {
            Phase::Idle
        };
        Scheduler { ledger_count, phase }
    }

    /// The current phase.
    pub fn phase(&self) -> (phase: Phase)
        ensures
            phase == self@.phase,
            self@.wf(),
    {
        proof {
            use_type_invariant(self);
        }
        self.phase
    }

    /// The number of configured ledgers.
    pub fn ledger_count(&self) -> (count: usize)
        ensures
            count == self@.ledger_count,
    {
        self.ledger_count
    }

    /// What the caller is asked to do now.
    pub fn directive(&self) -> (directive: Directive)
        ensures
            directive == directive_of(self@.phase),
            directive matches Directive::RunLedger(i) ==> i < self@.ledger_count,
    {
        proof {
            use_type_invariant(self);
        }
        match self.phase {
            Phase::RunningLedger(i) => Directive::RunLedger(i),
            Phase::Idle => Directive::AnnouncePause,
            Phase::Sleeping => Directive::Sleep { seconds: SLEEP_SECONDS },
        }
    }

    /// Takes the caller's report and moves to the next phase.
    pub fn advance(&mut self, signal: Signal)
        ensures
            final(self)@.ledger_count == old(self)@.ledger_count,
            final(self)@.phase == next_phase(old(self)@.phase, signal, old(self)@.ledger_count),
            final(self)@.wf(),
    {
        proof {
            use_type_invariant(&*self);
        }
        let next = match (self.phase, signal) {
            (Phase::RunningLedger(i), Signal::LedgerFinished(_)) => {
                if i + 1 < self.ledger_count {
                    Phase::RunningLedger(i + 1)
                } else {
                    Phase::Idle
                }
            },
            (Phase::Idle, Signal::PauseAnnounced) => Phase::Sleeping,
            (Phase::Sleeping, Signal::Woke) => {
                if self.ledger_count > 0 {
                    Phase::RunningLedger(0)
                } else {
                    Phase::Idle
                }
            },
            (phase, _) => phase,
        };
        self.phase = next;
    }
}

/// However the cycle of a ledger ended, the next ledger is run, or the
/// pass is complete if it was the last one.
pub proof fn lemma_every_outcome_moves_on(ledger: usize, ledger_count: usize, outcome: Outcome)
    requires
        ledger < ledger_count,
    ensures
        next_phase(Phase::RunningLedger(ledger), Signal::LedgerFinished(outcome), ledger_count)
            == if ledger + 1 < ledger_count {
            Phase::RunningLedger((ledger + 1) as usize)
        } else {
            Phase::Idle
        },
{
}

/// The ledgers are run in their configured order: once the first `k`
/// cycles of a pass have ended, whatever their outcomes, ledger `k` is
/// running, and after the last one the pass is complete.
pub proof fn lemma_pass_runs_ledgers_in_order(ledger_count: usize, outcomes: Seq<Outcome>)
    requires
        outcomes.len() <= ledger_count,
    ensures
        phase_after(first_phase(ledger_count), ledger_signals(outcomes), ledger_count) == if outcomes.len()
            < ledger_count {
            Phase::RunningLedger(outcomes.len() as usize)
        } else {
            Phase::Idle
        },
    decreases outcomes.len(),
{
    if outcomes.len() > 0 {
        lemma_pass_runs_ledgers_in_order(ledger_count, outcomes.drop_last());
        assert(ledger_signals(outcomes).drop_last() =~= ledger_signals(outcomes.drop_last()));
    }
}

/// The loop has no last state: answering the directive of a phase always
/// leads to another phase, a complete pass is followed by the pause, and
/// the pause by a new pass from the first ledger.
pub proof fn lemma_scheduler_never_stops(s: SchedulerView, outcome: Outcome)
    requires
        s.wf(),
    ensures
        next_phase(s.phase, answer_to(s.phase, outcome), s.ledger_count) != s.phase,
        next_phase(Phase::Idle, Signal::PauseAnnounced, s.ledger_count) == Phase::Sleeping,
        next_phase(Phase::Sleeping, Signal::Woke, s.ledger_count) == first_phase(s.ledger_count),
{
}

} // verus!
