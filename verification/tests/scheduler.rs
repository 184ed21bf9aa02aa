use utxo_merger::assemble::AssembleError;
use utxo_merger::cycle::Outcome;
use utxo_merger::scheduler::{Directive, Phase, Scheduler, Signal};
use utxo_merger::types::SLEEP_SECONDS;

#[test]
fn pause_lasts_fifteen_minutes() {
    assert_eq!(SLEEP_SECONDS, 15 * 60);
}

#[test]
fn pass_runs_every_ledger_in_order_then_pauses_and_starts_over() {
    let mut s = Scheduler::new(3);
    assert_eq!(s.ledger_count(), 3);
    assert_eq!(s.phase(), Phase::RunningLedger(0));
    assert_eq!(s.directive(), Directive::RunLedger(0));
    s.advance(Signal::LedgerFinished(Outcome::Sent));
    assert_eq!(s.phase(), Phase::RunningLedger(1));
    s.advance(Signal::LedgerFinished(Outcome::Skipped { available: 3 }));
    assert_eq!(s.phase(), Phase::RunningLedger(2));
    assert_eq!(s.directive(), Directive::RunLedger(2));
    s.advance(Signal::LedgerFinished(Outcome::Sent));
    assert_eq!(s.phase(), Phase::Idle);
    assert_eq!(s.directive(), Directive::AnnouncePause);
    s.advance(Signal::PauseAnnounced);
    assert_eq!(s.phase(), Phase::Sleeping);
    assert_eq!(s.directive(), Directive::Sleep { seconds: 900 });
    s.advance(Signal::Woke);
    assert_eq!(s.phase(), Phase::RunningLedger(0));
}

#[test]
fn failed_ledger_does_not_hold_up_the_others() {
    let failures = [
        Outcome::HeightUnavailable,
        Outcome::Skipped { available: 0 },
        Outcome::Rejected(AssembleError::NothingToSend),
        Outcome::Rejected(AssembleError::AmountTooLarge),
        Outcome::SigningFailed { input: 1 },
        Outcome::PayloadTooLarge,
        Outcome::BroadcastFailed,
    ];
    for failure in failures {
        let mut s = Scheduler::new(2);
        s.advance(Signal::LedgerFinished(failure));
        assert_eq!(s.phase(), Phase::RunningLedger(1));
        s.advance(Signal::LedgerFinished(failure));
        assert_eq!(s.phase(), Phase::Idle);
    }
}

#[test]
fn signal_that_does_not_belong_to_the_phase_is_ignored() {
    let mut s = Scheduler::new(1);
    s.advance(Signal::Woke);
    assert_eq!(s.phase(), Phase::RunningLedger(0));
    s.advance(Signal::PauseAnnounced);
    assert_eq!(s.phase(), Phase::RunningLedger(0));
    s.advance(Signal::LedgerFinished(Outcome::Sent));
    assert_eq!(s.phase(), Phase::Idle);
    s.advance(Signal::LedgerFinished(Outcome::Sent));
    assert_eq!(s.phase(), Phase::Idle);
    s.advance(Signal::Woke);
    assert_eq!(s.phase(), Phase::Idle);
    s.advance(Signal::PauseAnnounced);
    s.advance(Signal::PauseAnnounced);
    s.advance(Signal::LedgerFinished(Outcome::Sent));
    assert_eq!(s.phase(), Phase::Sleeping);
}

#[test]
fn scheduler_without_ledgers_only_pauses() {
    let mut s = Scheduler::new(0);
    assert_eq!(s.phase(), Phase::Idle);
    s.advance(Signal::PauseAnnounced);
    assert_eq!(s.phase(), Phase::Sleeping);
    s.advance(Signal::Woke);
    assert_eq!(s.phase(), Phase::Idle);
}
