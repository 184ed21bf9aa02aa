use utxo_merger::assemble::{unsigned_input_from_electrum, AssembleError};
use utxo_merger::cycle::{settle, Action, Event, LedgerCycle, Outcome, Stage};
use utxo_merger::scheduler::{Phase, Scheduler, Signal};
use utxo_merger::sign::attach_signature;
use utxo_merger::types::{LedgerConfig, TaggedOutput, Unspent};

fn config(threshold: u64) -> LedgerConfig {
    LedgerConfig { ticker: "KMD".to_string(), output_threshold: threshold }
}

fn output(id: u8, value: u64, height: Option<u64>) -> Unspent {
    let mut tx_hash = [0u8; 32];
    tx_hash[0] = id;
    Unspent { tx_hash, tx_pos: id as u32, value, height }
}

fn good(id: u8) -> Unspent {
    output(id, 100_000, Some(800))
}

/// A cycle with height 1000, threshold 50000, in which keys 0 and 1 have
/// reported `first` and `second`.
fn collected(first: Vec<Unspent>, second: Vec<Unspent>) -> LedgerCycle {
    let cycle = LedgerCycle::start(&config(50_000), 2, vec![0xaa, 0xbb]);
    let cycle = cycle.step(Event::Height(Some(1000)));
    let cycle = cycle.step(Event::Unspents(Some(first)));
    cycle.step(Event::Unspents(Some(second)))
}

#[test]
fn cycle_starts_by_asking_for_the_height() {
    let cycle = LedgerCycle::start(&config(1), 3, vec![1, 2, 3]);
    assert_eq!(cycle.pending(), Action::QueryHeight);
    assert_eq!(*cycle.stage(), Stage::AwaitingHeight);
    assert_eq!(cycle.outcome(), None);
    assert_eq!(*cycle.destination(), vec![1, 2, 3]);
}

#[test]
fn failed_height_query_ends_the_cycle() {
    let cycle = LedgerCycle::start(&config(1), 3, Vec::new()).step(Event::Height(None));
    assert_eq!(cycle.pending(), Action::Finish(Outcome::HeightUnavailable));
    assert_eq!(cycle.outcome(), Some(Outcome::HeightUnavailable));
}

#[test]
fn every_key_is_asked_in_turn() {
    let mut cycle = LedgerCycle::start(&config(1), 3, Vec::new()).step(Event::Height(Some(5)));
    for key in 0..3 {
        assert_eq!(cycle.pending(), Action::QueryUnspents { key });
        cycle = cycle.step(Event::Unspents(Some(Vec::new())));
    }
    assert_eq!(cycle.pending(), Action::Finish(Outcome::Skipped { available: 0 }));
}

#[test]
fn cycle_without_keys_is_skipped() {
    let cycle = LedgerCycle::start(&config(1), 0, Vec::new()).step(Event::Height(Some(5)));
    assert_eq!(cycle.outcome(), Some(Outcome::Skipped { available: 0 }));
}

#[test]
fn five_eligible_outputs_are_assembled_signed_and_sent() {
    let cycle = collected(
        vec![good(1), good(2), output(9, 10, Some(800)), good(3)],
        vec![output(8, 100_000, Some(950)), good(4), good(5), output(7, 100_000, None)],
    );
    let sources = vec![
        TaggedOutput { output: good(1), key: 0 },
        TaggedOutput { output: good(2), key: 0 },
        TaggedOutput { output: good(3), key: 0 },
        TaggedOutput { output: good(4), key: 1 },
        TaggedOutput { output: good(5), key: 1 },
    ];
    let unsigned = match cycle.stage() {
        Stage::Signing { height, sources: kept, unsigned, signed } => {
            assert_eq!(*height, 1000);
            assert_eq!(*kept, sources);
            assert!(signed.is_empty());
            unsigned.clone()
        },
        other => panic!("unexpected stage {:?}", other),
    };
    assert_eq!(unsigned.inputs.len(), 5);
    assert_eq!(unsigned.outputs.len(), 1);
    assert_eq!(unsigned.outputs[0].value, 5 * 100_000 - 5 * 1000);
    assert_eq!(unsigned.outputs[0].value, 495_000);
    assert_eq!(unsigned.outputs[0].script_pubkey, vec![0xaa, 0xbb]);
    for i in 0..5 {
        assert_eq!(unsigned.inputs[i], unsigned_input_from_electrum(&sources[i].output));
    }

    let mut cycle = cycle;
    for i in 0..5 {
        assert_eq!(cycle.pending(), Action::SignInput { input: i, key: sources[i].key });
        cycle = cycle.step(Event::Signature(Some(vec![0x30, i as u8])));
    }
    assert_eq!(cycle.pending(), Action::Serialize);
    match cycle.stage() {
        Stage::Serializing { tx } => {
            assert_eq!(tx.outputs, unsigned.outputs);
            assert_eq!(tx.inputs.len(), 5);
            for i in 0..5 {
                assert_eq!(
                    tx.inputs[i],
                    attach_signature(&unsigned.inputs[i], vec![0x30, i as u8])
                );
                assert_eq!(tx.inputs[i].previous_output, unsigned.inputs[i].previous_output);
                assert_eq!(tx.inputs[i].sequence, 0xffff_ffff);
                assert_eq!(tx.inputs[i].script_sig, vec![0x30, i as u8]);
            }
        },
        other => panic!("unexpected stage {:?}", other),
    }

    let cycle = cycle.step(Event::Serialized(vec![0x01, 0x00, 0xab, 0xcd]));
    assert_eq!(cycle.pending(), Action::Broadcast);
    assert_eq!(*cycle.stage(), Stage::Broadcasting { payload: "0100abcd".to_string() });
    let cycle = cycle.step(Event::Submitted(true));
    assert_eq!(cycle.pending(), Action::Finish(Outcome::Sent));
    assert_eq!(cycle.outcome(), Some(Outcome::Sent));
}

#[test]
fn three_eligible_outputs_are_skipped_without_transaction_or_broadcast() {
    let cycle = collected(vec![good(1), good(2)], vec![good(3), output(4, 49_999, Some(1))]);
    assert_eq!(cycle.pending(), Action::Finish(Outcome::Skipped { available: 3 }));
    assert_eq!(*cycle.stage(), Stage::Finished(Outcome::Skipped { available: 3 }));
    let events = [
        Event::Signature(Some(vec![1])),
        Event::Serialized(vec![1]),
        Event::Submitted(true),
        Event::Height(Some(1)),
        Event::Unspents(Some(vec![good(5), good(6)])),
    ];
    let mut cycle = cycle;
    for event in events {
        cycle = cycle.step(event);
        assert_eq!(cycle.pending(), Action::Finish(Outcome::Skipped { available: 3 }));
    }
}

#[test]
fn four_eligible_outputs_are_enough() {
    let cycle = collected(vec![good(1), good(2)], vec![good(3), good(4)]);
    assert_eq!(cycle.pending(), Action::SignInput { input: 0, key: 0 });
}

#[test]
fn failed_query_for_one_key_does_not_stop_the_collection() {
    let cycle = LedgerCycle::start(&config(50_000), 3, Vec::new());
    let cycle = cycle.step(Event::Height(Some(1000)));
    let cycle = cycle.step(Event::Unspents(Some(vec![good(1), good(2)])));
    assert_eq!(cycle.pending(), Action::QueryUnspents { key: 1 });
    let cycle = cycle.step(Event::Unspents(None));
    assert_eq!(cycle.pending(), Action::QueryUnspents { key: 2 });
    match cycle.stage() {
        Stage::Collecting { collected, .. } => assert_eq!(
            *collected,
            vec![
                TaggedOutput { output: good(1), key: 0 },
                TaggedOutput { output: good(2), key: 0 }
            ]
        ),
        other => panic!("unexpected stage {:?}", other),
    }
    let cycle = cycle.step(Event::Unspents(Some(vec![good(3), good(4)])));
    match cycle.stage() {
        Stage::Signing { sources, .. } => {
            let keys: Vec<usize> = sources.iter().map(|t| t.key).collect();
            assert_eq!(keys, vec![0, 0, 2, 2]);
        },
        other => panic!("unexpected stage {:?}", other),
    }
}

#[test]
fn failed_signature_aborts_the_cycle_and_the_next_ledger_still_runs() {
    let mut cycle = collected(vec![good(1), good(2), good(3)], vec![good(4), good(5)]);
    cycle = cycle.step(Event::Signature(Some(vec![1])));
    assert_eq!(cycle.pending(), Action::SignInput { input: 1, key: 0 });
    cycle = cycle.step(Event::Signature(None));
    assert_eq!(cycle.pending(), Action::Finish(Outcome::SigningFailed { input: 1 }));
    for event in [
        Event::Signature(Some(vec![2])),
        Event::Serialized(vec![3]),
        Event::Submitted(true),
    ] {
        cycle = cycle.step(event);
        assert_ne!(cycle.pending(), Action::Broadcast);
        assert_eq!(cycle.outcome(), Some(Outcome::SigningFailed { input: 1 }));
    }

    let mut scheduler = Scheduler::new(2);
    scheduler.advance(Signal::LedgerFinished(cycle.outcome().unwrap()));
    assert_eq!(scheduler.phase(), Phase::RunningLedger(1));
}

#[test]
fn rejected_broadcast_is_reported() {
    let mut cycle = collected(vec![good(1), good(2)], vec![good(3), good(4)]);
    for _ in 0..4 {
        cycle = cycle.step(Event::Signature(Some(Vec::new())));
    }
    cycle = cycle.step(Event::Serialized(vec![0xff]));
    cycle = cycle.step(Event::Submitted(false));
    assert_eq!(cycle.outcome(), Some(Outcome::BroadcastFailed));
}

#[test]
fn outputs_not_worth_their_fees_are_rejected() {
    let cheap = |id: u8| output(id, 900, Some(1));
    let cycle = LedgerCycle::start(&config(500), 1, Vec::new());
    let cycle = cycle.step(Event::Height(Some(1000)));
    let cycle = cycle.step(Event::Unspents(Some(vec![cheap(1), cheap(2), cheap(3), cheap(4)])));
    assert_eq!(cycle.outcome(), Some(Outcome::Rejected(AssembleError::NothingToSend)));
}

#[test]
fn outputs_worth_too_much_are_rejected() {
    let rich = |id: u8| output(id, u64::MAX, Some(1));
    let cycle = LedgerCycle::start(&config(500), 1, Vec::new());
    let cycle = cycle.step(Event::Height(Some(1000)));
    let cycle = cycle.step(Event::Unspents(Some(vec![rich(1), rich(2), rich(3), rich(4)])));
    assert_eq!(cycle.outcome(), Some(Outcome::Rejected(AssembleError::AmountTooLarge)));
}

#[test]
fn event_that_does_not_answer_the_pending_action_is_ignored() {
    let cycle = LedgerCycle::start(&config(1), 1, Vec::new());
    let cycle = cycle.step(Event::Unspents(Some(vec![good(1)])));
    let cycle = cycle.step(Event::Submitted(true));
    assert_eq!(*cycle.stage(), Stage::AwaitingHeight);
    let cycle = cycle.step(Event::Height(Some(1000)));
    let cycle = cycle.step(Event::Height(Some(7)));
    let cycle = cycle.step(Event::Signature(None));
    assert_eq!(
        *cycle.stage(),
        Stage::Collecting { height: 1000, key: 0, collected: Vec::new() }
    );
    let cycle = collected(vec![good(1), good(2)], vec![good(3), good(4)]);
    let cycle = cycle.step(Event::Serialized(vec![1]));
    let cycle = cycle.step(Event::Unspents(None));
    assert_eq!(cycle.pending(), Action::SignInput { input: 0, key: 0 });
}

#[test]
fn settle_skips_rejects_or_opens_signing() {
    let tag = |o: Unspent| TaggedOutput { output: o, key: 0 };
    let few = vec![tag(good(1)), tag(good(2)), tag(good(3))];
    assert_eq!(
        settle(50_000, &Vec::new(), 1000, &few),
        Stage::Finished(Outcome::Skipped { available: 3 })
    );
    let young: Vec<TaggedOutput> = (0..6).map(|i| tag(output(i, 100_000, Some(900)))).collect();
    assert_eq!(
        settle(50_000, &Vec::new(), 1000, &young),
        Stage::Finished(Outcome::Skipped { available: 0 })
    );
    let enough = vec![tag(good(1)), tag(good(2)), tag(good(3)), tag(good(4))];
    match settle(50_000, &vec![9], 1000, &enough) {
        Stage::Signing { sources, unsigned, signed, height } => {
            assert_eq!(height, 1000);
            assert_eq!(sources, enough);
            assert_eq!(unsigned.outputs[0].value, 396_000);
            assert!(signed.is_empty());
        },
        other => panic!("unexpected stage {:?}", other),
    }
}
