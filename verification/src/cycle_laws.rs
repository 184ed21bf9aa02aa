//! What holds of every run of a ledger cycle: the skip decision, the
//! isolation of failed queries, the alignment of inputs and keys, and the
//! end of the cycle after a failure.

use crate::assemble::{assembled, input_for};
use crate::collect::{collected_from, contribution};
use crate::cycle::{
    after_collection, lemma_step_preserves_wf, Action, CycleView, EventView, Outcome, StageView,
};
use crate::encoding::{encodable_len, hex_lower};
use crate::filter::retained;
use crate::sign::{is_signed_form, signed_in_place, signed_input};
use crate::types::{
    SignedInputView, SignedTxView, TaggedOutput, UnsignedInputView, Unspent, MIN_INPUTS,
};
use vstd::prelude::*;

verus! {

/// The events of a collection in which the height query answers `height`
/// and the query for key `k` is answered by `replies[k]`.
pub open spec fn collection_events(height: u64, replies: Seq<Option<Seq<Unspent>>>) -> Seq<
    EventView,
> {
    seq![EventView::Height(Some(height))] + replies.map_values(
        |r: Option<Seq<Unspent>>| EventView::Unspents(r),
    )
}

/// The events of one successful signature after the other.
pub open spec fn signature_events(scripts: Seq<Seq<u8>>) -> Seq<EventView> {
    scripts.map_values(|s: Seq<u8>| EventView::Signature(Some(s)))
}

/// The first inputs of `unsigned`, each with the script at its position.
pub open spec fn signed_with(unsigned: Seq<UnsignedInputView>, scripts: Seq<Seq<u8>>) -> Seq<
    SignedInputView,
> {
    Seq::new(scripts.len(), |i: int| signed_input(unsigned[i], scripts[i]))
}

/// A finished cycle stays finished: whatever is reported afterwards, the
/// outcome stands and nothing else is ever asked for.
pub proof fn lemma_finished_is_final(c: CycleView, events: Seq<EventView>)
    requires
        c.stage is Finished,
    ensures
        c.run(events) == c,
    decreases events.len(),
{
    if events.len() > 0 {
        lemma_finished_is_final(c, events.drop_last());
    }
}

/// The skip decision precedes assembly. With fewer than `MIN_INPUTS`
/// eligible outputs the cycle ends as skipped, and nothing that is
/// reported afterwards makes it sign, serialize or broadcast. Signing is
/// entered only with at least `MIN_INPUTS` eligible outputs.
pub proof fn lemma_too_few_is_skipped(
    c: CycleView,
    height: u64,
    collected: Seq<TaggedOutput>,
    later: Seq<EventView>,
)
    ensures
        ({
            let eligible_count = retained(collected, height, c.threshold).len();
            let settled = CycleView {
                key_count: c.key_count,
                threshold: c.threshold,
                destination: c.destination,
                stage: after_collection(c.threshold, c.destination, height, collected),
            };
            &&& eligible_count < MIN_INPUTS ==> settled.run(later).pending() == Action::Finish(
                Outcome::Skipped { available: eligible_count as usize },
            )
            &&& settled.stage is Signing ==> eligible_count >= MIN_INPUTS
        }),
{
    let settled = CycleView {
        key_count: c.key_count,
        threshold: c.threshold,
        destination: c.destination,
        stage: after_collection(c.threshold, c.destination, height, collected),
    };
    if retained(collected, height, c.threshold).len() < MIN_INPUTS {
        lemma_finished_is_final(settled, later);
    }
}

/// While collecting, the cycle has gathered exactly what the answers so far
/// contribute, and asks the next key.
proof fn lemma_collecting_prefix(
    c: CycleView,
    height: u64,
    replies: Seq<Option<Seq<Unspent>>>,
    k: int,
)
    requires
        c.stage == StageView::AwaitingHeight,
        replies.len() == c.key_count,
        0 <= k < replies.len(),
    ensures
        c.run(collection_events(height, replies.take(k))) == (CycleView {
            key_count: c.key_count,
            threshold: c.threshold,
            destination: c.destination,
            stage: StageView::Collecting {
                height,
                key: k as usize,
                collected: collected_from(replies.take(k)),
            },
        }),
    decreases k,
{
    let events = collection_events(height, replies.take(k));
    if k == 0 {
        assert(events.drop_last() =~= Seq::<EventView>::empty());
        assert(c.run(events.drop_last()) == c);
    } else {
        lemma_collecting_prefix(c, height, replies, k - 1);
        assert(events.drop_last() =~= collection_events(height, replies.take(k - 1)));
        assert(events.last() == EventView::Unspents(replies[k - 1]));
        assert(replies.take(k).drop_last() =~= replies.take(k - 1));
    }
}

/// Fault isolation among the keys. When the height is known and every key
/// has been asked, the cycle has collected exactly the outputs of the keys
/// whose queries succeeded, and goes on with them: a failed query ends
/// nothing.
pub proof fn lemma_collection_run(c: CycleView, height: u64, replies: Seq<Option<Seq<Unspent>>>)
    requires
        c.stage == StageView::AwaitingHeight,
        replies.len() == c.key_count,
    ensures
        c.run(collection_events(height, replies)).stage == after_collection(
            c.threshold,
            c.destination,
            height,
            collected_from(replies),
        ),
{
    let events = collection_events(height, replies);
    if replies.len() == 0 {
        assert(events.drop_last() =~= Seq::<EventView>::empty());
        assert(c.run(events.drop_last()) == c);
    } else {
        let k = replies.len() - 1;
        lemma_collecting_prefix(c, height, replies, k);
        assert(events.drop_last() =~= collection_events(height, replies.take(k)));
        assert(events.last() == EventView::Unspents(replies[k]));
        assert(replies.drop_last() =~= replies.take(k));
    }
}

/// Index alignment. In the signing stage there is one unsigned input per
/// eligible output, built from the output at the same position; the input
/// to be signed next is the first one without a signature, and the key
/// asked to sign it is the key tagged onto the output at that position.
pub proof fn lemma_signing_is_aligned(c: CycleView)
    requires
        c.wf(),
        c.stage is Signing,
    ensures
        ({
            let sources = c.stage->Signing_sources;
            let unsigned = c.stage->Signing_unsigned;
            let signed = c.stage->Signing_signed;
            &&& unsigned.inputs.len() == sources.len()
            &&& forall|i: int|
                0 <= i < sources.len() ==> #[trigger] unsigned.inputs[i] == input_for(
                    sources[i].output,
                )
            &&& signed.len() < sources.len()
            &&& signed_in_place(unsigned.inputs, signed)
            &&& c.pending() == Action::SignInput {
                input: signed.len() as usize,
                key: sources[signed.len() as int].key,
            }
            &&& sources[signed.len() as int].key < c.key_count
        }),
{
}

/// Signing runs through the inputs in order. From the start of the signing
/// stage, while signatures keep arriving, the signed inputs are the
/// unsigned ones with the scripts attached position by position; with the
/// last signature the transaction is complete, its outputs untouched, and
/// goes to serialization.
pub proof fn lemma_signing_run(c: CycleView, scripts: Seq<Seq<u8>>)
    requires
        c.wf(),
        c.stage is Signing,
        c.stage->Signing_signed.len() == 0,
        scripts.len() <= c.stage->Signing_sources.len(),
    ensures
        ({
            let unsigned = c.stage->Signing_unsigned;
            let signed = signed_with(unsigned.inputs, scripts);
            c.run(signature_events(scripts)).stage == if scripts.len() < unsigned.inputs.len() {
                StageView::Signing {
                    height: c.stage->Signing_height,
                    sources: c.stage->Signing_sources,
                    unsigned,
                    signed,
                }
            } else {
                StageView::Serializing {
                    tx: SignedTxView { inputs: signed, outputs: unsigned.outputs },
                }
            }
        }),
        scripts.len() == c.stage->Signing_sources.len() ==> is_signed_form(
            c.stage->Signing_unsigned,
            c.run(signature_events(scripts)).stage->Serializing_tx,
        ),
    decreases scripts.len(),
{
    let unsigned = c.stage->Signing_unsigned;
    let events = signature_events(scripts);
    if scripts.len() == 0 {
        assert(c.stage->Signing_signed =~= signed_with(unsigned.inputs, scripts));
    } else {
        let front = scripts.drop_last();
        lemma_signing_run(c, front);
        assert(events.drop_last() =~= signature_events(front));
        assert(events.last() == EventView::Signature(Some(scripts.last())));
        assert(signed_with(unsigned.inputs, front).push(
            signed_input(unsigned.inputs[front.len() as int], scripts.last()),
        ) =~= signed_with(unsigned.inputs, scripts));
    }
}

/// A failure ends the cycle at once, except a failed query for one key's
/// outputs: without the height, without a signature or without the
/// ledger's acceptance the cycle is finished, and whatever is reported
/// later nothing more is asked for, in particular no broadcast after a
/// failed signature. A failed query for a key's outputs leaves what was
/// collected as it is and moves on to the next key.
pub proof fn lemma_failure_ends_the_cycle(c: CycleView, later: Seq<EventView>)
    requires
        c.wf(),
    ensures
        c.stage is AwaitingHeight ==> c.step(EventView::Height(None)).run(later).pending()
            == Action::Finish(Outcome::HeightUnavailable),
        c.stage is Signing ==> c.step(EventView::Signature(None)).run(later).pending()
            == Action::Finish(
            Outcome::SigningFailed { input: c.stage->Signing_signed.len() as usize },
        ),
        c.stage is Broadcasting ==> c.step(EventView::Submitted(false)).run(later).pending()
            == Action::Finish(Outcome::BroadcastFailed),
        c.stage matches StageView::Collecting { height, key, collected } ==> key + 1
            < c.key_count ==> c.step(EventView::Unspents(None)).stage
            == (StageView::Collecting { height, key: (key + 1) as usize, collected }),
{
    if c.stage is AwaitingHeight {
        lemma_finished_is_final(c.step(EventView::Height(None)), later);
    }
    if c.stage is Signing {
        lemma_finished_is_final(c.step(EventView::Signature(None)), later);
    }
    if c.stage is Broadcasting {
        lemma_finished_is_final(c.step(EventView::Submitted(false)), later);
    }
    if let StageView::Collecting { height, key, collected } = c.stage {
        assert(collected + contribution(None, key) =~= collected);
    }
}

/// Every run keeps a well-formed cycle well formed.
pub proof fn lemma_run_preserves_wf(c: CycleView, events: Seq<EventView>)
    requires
        c.wf(),
    ensures
        c.run(events).wf(),
    decreases events.len(),
{
    if events.len() > 0 {
        lemma_run_preserves_wf(c, events.drop_last());
        lemma_step_preserves_wf(c.run(events.drop_last()), events.last());
    }
}

/// Reporting `first` and then `later` is one run over all of them.
pub proof fn lemma_run_in_two_parts(c: CycleView, first: Seq<EventView>, later: Seq<EventView>)
    ensures
        c.run(first + later) == c.run(first).run(later),
    decreases later.len(),
{
    if later.len() == 0 {
        assert(first + later =~= first);
    } else {
        lemma_run_in_two_parts(c, first, later.drop_last());
        assert((first + later).drop_last() =~= first + later.drop_last());
        assert((first + later).last() == later.last());
    }
}

/// A cycle in which nothing fails. When the outputs reported for the keys
/// hold at least `MIN_INPUTS` eligible ones that are worth their fees,
/// and every input gets its signature, the transaction that goes to
/// serialization is the one assembled from the eligible outputs, signed
/// in place; its serialized form is broadcast as lowercase hexadecimal
/// text; and the cycle ends as sent or as refused by the ledger.
pub proof fn lemma_complete_cycle(
    c: CycleView,
    height: u64,
    replies: Seq<Option<Seq<Unspent>>>,
    scripts: Seq<Seq<u8>>,
    raw: Seq<u8>,
    accepted: bool,
)
    requires
        c.stage == StageView::AwaitingHeight,
        replies.len() == c.key_count,
        retained(collected_from(replies), height, c.threshold).len() >= MIN_INPUTS,
        assembled(retained(collected_from(replies), height, c.threshold), c.destination) is Ok,
        scripts.len() == retained(collected_from(replies), height, c.threshold).len(),
        encodable_len(raw.len()),
    ensures
        ({
            let sources = retained(collected_from(replies), height, c.threshold);
            let unsigned = assembled(sources, c.destination)->Ok_0;
            let signed = SignedTxView {
                inputs: signed_with(unsigned.inputs, scripts),
                outputs: unsigned.outputs,
            };
            let upto_signing = collection_events(height, replies) + signature_events(scripts);
            &&& c.run(upto_signing).stage == (StageView::Serializing { tx: signed })
            &&& is_signed_form(unsigned, signed)
            &&& c.run(upto_signing + seq![EventView::Serialized(raw)]).stage
                == (StageView::Broadcasting { payload: hex_lower(raw) })
            &&& c.run(
                upto_signing + seq![EventView::Serialized(raw), EventView::Submitted(accepted)],
            ).stage == StageView::Finished(
                if accepted {
                    Outcome::Sent
                } else {
                    Outcome::BroadcastFailed
                },
            )
        }),
{
    let collecting = collection_events(height, replies);
    let signing = signature_events(scripts);
    let serialized = seq![EventView::Serialized(raw)];
    let submitted = seq![EventView::Submitted(accepted)];
    let collected = c.run(collecting);
    lemma_collection_run(c, height, replies);
    lemma_run_preserves_wf(c, collecting);
    lemma_signing_run(collected, scripts);
    lemma_run_in_two_parts(c, collecting, signing);
    let signed = c.run(collecting + signing);
    lemma_run_in_two_parts(c, collecting + signing, serialized);
    assert(serialized.drop_last() =~= Seq::<EventView>::empty());
    assert(signed.run(serialized) == signed.run(serialized.drop_last()).step(serialized.last()));
    let payload = c.run(collecting + signing + serialized);
    lemma_run_in_two_parts(c, collecting + signing + serialized, submitted);
    assert(submitted.drop_last() =~= Seq::<EventView>::empty());
    assert(payload.run(submitted) == payload.run(submitted.drop_last()).step(submitted.last()));
    assert(collecting + signing + serialized + submitted =~= collecting + signing
        + seq![EventView::Serialized(raw), EventView::Submitted(accepted)]);
}

/// Whether `event` answers the action that is pending in `stage`.
pub open spec fn answers(stage: StageView, event: EventView) -> bool {
    match (stage, event) {
        (StageView::AwaitingHeight, EventView::Height(_)) => true,
        (StageView::Collecting { .. }, EventView::Unspents(_)) => true,
        (StageView::Signing { .. }, EventView::Signature(_)) => true,
        (StageView::Serializing { .. }, EventView::Serialized(_)) => true,
        (StageView::Broadcasting { .. }, EventView::Submitted(_)) => true,
        _ => false,
    }
}

/// The number of stages that may still follow `stage`.
pub open spec fn stages_left(stage: StageView) -> nat {
    match stage {
        StageView::AwaitingHeight => 5,
        StageView::Collecting { .. } => 4,
        StageView::Signing { .. } => 3,
        StageView::Serializing { .. } => 2,
        StageView::Broadcasting { .. } => 1,
        StageView::Finished(_) => 0,
    }
}

/// The number of actions that the current stage still asks for at most:
/// one per key not yet asked, one per input not yet signed.
pub open spec fn actions_left(c: CycleView) -> nat {
    match c.stage {
        StageView::Collecting { height, key, collected } => (c.key_count - key) as nat,
        StageView::Signing { height, sources, unsigned, signed } => (unsigned.inputs.len()
            - signed.len()) as nat,
        _ => 0,
    }
}

/// Every cycle comes to an end. An event that answers the pending action
/// leaves fewer stages to go, or the same stage with fewer actions to go;
/// any other event changes nothing.
pub proof fn lemma_cycle_makes_progress(c: CycleView, event: EventView)
    requires
        c.wf(),
    ensures
        !answers(c.stage, event) ==> c.step(event) == c,
        answers(c.stage, event) ==> stages_left(c.step(event).stage) < stages_left(c.stage) || (
        stages_left(c.step(event).stage) == stages_left(c.stage) && actions_left(c.step(event))
            < actions_left(c)),
{
}

} // verus!
