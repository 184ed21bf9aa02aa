//! The maturity and value filter.

use crate::types::{TaggedOutput, Unspent, CONFIRMATION_DEPTH};
use vstd::prelude::*;

verus! {

/// An output is mature when it is confirmed and the chain has grown more
/// than `CONFIRMATION_DEPTH` blocks past its confirmation.
pub open spec fn is_mature(height: Option<u64>, current_height: u64) -> bool {
    match height {
        Some(confirmed_at) => current_height - confirmed_at > CONFIRMATION_DEPTH,
        None => false,
    }
}

/// An output may be consolidated when it is worth at least `threshold` and
/// is mature.
pub open spec fn eligible(output: Unspent, current_height: u64, threshold: u64) -> bool {
    output.value >= threshold && is_mature(output.height, current_height)
}

/// The test that the filter applies to each tagged output.
pub open spec fn keeps(current_height: u64, threshold: u64) -> spec_fn(TaggedOutput) -> bool {
    |t: TaggedOutput| eligible(t.output, current_height, threshold)
}

/// The eligible outputs among `collected`, in the order in which they were
/// collected.
pub open spec fn retained(
    collected: Seq<TaggedOutput>,
    current_height: u64,
    threshold: u64,
) -> Seq<TaggedOutput> {
    collected.filter(keeps(current_height, threshold))
}

/// Decides whether one output may be consolidated.
pub fn is_eligible(output: &Unspent, current_height: u64, threshold: u64) -> (yes: bool)
    ensures
        yes == eligible(*output, current_height, threshold),
{
    if output.value < threshold {
        return false;
    }
    match output.height {
        Some(confirmed_at) => confirmed_at <= current_height && current_height - confirmed_at
            > CONFIRMATION_DEPTH,
        None => false,
    }
}

/// Narrows the collected outputs to the eligible ones, keeping their order.
pub fn filter_eligible(
    collected: &Vec<TaggedOutput>,
    current_height: u64,
    threshold: u64,
) -> (kept: Vec<TaggedOutput>)
    ensures
        kept@ == retained(collected@, current_height, threshold),
        kept@.len() <= collected@.len(),
{
    let ghost keep = keeps(current_height, threshold);
    let mut kept: Vec<TaggedOutput> = Vec::new();
    let mut i: usize = 0;
    proof {
        reveal(Seq::filter);
        assert(collected@.take(0) =~= Seq::<TaggedOutput>::empty());
    }
    while i < collected.len()
        invariant
            i <= collected.len(),
            keep == keeps(current_height, threshold),
            kept@ == collected@.take(i as int).filter(keep),
        decreases collected.len() - i,
    {
        let candidate: TaggedOutput = collected[i];
        proof {
            assert(collected@.take(i + 1) =~= collected@.take(i as int).push(candidate));
            collected@.take(i as int).lemma_filter_push(candidate, keep);
        }
        if is_eligible(&candidate.output, current_height, threshold) {
            kept.push(candidate);
        }
        i += 1;
    }
    proof {
        assert(collected@.take(i as int) =~= collected@);
        collected@.lemma_filter_len(keep);
    }
    kept
}

/// Filtering leaves a sequence unchanged when all of it passes the test.
proof fn lemma_filter_keeps_all<A>(s: Seq<A>, pred: spec_fn(A) -> bool)
    requires
        forall|i: int| 0 <= i < s.len() ==> pred(#[trigger] s[i]),
    ensures
        s.filter(pred) == s,
    decreases s.len(),
{
    reveal(Seq::filter);
    if s.len() > 0 {
        lemma_filter_keeps_all(s.drop_last(), pred);
        assert(s.drop_last().push(s.last()) =~= s);
    }
}

/// The filter keeps an output if and only if the output was collected and
/// is eligible.
pub proof fn lemma_retained_iff_eligible(
    collected: Seq<TaggedOutput>,
    current_height: u64,
    threshold: u64,
    t: TaggedOutput,
)
    ensures
        retained(collected, current_height, threshold).contains(t) <==> collected.contains(t)
            && eligible(t.output, current_height, threshold),
{
    let keep = keeps(current_height, threshold);
    let kept = collected.filter(keep);
    if kept.contains(t) {
        let j = choose|j: int| 0 <= j < kept.len() && kept[j] == t;
        collected.lemma_filter_pred(keep, j);
        collected.lemma_filter_contains_rev(keep, t);
    }
    if collected.contains(t) && eligible(t.output, current_height, threshold) {
        let i = choose|i: int| 0 <= i < collected.len() && collected[i] == t;
        collected.lemma_filter_contains(keep, i);
    }
}

/// Every output that the filter keeps is worth at least the threshold and
/// is mature.
pub proof fn lemma_retained_all_eligible(
    collected: Seq<TaggedOutput>,
    current_height: u64,
    threshold: u64,
)
    ensures
        forall|i: int|
            0 <= i < retained(collected, current_height, threshold).len() ==> eligible(
                (#[trigger] retained(collected, current_height, threshold)[i]).output,
                current_height,
                threshold,
            ),
{
    let keep = keeps(current_height, threshold);
    assert forall|i: int| 0 <= i < collected.filter(keep).len() implies eligible(
        (#[trigger] collected.filter(keep)[i]).output,
        current_height,
        threshold,
    ) by {
        collected.lemma_filter_pred(keep, i);
    }
}

/// Filtering is stable: applied to its own result, with the same height and
/// threshold, it returns that result unchanged.
pub proof fn lemma_retained_idempotent(
    collected: Seq<TaggedOutput>,
    current_height: u64,
    threshold: u64,
)
    ensures
        retained(retained(collected, current_height, threshold), current_height, threshold)
            == retained(collected, current_height, threshold),
{
    let keep = keeps(current_height, threshold);
    let kept = collected.filter(keep);
    assert forall|i: int| 0 <= i < kept.len() implies keep(#[trigger] kept[i]) by {
        collected.lemma_filter_pred(keep, i);
    }
    lemma_filter_keeps_all(kept, keep);
}

} // verus!
