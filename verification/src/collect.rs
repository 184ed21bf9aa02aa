//! The unspent collector: gathers what each key can claim and remembers
//! which key that was. A key whose query failed contributes nothing and
//! costs the other keys nothing.

use crate::types::{TaggedOutput, Unspent};
use vstd::prelude::*;

verus! {

/// The outputs reported for one key, each tagged with that key.
pub open spec fn tagged_with(outputs: Seq<Unspent>, key: usize) -> Seq<TaggedOutput> {
    Seq::new(outputs.len(), |i: int| TaggedOutput { output: outputs[i], key })
}

/// What the answer to one key's query adds to the collection: the reported
/// outputs, or nothing when the query failed (`None`).
pub open spec fn contribution(reply: Option<Seq<Unspent>>, key: usize) -> Seq<TaggedOutput> {
    match reply {
        Some(outputs) => tagged_with(outputs, key),
        None => Seq::empty(),
    }
}

/// The collection gathered from the answers for keys `0`, `1`, ... in this
/// order; `replies[k]` answers the query for key `k`.
pub open spec fn collected_from(replies: Seq<Option<Seq<Unspent>>>) -> Seq<TaggedOutput>
    decreases replies.len(),
{
    if replies.len() == 0 {
        Seq::empty()
    } else {
        collected_from(replies.drop_last()) + contribution(
            replies.last(),
            (replies.len() - 1) as usize,
        )
    }
}

/// The answer to a query as the contracts see it.
pub open spec fn reply_view(reply: Option<Vec<Unspent>>) -> Option<Seq<Unspent>> {
    match reply {
        Some(outputs) => Some(outputs@),
        None => None,
    }
}

/// The answers to the queries of all keys as the contracts see them.
pub open spec fn replies_view(replies: Seq<Option<Vec<Unspent>>>) -> Seq<Option<Seq<Unspent>>> {
    replies.map_values(|r: Option<Vec<Unspent>>| reply_view(r))
}

/// Whether the answer for the key of `t` succeeded and lists the output of
/// `t`.
pub open spec fn reported(replies: Seq<Option<Seq<Unspent>>>, t: TaggedOutput) -> bool {
    t.key < replies.len() && match replies[t.key as int] {
        Some(outputs) => outputs.contains(t.output),
        None => false,
    }
}

/// Adds the answer to the query for `key` to the collection.
pub fn absorb_reply(collected: &mut Vec<TaggedOutput>, reply: &Option<Vec<Unspent>>, key: usize)
    ensures
        final(collected)@ == old(collected)@ + contribution(reply_view(*reply), key),
{
    match reply {
        Some(outputs) => {
            let mut i: usize = 0;
            while i < outputs.len()
                invariant
                    i <= outputs.len(),
                    collected@ == old(collected)@ + tagged_with(outputs@.take(i as int), key),
                decreases outputs.len() - i,
            {
                collected.push(TaggedOutput { output: outputs[i], key });
                proof {
                    assert(tagged_with(outputs@.take(i + 1), key) =~= tagged_with(
                        outputs@.take(i as int),
                        key,
                    ).push(TaggedOutput { output: outputs@[i as int], key }));
                }
                i += 1;
            }
            proof {
                assert(outputs@.take(i as int) =~= outputs@);
            }
        },
        None => {},
    }
}

/// Gathers the outputs of all keys from the answers to their queries, in
/// the order of the keys; `replies[k]` answers the query for key `k`.
pub fn collect_unspents(replies: &Vec<Option<Vec<Unspent>>>) -> (collected: Vec<TaggedOutput>)
    ensures
        collected@ == collected_from(replies_view(replies@)),
{
    let mut collected: Vec<TaggedOutput> = Vec::new();
    let mut key: usize = 0;
    while key < replies.len()
        invariant
            key <= replies.len(),
            collected@ == collected_from(replies_view(replies@).take(key as int)),
        decreases replies.len() - key,
    {
        proof {
            let upto = replies_view(replies@).take(key + 1);
            assert(upto.drop_last() =~= replies_view(replies@).take(key as int));
            assert(upto.last() == reply_view(replies@[key as int]));
        }
        absorb_reply(&mut collected, &replies[key], key);
        key += 1;
    }
    proof {
        assert(replies_view(replies@).take(key as int) =~= replies_view(replies@));
    }
    collected
}

/// A tagged output is collected if and only if the query for its key
/// succeeded and reported it. So a failed query removes nothing that
/// another key reported, and adds nothing.
pub proof fn lemma_collected_iff_reported(replies: Seq<Option<Seq<Unspent>>>, t: TaggedOutput)
    requires
        replies.len() <= usize::MAX,
    ensures
        collected_from(replies).contains(t) <==> reported(replies, t),
    decreases replies.len(),
{
    if replies.len() > 0 {
        let front = replies.drop_last();
        let key = (replies.len() - 1) as usize;
        let tail = contribution(replies.last(), key);
        let head = collected_from(front);
        lemma_collected_iff_reported(front, t);
        if (head + tail).contains(t) {
            let i = choose|i: int| 0 <= i < (head + tail).len() && (head + tail)[i] == t;
            if i < head.len() {
                assert(head[i] == t);
            } else {
                assert(tail[i - head.len()] == t);
                let outputs = replies.last()->Some_0;
                assert(outputs[i - head.len()] == t.output);
            }
        }
        if reported(replies, t) {
            if t.key == key {
                let outputs = replies.last()->Some_0;
                let j = choose|j: int| 0 <= j < outputs.len() && outputs[j] == t.output;
                assert(tail[j] == t);
                assert((head + tail)[head.len() + j] == t);
            } else {
                assert(reported(front, t));
                let i = choose|i: int| 0 <= i < head.len() && head[i] == t;
                assert((head + tail)[i] == t);
            }
        }
    }
}

/// The answer for one key does not change what is collected for the other
/// keys: replacing it, by a failure or by anything else, leaves every
/// output tagged with another key where it was collected or not.
pub proof fn lemma_keys_are_isolated(
    replies: Seq<Option<Seq<Unspent>>>,
    key: int,
    other: Option<Seq<Unspent>>,
    t: TaggedOutput,
)
    requires
        replies.len() <= usize::MAX,
        0 <= key < replies.len(),
        t.key != key,
    ensures
        collected_from(replies.update(key, other)).contains(t) <==> collected_from(
            replies,
        ).contains(t),
{
    lemma_collected_iff_reported(replies, t);
    lemma_collected_iff_reported(replies.update(key, other), t);
}

} // verus!
