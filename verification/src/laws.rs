//! The delivery laws of the mechanism, stated over the same spec functions
//! that the executable contracts use: `apply_one` (one envelope offered to
//! one instance) and `apply_all` (a whole queue drained in order).

use vstd::prelude::*;
use crate::channel::apply_all;
use crate::comp::{apply_one, Payload};
use crate::text::entry_text;

verus! {

/// When an envelope's target id matches a live instance, delivering it grows
/// that instance's log by exactly one entry, and the new entry is the
/// deterministic function of the payload's message, the prior log length and
/// the instance's id.
pub proof fn lemma_live_delivery(log: Seq<Seq<char>>, id: usize, p: Payload)
    requires
        p.my_comp_data_id == id,
    ensures
        apply_one(log, id, p) == log.push(entry_text(p.message@, log.len(), id as nat)),
        apply_one(log, id, p).len() == log.len() + 1,
        apply_one(log, id, p).last() == entry_text(p.message@, log.len(), id as nat),
{
}

/// An envelope addressed to one instance never mutates the log of an
/// instance with a different id: isolation, no cross-talk.
pub proof fn lemma_isolation(log: Seq<Seq<char>>, id: usize, p: Payload)
    requires
        p.my_comp_data_id != id,
    ensures
        apply_one(log, id, p) == log,
{
}

/// How many envelopes of a queue are addressed to the instance id `id`.
pub open spec fn count_for(queue: Seq<Payload>, id: usize) -> nat
    decreases queue.len(),
{
    if queue.len() == 0 {
        0
    } else {
        (if queue[0].my_comp_data_id == id {
            1nat
        } else {
            0nat
        }) + count_for(queue.drop_first(), id)
    }
}

/// When no envelope of the drained queue is addressed to an instance's id —
/// in particular, when an envelope targets an id with no live instance —
/// that instance's log does not change at all.
pub proof fn lemma_no_delivery(log: Seq<Seq<char>>, id: usize, queue: Seq<Payload>)
    requires
        count_for(queue, id) == 0,
    ensures
        apply_all(log, id, queue) == log,
    decreases queue.len(),
{
    if queue.len() > 0 {
        lemma_no_delivery(log, id, queue.drop_first());
    }
}

/// Draining never removes or reorders log entries: whatever the queue holds,
/// the old log is a prefix of the new one (append-only, order-preserving).
pub proof fn lemma_append_only(log: Seq<Seq<char>>, id: usize, queue: Seq<Payload>)
    ensures
        log.is_prefix_of(apply_all(log, id, queue)),
    decreases queue.len(),
{
    if queue.len() == 0 {
        assert(log.is_prefix_of(log));
    } else {
        let log1 = apply_one(log, id, queue[0]);
        lemma_append_only(log1, id, queue.drop_first());
        assert(log =~= apply_all(log, id, queue).subrange(0, log.len() as int));
    }
}

/// When exactly one envelope of the drained queue is addressed to an
/// instance, and every envelope addressed to it carries the message text `m`,
/// draining appends exactly one entry to that instance's log, rendered from
/// `m`, the prior log length and the instance's id — whatever the order of
/// the queue and whatever else it holds.
pub proof fn lemma_single_delivery(log: Seq<Seq<char>>, id: usize, queue: Seq<Payload>, m: Seq<char>)
    requires
        count_for(queue, id) == 1,
        forall|k: int|
            0 <= k < queue.len() && (#[trigger] queue[k]).my_comp_data_id == id
                ==> queue[k].message@ == m,
    ensures
        apply_all(log, id, queue) == log.push(entry_text(m, log.len(), id as nat)),
    decreases queue.len(),
{
    let rest = queue.drop_first();
    assert(forall|k: int| 0 <= k < rest.len() ==> #[trigger] rest[k] == queue[k + 1]);
    if queue[0].my_comp_data_id == id {
        assert(queue[0].message@ == m);
        lemma_no_delivery(log.push(entry_text(m, log.len(), id as nat)), id, rest);
    } else {
        lemma_single_delivery(log, id, rest, m);
    }
}

/// The concurrent scenario's law: three workers race, each submitting one
/// envelope with message text `m`, addressed to the instances `a`, `b` and
/// `c` respectively. Whatever interleaving the channel serialized them into,
/// draining gives each of the three instances, starting from an empty log,
/// exactly one correctly addressed entry: nothing is misdelivered, nothing
/// is lost.
pub proof fn lemma_concurrent_race(queue: Seq<Payload>, a: usize, b: usize, c: usize, m: Seq<char>)
    requires
        count_for(queue, a) == 1,
        count_for(queue, b) == 1,
        count_for(queue, c) == 1,
        forall|k: int| 0 <= k < queue.len() ==> (#[trigger] queue[k]).message@ == m,
    ensures
        apply_all(Seq::<Seq<char>>::empty(), a, queue) == seq![entry_text(m, 0, a as nat)],
        apply_all(Seq::<Seq<char>>::empty(), b, queue) == seq![entry_text(m, 0, b as nat)],
        apply_all(Seq::<Seq<char>>::empty(), c, queue) == seq![entry_text(m, 0, c as nat)],
{
    let empty = Seq::<Seq<char>>::empty();
    lemma_single_delivery(empty, a, queue, m);
    lemma_single_delivery(empty, b, queue, m);
    lemma_single_delivery(empty, c, queue, m);
    assert(empty.push(entry_text(m, 0, a as nat)) =~= seq![entry_text(m, 0, a as nat)]);
    assert(empty.push(entry_text(m, 0, b as nat)) =~= seq![entry_text(m, 0, b as nat)]);
    assert(empty.push(entry_text(m, 0, c as nat)) =~= seq![entry_text(m, 0, c as nat)]);
}

} // verus!
