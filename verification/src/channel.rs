//! The external event channel and the UI loop's drain: workers on any thread
//! submit addressed envelopes; the single UI thread dequeues them in order
//! and offers each to every live instance, so no two deliveries ever run
//! concurrently. The channel is modelled as the ordered queue of envelopes
//! accepted so far, plus whether the UI loop is still alive to drain it.

use vstd::prelude::*;
use crate::comp::{apply_one, MyCompDataMessager, Payload};
use crate::router::{route, CompEvent};
use crate::scope::ScopedInstance;
use vstd::string::StringExecFns;

verus! {

/// Why a submission failed. Submission has exactly one failure mode.
#[derive(Debug, PartialEq, Eq)]
pub enum DeliveryError {
    /// The UI loop has already shut down or the channel is severed; the
    /// message is dropped and never retried by this layer.
    ChannelClosed,
}

/// The external event channel into the UI loop: the ordered queue of
/// envelopes accepted and not yet drained, and whether the UI loop is still
/// alive. Submissions are accepted exactly while the loop is alive.
pub struct ExternalChannel {
    pub queue: Vec<Payload>,
    pub open: bool,
}

impl ExternalChannel {
    /// A fresh channel with an empty queue and a live UI loop behind it.
    pub fn new() -> (r: Self)
        ensures
            r.queue@ == Seq::<Payload>::empty(),
            r.open,
    {
        ExternalChannel { queue: Vec::new(), open: true }
    }

    /// The UI loop shuts down: the channel is severed. Envelopes already
    /// queued are left behind undrained; later submissions fail.
    pub fn close(&mut self)
        ensures
            !final(self).open,
            final(self).queue@ == old(self).queue@,
    {
        self.open = false;
    }

    /// Constructs an envelope addressed to `target_id` and enqueues it,
    /// succeeding exactly while the UI loop is alive; after shutdown the
    /// submission fails with `ChannelClosed` and the queue is unchanged.
    pub fn submit(&mut self, target_id: usize, payload: String) -> (r: Result<(), DeliveryError>)
        ensures
            final(self).open == old(self).open,
            old(self).open ==> {
                &&& r is Ok
                &&& final(self).queue@.len() == old(self).queue@.len() + 1
                &&& final(self).queue@ == old(self).queue@.push(
                    (Payload { my_comp_data_id: target_id, message: payload }),
                )
            },
            !old(self).open ==> {
                &&& r == Err::<(), DeliveryError>(DeliveryError::ChannelClosed)
                &&& final(self).queue@ == old(self).queue@
            },
    {
        if self.open {
            self.queue.push(Payload { my_comp_data_id: target_id, message: payload });
            Ok(())
        } else {
            Err(DeliveryError::ChannelClosed)
        }
    }
}

/// The work a background worker does once triggered: it submits the fixed
/// message text, addressed to the instance id it was handed. Failure is
/// terminal for this one message; nothing retries.
pub fn bg_send_message(event_sink: &mut ExternalChannel, id: usize) -> (r: Result<
    (),
    DeliveryError,
>)
    ensures
        final(event_sink).open == old(event_sink).open,
        old(event_sink).open ==> {
            &&& r is Ok
            &&& final(event_sink).queue@.len() == old(event_sink).queue@.len() + 1
            &&& final(event_sink).queue@ == old(event_sink).queue@.push(
                final(event_sink).queue@.last(),
            )
            &&& final(event_sink).queue@.last().my_comp_data_id == id
            &&& final(event_sink).queue@.last().message@ == "Message"@
        },
        !old(event_sink).open ==> {
            &&& r == Err::<(), DeliveryError>(DeliveryError::ChannelClosed)
            &&& final(event_sink).queue@ == old(event_sink).queue@
        },
{
    let message = String::from_str("Message");
    event_sink.submit(id, message)
}

/// The cumulative effect on one instance (id `id`, log `log`) of draining
/// the queued envelopes in order, offering each to that instance.
pub open spec fn apply_all(log: Seq<Seq<char>>, id: usize, queue: Seq<Payload>) -> Seq<Seq<char>>
    decreases queue.len(),
{
    if queue.len() == 0 {
        log
    } else {
        apply_all(apply_one(log, id, queue[0]), id, queue.drop_first())
    }
}

/// Draining unrolls from the back: handling one more envelope after a drained
/// prefix is one more application.
pub proof fn lemma_apply_all_push(log: Seq<Seq<char>>, id: usize, queue: Seq<Payload>, p: Payload)
    ensures
        apply_all(log, id, queue.push(p)) == apply_one(apply_all(log, id, queue), id, p),
    decreases queue.len(),
{
    if queue.len() == 0 {
        assert(queue.push(p)[0] == p);
        assert(queue.push(p).drop_first() =~= Seq::<Payload>::empty());
        assert(apply_all(apply_one(log, id, p), id, Seq::<Payload>::empty()) == apply_one(
            apply_all(log, id, queue),
            id,
            p,
        ));
    } else {
        assert(queue.push(p)[0] == queue[0]);
        assert(queue.push(p).drop_first() =~= queue.drop_first().push(p));
        lemma_apply_all_push(apply_one(log, id, queue[0]), id, queue.drop_first(), p);
    }
}

/// The UI loop drains the queue: each queued envelope, in submission order,
/// is offered to every live instance; exactly the matching instances apply
/// it. Afterwards the queue is empty. Routing is serialized here: no two
/// envelopes are ever applied concurrently.
pub fn drain_queue(channel: &mut ExternalChannel, instances: &mut Vec<ScopedInstance>)
    ensures
        final(channel).queue@ == Seq::<Payload>::empty(),
        final(channel).open == old(channel).open,
        final(instances)@.len() == old(instances)@.len(),
        forall|j: int|
            0 <= j < old(instances)@.len() ==> {
                &&& (#[trigger] final(instances)@[j]).state.id == old(instances)@[j].state.id
                &&& final(instances)@[j].state.log() == apply_all(
                    old(instances)@[j].state.log(),
                    old(instances)@[j].state.id,
                    old(channel).queue@,
                )
            },
{
    let ghost q: Seq<Payload> = channel.queue@;
    let n = channel.queue.len();
    let mut i: usize = 0;
    while i < n
        invariant
            i <= n,
            n == q.len(),
            channel.queue@ == q,
            channel.open == old(channel).open,
            instances@.len() == old(instances)@.len(),
            forall|j: int|
                0 <= j < old(instances)@.len() ==> {
                    &&& (#[trigger] instances@[j]).state.id == old(instances)@[j].state.id
                    &&& instances@[j].state.log() == apply_all(
                        old(instances)@[j].state.log(),
                        old(instances)@[j].state.id,
                        q.take(i as int),
                    )
                },
        decreases n - i,
    {
        let m = instances.len();
        let mut k: usize = 0;
        while k < m
            invariant
                k <= m,
                i < n,
                n == q.len(),
                channel.queue@ == q,
                channel.open == old(channel).open,
                m == instances@.len(),
                instances@.len() == old(instances)@.len(),
                forall|j: int|
                    0 <= j < old(instances)@.len() ==> (#[trigger] instances@[j]).state.id == old(
                        instances,
                    )@[j].state.id,
                forall|j: int|
                    0 <= j < k ==> (#[trigger] instances@[j]).state.log() == apply_one(
                        apply_all(
                            old(instances)@[j].state.log(),
                            old(instances)@[j].state.id,
                            q.take(i as int),
                        ),
                        old(instances)@[j].state.id,
                        q[i as int],
                    ),
                forall|j: int|
                    k <= j < old(instances)@.len() ==> (#[trigger] instances@[j]).state.log()
                        == apply_all(
                        old(instances)@[j].state.log(),
                        old(instances)@[j].state.id,
                        q.take(i as int),
                    ),
            decreases m - k,
        {
            let inst = &mut instances[k];
            inst.state.receive_message(&channel.queue[i]);
            k = k + 1;
        }
        proof {
            assert(q.take(i as int).push(q[i as int]) =~= q.take(i + 1));
            assert forall|j: int|
                0 <= j < old(instances)@.len() implies (#[trigger] instances@[j]).state.log()
                == apply_all(
                old(instances)@[j].state.log(),
                old(instances)@[j].state.id,
                q.take(i + 1),
            ) by {
                lemma_apply_all_push(
                    old(instances)@[j].state.log(),
                    old(instances)@[j].state.id,
                    q.take(i as int),
                    q[i as int],
                );
            }
        }
        i = i + 1;
    }
    proof {
        assert(q.take(n as int) =~= q);
    }
    channel.queue.clear();
}

} // verus!
