//! Addressable per-instance state and the message it receives: a `Payload`
//! carries a target instance id and an opaque message string; `MyCompData`
//! holds an instance id and a growing, append-only log of received messages.

use vstd::prelude::*;
use crate::log::{vector_model, vector_new, vector_len, vector_push_back, vector_get};
use crate::text::{entry_text, format_entry};

verus! {

/// An addressed message unit: the id of the intended recipient and an opaque
/// message string. Immutable once submitted.
pub struct Payload {
    pub my_comp_data_id: usize,
    pub message: String,
}

/// The effect of offering one payload to a state with instance id `id` whose
/// log is `log`: on an id match the log grows by one entry, rendered from the
/// message, the prior log length and the id; otherwise the log is unchanged.
pub open spec fn apply_one(log: Seq<Seq<char>>, id: usize, p: Payload) -> Seq<Seq<char>> {
    if p.my_comp_data_id == id {
        log.push(entry_text(p.message@, log.len(), id as nat))
    } else {
        log
    }
}

/// The capability of receiving a targeted message: any state with an instance
/// id and a message log can be plugged into the router.
pub trait MyCompDataMessager: Sized {
    /// The instance id messages are matched against.
    spec fn msg_id(&self) -> usize;

    /// The ordered log of received messages.
    spec fn msg_log(&self) -> Seq<Seq<char>>;

    /// Applies `payload` exactly when its target id equals this instance's
    /// id, appending one rendered entry to the log; a non-matching id is a
    /// no-op, not an error. Returns whether the payload matched.
    fn receive_message(&mut self, payload: &Payload) -> (matched: bool)
        ensures
            matched == (payload.my_comp_data_id == old(self).msg_id()),
            final(self).msg_id() == old(self).msg_id(),
            final(self).msg_log() == apply_one(old(self).msg_log(), old(self).msg_id(), *payload),
            old(self).msg_log().is_prefix_of(final(self).msg_log()),
    ;
}

/// A reusable component's state: an immutable instance id and an ordered log
/// of message strings, append-only for the life of the instance.
pub struct MyCompData {
    pub id: usize,
    pub titles: im::Vector<String>,
}

impl MyCompData {
    /// The ordered log of received messages, as a sequence of texts.
    pub open spec fn log(&self) -> Seq<Seq<char>> {
        vector_model(self.titles)
    }

    /// Creates a state with the given instance id and an empty log.
    pub fn new(id: usize) -> (r: Self)
        ensures
            r.id == id,
            r.log() == Seq::<Seq<char>>::empty(),
    {
        MyCompData { id, titles: vector_new() }
    }

    /// The number of entries in the log.
    pub fn titles_len(&self) -> (r: usize)
        ensures
            r == self.log().len(),
    {
        vector_len(&self.titles)
    }

    /// The log entry at `index`, in insertion order.
    pub fn title_at(&self, index: usize) -> (r: &String)
        requires
            index < self.log().len(),
        ensures
            r@ == self.log()[index as int],
    {
        vector_get(&self.titles, index)
    }
}

impl MyCompDataMessager for MyCompData {
    open spec fn msg_id(&self) -> usize {
        self.id
    }

    open spec fn msg_log(&self) -> Seq<Seq<char>> {
        self.log()
    }

    fn receive_message(&mut self, payload: &Payload) -> (matched: bool) {
        if self.id == payload.my_comp_data_id {
            let idx = vector_len(&self.titles);
            let entry = format_entry(payload.message.as_str(), idx, self.id);
            vector_push_back(&mut self.titles, entry);
            true
        } else {
            false
        }
    }
}

} // verus!
