//! The routing rule: an incoming UI-thread event is either tagged with the
//! registered message kind and carries a payload, or it is some other event
//! kind; routing applies a tagged payload to a candidate state and leaves any
//! other event for the next handler in the chain.

use vstd::prelude::*;
use crate::comp::{apply_one, MyCompDataMessager, Payload};

verus! {

/// The registered selector distinguishing this message kind from other event
/// kinds on the shared channel; fixed once at startup, read-only thereafter.
pub const SEND_MESSAGE: &'static str = "send-message-mycomp";

/// An event as the UI loop hands it to a component: either a command tagged
/// with the registered message kind, carrying an envelope, or any other event.
pub enum CompEvent {
    /// A command tagged with the registered message kind.
    Message(Payload),
    /// Any event of another kind; the router passes it through untouched.
    Other,
}

/// What routing one event to one candidate state did.
pub enum RoutingOutcome {
    /// The event carried a payload addressed to this state; it was applied.
    Delivered,
    /// The event carried a payload addressed to some other id; this state
    /// ignored it (not an error: addressing is best-effort).
    Dropped,
    /// The event was not tagged with the registered message kind; it is
    /// passed through unmodified to the wrapped child handler.
    PassedThrough,
}

/// Routes one incoming event to one candidate state: a payload tagged with
/// the registered message kind is offered to the state, which applies it
/// exactly on an id match; any other event leaves the state untouched.
pub fn route<T: MyCompDataMessager>(event: &CompEvent, data: &mut T) -> (outcome: RoutingOutcome)
    ensures
        final(data).msg_id() == old(data).msg_id(),
        match *event {
            CompEvent::Message(p) => {
                &&& final(data).msg_log() == apply_one(old(data).msg_log(), old(data).msg_id(), p)
                &&& (outcome is Delivered <==> p.my_comp_data_id == old(data).msg_id())
                &&& (outcome is Dropped <==> p.my_comp_data_id != old(data).msg_id())
            },
            CompEvent::Other => {
                &&& *final(data) == *old(data)
                &&& outcome is PassedThrough
            },
        },
        old(data).msg_log().is_prefix_of(final(data).msg_log()),
{
    match event {
        CompEvent::Message(payload) => {
            let matched = data.receive_message(payload);
            if matched {
                RoutingOutcome::Delivered
            } else {
                RoutingOutcome::Dropped
            }
        },
        CompEvent::Other => RoutingOutcome::PassedThrough,
    }
}

} // verus!
