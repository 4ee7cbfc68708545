//! The bounded message channels of `tokio` that connect the services.

use vstd::prelude::*;

use crate::types::Event;

verus! {

#[verifier::external_type_specification]
#[verifier::external_body]
#[verifier::reject_recursive_types(T)]
pub struct ExSender<T>(tokio::sync::mpsc::Sender<T>);

#[verifier::external_type_specification]
#[verifier::external_body]
#[verifier::reject_recursive_types(T)]
pub struct ExReceiver<T>(tokio::sync::mpsc::Receiver<T>);

/// The number of messages the channel behind an event sender can hold: the
/// bound it was made with.
pub uninterp spec fn event_channel_capacity(s: tokio::sync::mpsc::Sender<Event>) -> nat;

/// The channel an event sender sends into.
pub uninterp spec fn sender_channel(s: tokio::sync::mpsc::Sender<Event>) -> int;

/// The channel an event receiver receives from.
pub uninterp spec fn receiver_channel(r: tokio::sync::mpsc::Receiver<Event>) -> int;

/// `tokio::sync::mpsc::channel`: a bounded channel that holds up to `buffer`
/// events. Its source asserts `buffer > 0`, and the semaphore behind it
/// asserts `buffer <= usize::MAX >> 3` (that is, `usize::MAX / 8`). The two
/// ends it returns belong to one channel, made with the bound `buffer`.
#[verifier::external_body]
pub(crate) fn event_channel(buffer: usize) -> (r: (
    tokio::sync::mpsc::Sender<Event>,
    tokio::sync::mpsc::Receiver<Event>,
))
    requires
        0 < buffer <= usize::MAX / 8,
    ensures
        event_channel_capacity(r.0) == buffer,
        sender_channel(r.0) == receiver_channel(r.1),
{
    tokio::sync::mpsc::channel(buffer)
}

} // verus!
