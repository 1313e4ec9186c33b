//! The progress channel: a bounded, ordered queue of text events with a send
//! end for the background work and a receive end for the polling caller.
//!
//! The queue itself is tokio's bounded channel. Its contents are shared with
//! whatever thread holds a send end, so nothing here speaks of them; what the
//! bridge fixes is the bound the channel is made with, the texts that are
//! published on it, and what a poll reports when the channel has closed.

use crate::bridge::{lent_out, restored, Bridge, Resource, Slot};
use crate::handle::{HandleKind, Tor};
use vstd::prelude::*;

verus! {

/// tokio's send end of a bounded channel, carried as an opaque value.
#[verifier::external_type_specification]
#[verifier::external_body]
#[verifier::reject_recursive_types(T)]
pub struct ExSender<T>(tokio::sync::mpsc::Sender<T>);

/// tokio's receive end of a bounded channel, carried as an opaque value.
#[verifier::external_type_specification]
#[verifier::external_body]
#[verifier::reject_recursive_types(T)]
pub struct ExReceiver<T>(tokio::sync::mpsc::Receiver<T>);

/// The send end of a progress channel.
pub type ProgressSender = tokio::sync::mpsc::Sender<String>;

/// The receive end of a progress channel.
pub type ProgressReceiver = tokio::sync::mpsc::Receiver<String>;

/// The bound that the channel behind a send end was made with: the value that
/// `tokio::sync::mpsc::Sender::max_capacity` reports. It is fixed when the
/// channel is made and is the same for every clone of the send end.
pub uninterp spec fn channel_bound(sender: tokio::sync::mpsc::Sender<String>) -> nat;

/// The number of pending messages that a progress channel holds before a
/// producer has to wait.
pub const PROGRESS_CAPACITY: usize = 100;

/// The text that a poll reports once every send end is gone and the queue is
/// drained.
pub open spec fn no_progress() -> Seq<char> {
    "No progress"@
}

/// What a poll reports for the outcome `received` of waiting on the receive
/// end: the message itself, or the closing sentinel.
pub open spec fn progress_report(received: Option<Seq<char>>) -> Seq<char> {
    match received {
        Some(message) => message,
        None => no_progress(),
    }
}

/// Calls `tokio::sync::mpsc::channel::<String>`. tokio panics on a capacity
/// of zero and on one above its semaphore's limit (`usize::MAX >> 3`), so
/// both are excluded. The claim: the send end reports the capacity it was
/// made with as its bound.
#[verifier::external_body]
pub(crate) fn open_channel(capacity: usize) -> (ends: (ProgressSender, ProgressReceiver))
    requires
        0 < capacity <= usize::MAX / 8,
    ensures
        channel_bound(ends.0) == capacity,
{
    tokio::sync::mpsc::channel::<String>(capacity)
}

/// Calls `Clone::clone` of `tokio::sync::mpsc::Sender`. The claim: the clone
/// feeds the same channel, so it has the same bound.
#[verifier::external_body]
pub(crate) fn clone_sender(sender: &ProgressSender) -> (copy: ProgressSender)
    ensures
        channel_bound(copy) == channel_bound(*sender),
{
    sender.clone()
}

/// Makes the two ends of a fresh progress channel, bounded at
/// [`PROGRESS_CAPACITY`] pending messages.
pub fn open_progress_channel() -> (ends: (ProgressSender, ProgressReceiver))
    ensures
        channel_bound(ends.0) == PROGRESS_CAPACITY,
{
    open_channel(PROGRESS_CAPACITY)
}

/// Turns the outcome of waiting on the receive end into the text that the
/// poll returns: the received message, or `"No progress"` when the channel
/// has closed.
pub fn progress_text(received: Option<String>) -> (text: String)
    ensures
        text@ == progress_report(
            match received {
                Some(message) => Some(message@),
                None => None,
            },
        ),
{
    match received {
        Some(message) => message,
        None => "No progress".to_owned(),
    }
}

/// How a poll for the next progress event begins.
pub enum ProgressPoll {
    /// Wait on this receive end, then report what came with
    /// [`arti_progress_next`].
    Wait(ProgressReceiver),
    /// There is nothing to wait on: report this text.
    Done(String),
}

/// Begins a poll for the next progress event of a start-up. The receive end
/// of the bundle is taken out of the bridge for the duration of the wait, so
/// that the bridge is free while the caller blocks. A bundle whose receive
/// end is not parked in the bridge has no channel to wait on, and the poll is
/// done at once with the closing sentinel.
pub fn begin_progress_next<R, C>(bridge: &mut Bridge<R, C>, tor: &Tor) -> (poll: ProgressPoll)
    ensures
        final(bridge).shared_runtime() == old(bridge).shared_runtime(),
        final(bridge).issued() == lent_out(
            old(bridge).issued(),
            tor.progress_receiver,
            HandleKind::ProgressReceive,
        ),
        match poll {
            ProgressPoll::Wait(receiver) => old(bridge).state(tor.progress_receiver) == Slot::<
                C,
            >::Parked(Resource::ProgressReceive(receiver)),
            ProgressPoll::Done(text) => {
                &&& !old(bridge).holds(tor.progress_receiver, HandleKind::ProgressReceive)
                &&& text@ == no_progress()
            },
        },
{
    match bridge.lend(tor.progress_receiver, HandleKind::ProgressReceive) {
        Some(Resource::ProgressReceive(receiver)) => ProgressPoll::Wait(receiver),
        _ => ProgressPoll::Done(progress_text(None)),
    }
}

/// Ends a poll: brings the receive end back under its handle, which stays
/// alive for the next poll, and returns the text for what the wait produced:
/// the message, or `"No progress"` when the channel has closed. A receive end
/// whose handle is not out on loan is dropped instead.
pub fn arti_progress_next<R, C>(
    bridge: &mut Bridge<R, C>,
    tor: &Tor,
    receiver: ProgressReceiver,
    received: Option<String>,
) -> (text: String)
    ensures
        final(bridge).shared_runtime() == old(bridge).shared_runtime(),
        final(bridge).issued() == restored(
            old(bridge).issued(),
            tor.progress_receiver,
            Resource::<C>::ProgressReceive(receiver),
        ),
        text@ == progress_report(
            match received {
                Some(message) => Some(message@),
                None => None,
            },
        ),
{
    let _ = bridge.restore(tor.progress_receiver, Resource::ProgressReceive(receiver));
    progress_text(received)
}

/// The texts that a run of polls reports for what the channel delivers, in
/// order.
pub open spec fn progress_reports(received: Seq<Option<Seq<char>>>) -> Seq<Seq<char>> {
    received.map_values(|outcome: Option<Seq<char>>| progress_report(outcome))
}

/// Polling neither reorders nor drops: when the channel delivers `messages`
/// and then closes, the polls report exactly those messages, in that order,
/// followed by `"No progress"`.
pub proof fn law_polls_report_in_order(messages: Seq<Seq<char>>)
    ensures
        progress_reports(
            messages.map_values(|message: Seq<char>| Some(message)).push(None),
        ) == messages.push(no_progress()),
{
    assert(progress_reports(
        messages.map_values(|message: Seq<char>| Some(message)).push(None),
    ) =~= messages.push(no_progress()));
}

} // verus!
