//! The queue between the user interface and the task that prepares messages.
use tokio::sync::mpsc::{Receiver, Sender};
use vstd::prelude::*;

use crate::dispatch::DispatchRequest;

verus! {

/// The sending half of a bounded channel.
#[verifier::external_type_specification]
#[verifier::external_body]
#[verifier::reject_recursive_types(T)]
pub struct ExSender<T>(tokio::sync::mpsc::Sender<T>);

/// The receiving half of a bounded channel.
#[verifier::external_type_specification]
#[verifier::external_body]
#[verifier::reject_recursive_types(T)]
pub struct ExReceiver<T>(tokio::sync::mpsc::Receiver<T>);

/// How many requests the channel of a sender holds at most.
pub uninterp spec fn channel_bound(tx: Sender<DispatchRequest>) -> nat;

/// Why a channel did not take a request, with the request.
pub enum Refusal {
    /// The channel is full.
    Full { request: DispatchRequest },
    /// The receiver is gone.
    Closed { request: DispatchRequest },
}

/// `tokio::sync::mpsc::channel`: a channel that holds `buffer` requests at most. It panics
/// where `buffer` is 0 or more than an eighth of what a `usize` can hold.
#[verifier::external_body]
fn bounded_channel(buffer: usize) -> (ends: (Sender<DispatchRequest>, Receiver<DispatchRequest>))
    requires
        0 < buffer <= usize::MAX / 8,
    ensures
        channel_bound(ends.0) == buffer,
{
    tokio::sync::mpsc::channel(buffer)
}

/// `tokio::sync::mpsc::Sender::try_send`: puts a request into the channel without waiting.
/// Where the channel is full or its receiver is gone, the same request comes back. Whether
/// there is room depends on what other threads have sent and received, and is left open.
#[verifier::external_body]
fn try_send(tx: &Sender<DispatchRequest>, request: DispatchRequest) -> (sent: Result<(), Refusal>)
    ensures
        sent matches Err(Refusal::Full { request: back }) ==> back == request,
        sent matches Err(Refusal::Closed { request: back }) ==> back == request,
{
    match tx.try_send(request) {
        Ok(()) => Ok(()),
        Err(tokio::sync::mpsc::error::TrySendError::Full(back)) => Err(
            Refusal::Full { request: back },
        ),
        Err(tokio::sync::mpsc::error::TrySendError::Closed(back)) => Err(
            Refusal::Closed { request: back },
        ),
    }
}

/// `tokio::sync::mpsc::Sender::clone`: another sender of the same channel.
#[verifier::external_body]
fn another_sender(tx: &Sender<DispatchRequest>) -> (copy: Sender<DispatchRequest>)
    ensures
        channel_bound(copy) == channel_bound(*tx),
{
    tx.clone()
}

/// The user interface's hold on the coordinator.
pub struct DispatchCoordinatorHandle {
    tx: Sender<DispatchRequest>,
}

impl Clone for DispatchCoordinatorHandle {
    fn clone(&self) -> (copy: Self)
        ensures
            copy.bound() == self.bound(),
            copy.is_copy_of(*self),
    {
        let tx: Sender<DispatchRequest> = another_sender(&self.tx);
        DispatchCoordinatorHandle { tx }
    }
}

/// How many requests wait at most while one is being prepared.
pub const DISPATCH_QUEUE_BOUND: usize = 1;

/// What an answer of the channel means for the request: it is queued, or it is the request
/// that the channel handed back.
pub open spec fn enqueued(sent: Result<(), Refusal>) -> Result<(), DispatchRequest> {
    match sent {
        Ok(_) => Ok(()),
        Err(Refusal::Full { request }) => Err(request),
        Err(Refusal::Closed { request }) => Err(request),
    }
}

/// What `try_enqueue` returns for an answer of the channel: nothing, or the request that
/// the channel handed back.
pub fn enqueue_result(sent: Result<(), Refusal>) -> (result: Result<(), DispatchRequest>)
    ensures
        result == enqueued(sent),
{
    match sent {
        Ok(_) => Ok(()),
        Err(Refusal::Full { request }) => Err(request),
        Err(Refusal::Closed { request }) => Err(request),
    }
}

impl DispatchCoordinatorHandle {
    /// How many requests the coordinator's queue holds at most.
    pub closed spec fn bound(&self) -> nat {
        channel_bound(self.tx)
    }

    /// `rx` takes what this handle queues: the two were made as the ends of one channel.
    pub closed spec fn feeds(&self, rx: Receiver<DispatchRequest>) -> bool {
        call_ensures(bounded_channel, (DISPATCH_QUEUE_BOUND,), (self.tx, rx))
    }

    /// This handle was made from `other`, as another sender of its channel.
    pub closed spec fn is_copy_of(&self, other: DispatchCoordinatorHandle) -> bool {
        call_ensures(another_sender, (&other.tx,), self.tx)
    }

    /// `sent` is an answer that `try_send` gives when `request` is handed to this handle's
    /// channel. Which one it gives at what time is left open.
    pub closed spec fn answered(&self, request: DispatchRequest, sent: Result<(), Refusal>) -> bool {
        call_ensures(try_send, (&self.tx, request), sent)
    }

    /// Queues a request without waiting. Where the queue is full or the coordinator is
    /// gone, the request comes back, so that the message can be restored. The request itself
    /// is handed to the channel, and the result is what the channel's answer means.
    pub fn try_enqueue(&self, request: DispatchRequest) -> (result: Result<(), DispatchRequest>)
        ensures
            result matches Err(back) ==> back == request,
            exists|sent: Result<(), Refusal>| #[trigger]
                self.answered(request, sent) && result == enqueued(sent),
    {
        let sent: Result<(), Refusal> = try_send(&self.tx, request);
        assert(self.answered(request, sent));
        enqueue_result(sent)
    }
}

/// A coordinator's queue: the handle for the user interface, and the end that the
/// coordinator takes requests from.
pub fn dispatch_channel() -> (ends: (DispatchCoordinatorHandle, Receiver<DispatchRequest>))
    ensures
        ends.0.bound() == DISPATCH_QUEUE_BOUND,
        ends.0.bound() == 1,
        ends.0.feeds(ends.1),
{
    let (tx, rx) = bounded_channel(DISPATCH_QUEUE_BOUND);
    (DispatchCoordinatorHandle { tx }, rx)
}

/// Law: a request counts as queued exactly where the channel took it, and one that the
/// channel handed back comes back.
pub proof fn law_no_request_is_dropped(sent: Result<(), Refusal>, request: DispatchRequest)
    ensures
        enqueued(sent) is Ok <==> sent is Ok,
        enqueued(Err(Refusal::Full { request })) == Err::<(), DispatchRequest>(request),
        enqueued(Err(Refusal::Closed { request })) == Err::<(), DispatchRequest>(request),
{
}

} // verus!
