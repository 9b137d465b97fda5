//! The live publish point: the frame ingest service operating directly on
//! a process-wide tokio broadcast channel.
//!
//! [`LiveHub`] carries, beside the sender handle, the ghost history of
//! every frame handed to the channel, so the ingest contract pins down what
//! reaches the channel, not only the acknowledgement. Only the synchronous
//! producer side stands here; a subscriber handle suspends when awaited, so
//! the shell around the library drives the handles this module hands out.

use vstd::prelude::*;

use crate::hub::HUB_CAPACITY;
use crate::relay::{ack_body, ack_spec};

verus! {

/// The producer half of `tokio::sync::broadcast`, carried opaquely.
#[verifier::external_type_specification]
#[verifier::external_body]
#[verifier::reject_recursive_types(T)]
pub struct ExBroadcastSender<T>(tokio::sync::broadcast::Sender<T>);

/// The consumer half of `tokio::sync::broadcast`, carried opaquely.
#[verifier::external_type_specification]
#[verifier::external_body]
#[verifier::reject_recursive_types(T)]
pub struct ExBroadcastReceiver<T>(tokio::sync::broadcast::Receiver<T>);

/// `tokio::sync::broadcast::error::SendError`: the undelivered value handed
/// back when no receiver exists.
#[verifier::external_type_specification]
#[verifier::external_body]
#[verifier::reject_recursive_types(T)]
pub struct ExBroadcastSendError<T>(tokio::sync::broadcast::error::SendError<T>);

/// Relies on `tokio::sync::broadcast::channel`: it returns the producer
/// half of a fresh channel of the given capacity, and panics only on a
/// capacity of zero or above `usize::MAX / 2`, which the precondition
/// excludes.
#[verifier::external_body]
fn open_channel(capacity: usize) -> tokio::sync::broadcast::Sender<Vec<u8>>
    requires
        0 < capacity <= usize::MAX / 2,
{
    let (tx, _) = tokio::sync::broadcast::channel(capacity);
    tx
}

/// The live frame publish point: one broadcast channel, and the history of
/// every frame handed to it.
pub struct LiveHub {
    tx: tokio::sync::broadcast::Sender<Vec<u8>>,
    sent: Ghost<Seq<Seq<u8>>>,
}

impl LiveHub {
    /// Every frame ever handed to the channel, in order.
    pub closed spec fn sent(self) -> Seq<Seq<u8>> {
        self.sent@
    }

    /// A fresh live hub over its own channel, with the backlog capacity the
    /// relay gives every subscriber. Nothing was sent yet.
    pub fn new() -> (r: LiveHub)
        ensures
            r.sent() == Seq::<Seq<u8>>::empty(),
    {
        LiveHub { tx: open_channel(HUB_CAPACITY), sent: Ghost(Seq::empty()) }
    }

    /// Relies on `tokio::sync::broadcast::Sender::send`: the frame is
    /// queued for every receiver active at the call — one whose backlog is
    /// full loses its oldest queued frame — and `Ok` carries the receiver
    /// count, at least one; with no receiver the frame comes back as `Err`.
    /// Either way the frame was handed to the channel, so the sent history
    /// grows by exactly it.
    #[verifier::external_body]
    fn send_frame(&mut self, frame: Vec<u8>) -> (r: Result<
        usize,
        tokio::sync::broadcast::error::SendError<Vec<u8>>,
    >)
        ensures
            final(self).sent() == old(self).sent().push(frame@),
            r matches Ok(n) ==> n >= 1,
    {
        self.tx.send(frame)
    }

    /// Relies on `tokio::sync::broadcast::Sender::subscribe`: the handle
    /// will yield the frames sent after this call, in send order, the
    /// oldest overwritten once the handle lags behind by more than the
    /// channel's capacity.
    #[verifier::external_body]
    fn subscribe_raw(&self) -> tokio::sync::broadcast::Receiver<Vec<u8>> {
        self.tx.subscribe()
    }

    /// Attaches a consumer to the channel. The handle yields the frames
    /// sent after this call, in send order (modulo lag-induced gaps), and
    /// suspends when awaited, so the shell drives it.
    pub fn subscribe(&self) -> tokio::sync::broadcast::Receiver<Vec<u8>> {
        self.subscribe_raw()
    }

    /// Publishes one raw frame body into the live channel and acknowledges,
    /// whatever came of the delivery: publishing is fire-and-forget, and a
    /// channel with no subscriber simply drops the frame — a normal
    /// outcome, not a failure. The body always reaches the channel: the
    /// sent history grows by exactly it.
    pub fn ingest(&mut self, body: Vec<u8>) -> (r: Vec<u8>)
        ensures
            final(self).sent() == old(self).sent().push(body@),
            r@ == ack_spec(),
    {
        let outcome = self.send_frame(body);
        match outcome {
            Ok(_) => (),
            Err(_) => (),
        }
        ack_body()
    }
}

} // verus!
