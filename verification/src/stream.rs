//! Stream channel carrying `Result` items from worker tasks to one consumer.
//!
//! The channel itself comes from the `crossbeam_channel` crate and is safe
//! for any number of concurrent producers and a single consumer.  Items from
//! one producer arrive in send order; items from different producers
//! interleave in delivery order.  Once every producer clone is gone and the
//! buffer is drained, the consumer observes a deterministic end-of-stream
//! signal, which is kept distinct from an error a worker delivered.

use vstd::prelude::*;

use crate::result::{OCLStreamError, OCLStreamResult};

verus! {

/// Declares crossbeam_channel::Sender, the sending half of a channel, as an
/// opaque outside type.
#[verifier::external_type_specification]
#[verifier::external_body]
#[verifier::reject_recursive_types(T)]
pub struct ExSender<T>(crossbeam_channel::Sender<T>);

/// Declares crossbeam_channel::Receiver, the receiving half of a channel,
/// as an opaque outside type.
#[verifier::external_type_specification]
#[verifier::external_body]
#[verifier::reject_recursive_types(T)]
pub struct ExReceiver<T>(crossbeam_channel::Receiver<T>);

/// Relies on crossbeam_channel::unbounded: a channel without a capacity
/// bound, whose `send` never blocks.
#[verifier::external_body]
fn channel_unbounded<T>() -> (crossbeam_channel::Sender<T>, crossbeam_channel::Receiver<T>) {
    crossbeam_channel::unbounded()
}

/// Relies on crossbeam_channel::bounded: a channel holding at most `cap`
/// unconsumed items, whose `send` blocks while it is full.
#[verifier::external_body]
fn channel_bounded<T>(cap: usize) -> (crossbeam_channel::Sender<T>, crossbeam_channel::Receiver<T>) {
    crossbeam_channel::bounded(cap)
}

/// Relies on crossbeam_channel::Sender::send: delivers `msg` into the
/// channel, blocking while a bounded channel is full, or hands `msg` back
/// once all receivers are gone.
#[verifier::external_body]
fn channel_send<T>(tx: &crossbeam_channel::Sender<T>, msg: T) -> (r: Result<(), T>)
    ensures
        r matches Err(m) ==> m == msg,
{
    tx.send(msg).map_err(|e| e.0)
}

/// Relies on crossbeam_channel::Receiver::recv: blocks until an item is
/// delivered, or reports that the channel is empty with every sender gone.
#[verifier::external_body]
fn channel_recv<T>(rx: &crossbeam_channel::Receiver<T>) -> Result<T, ()> {
    rx.recv().map_err(|_| ())
}

/// Relies on crossbeam_channel::Receiver::is_empty: whether the channel
/// buffered no item at the moment of the call.
#[verifier::external_body]
fn channel_is_empty<T>(rx: &crossbeam_channel::Receiver<T>) -> bool {
    rx.is_empty()
}

/// Relies on crossbeam_channel::Sender::clone: the clone is a handle to the
/// same channel as the original.
pub assume_specification<T>[ <crossbeam_channel::Sender<T> as Clone>::clone ](
    tx: &crossbeam_channel::Sender<T>,
) -> (res: crossbeam_channel::Sender<T>)
    ensures
        res == *tx,
;

/// Creates a connected stream/producer pair over an unbounded channel.
pub fn create<T>() -> (OCLStream<T>, OCLStreamSender<T>) where T: Send + Sync {
    unbounded()
}

/// Creates a connected stream/producer pair over an unbounded channel: its
/// `send` never blocks and memory is the only capacity limit.
pub fn unbounded<T>() -> (OCLStream<T>, OCLStreamSender<T>) where T: Send + Sync {
    let (tx, rx) = channel_unbounded();
    (OCLStream { rx }, OCLStreamSender { tx })
}

/// Creates a connected stream/producer pair over a channel buffering at most
/// `size` unconsumed items: a `send` on a full channel blocks until the
/// consumer takes an item.
pub fn bounded<T>(size: usize) -> (OCLStream<T>, OCLStreamSender<T>) where T: Send + Sync {
    let (tx, rx) = channel_bounded(size);
    (OCLStream { rx }, OCLStreamSender { tx })
}

/// What the consumer returns for each answer of the channel: a delivered
/// item—a value or an error a worker forwarded—passes through unchanged,
/// and a closed, drained channel becomes the end-of-stream error.
pub open spec fn resolved_item<T>(received: Result<OCLStreamResult<T>, ()>) -> OCLStreamResult<T> {
    match received {
        Ok(item) => item,
        Err(_) => Err(OCLStreamError::RecvError),
    }
}

/// What the producer returns for each answer of the channel on a send: a
/// delivered item is acknowledged, and a channel whose consumer is gone
/// becomes the send error, whatever item came back with it.
pub open spec fn resolved_send_outcome<T>(outcome: Result<(), OCLStreamResult<T>>) -> OCLStreamResult<
    (),
> {
    match outcome {
        Ok(_) => Ok(()),
        Err(_) => Err(OCLStreamError::SendError),
    }
}

/// Turns what the channel handed back on a send into the producer-visible
/// result.
pub fn resolve_send_outcome<T>(outcome: Result<(), OCLStreamResult<T>>) -> (r: OCLStreamResult<
    (),
>) where T: Send + Sync
    ensures
        r == resolved_send_outcome(outcome),
{
    match outcome {
        Ok(_) => Ok(()),
        Err(_) => Err(OCLStreamError::SendError),
    }
}

/// Turns what the channel handed back into the consumer-visible result.
pub fn resolve_received<T>(received: Result<OCLStreamResult<T>, ()>) -> (r: OCLStreamResult<T>) where
    T: Send + Sync,

    ensures
        r == resolved_item(received),
{
    match received {
        Ok(item) => item,
        Err(_) => Err(OCLStreamError::RecvError),
    }
}

/// The end-of-stream signal stays distinguishable from a delivered error:
/// only a closed, drained channel maps to the end-of-stream variant, so a
/// result outside that variant was always delivered by a worker as it is.
pub proof fn lemma_end_of_stream_distinct<T>(received: Result<OCLStreamResult<T>, ()>)
    ensures
        received is Err ==> resolved_item(received) == Err::<T, OCLStreamError>(
            OCLStreamError::RecvError,
        ),
        forall|e: OCLStreamError|
            resolved_item(received) == Err::<T, OCLStreamError>(e) && !e.is_end_of_stream()
                ==> received == Ok::<OCLStreamResult<T>, ()>(Err(e)),
{
}

/// Consumer half of the stream: reads items that worker tasks delivered.
#[derive(Debug)]
#[verifier::reject_recursive_types(T)]
pub struct OCLStream<T> where T: Send + Sync {
    rx: crossbeam_channel::Receiver<OCLStreamResult<T>>,
}

impl<T> OCLStream<T> where T: Send + Sync {
    /// Blocks the calling thread until an item is available or the channel
    /// is closed; unwraps a delivered value, propagates a delivered error,
    /// and reports a closed, drained channel as the end-of-stream error, as
    /// [`resolved_item`] states.
    pub fn next(&mut self) -> Result<T, OCLStreamError> {
        let received = channel_recv(&self.rx);
        resolve_received(received)
    }

    /// Whether at least one item was buffered at the moment of the call.
    /// Purely advisory: a producer may deliver right after a `false`, and a
    /// concurrent consumer could take the item a `true` reported.
    pub fn has_next(&self) -> bool {
        !channel_is_empty(&self.rx)
    }
}

/// Producer half of the stream; one clone is handed to each worker task.
/// The channel stays open as long as at least one clone is alive.
#[verifier::reject_recursive_types(T)]
pub struct OCLStreamSender<T> where T: Send + Sync {
    tx: crossbeam_channel::Sender<OCLStreamResult<T>>,
}

impl<T> Clone for OCLStreamSender<T> where T: Send + Sync {
    /// The clone feeds the same channel as the original.
    fn clone(&self) -> (res: Self)
        ensures
            res == *self,
    {
        Self { tx: self.tx.clone() }
    }
}

impl<T> OCLStreamSender<T> where T: Send + Sync {
    /// Delivers `Ok(value)` into the channel, blocking while a bounded
    /// channel is full.  Fails with the send error exactly when no consumer
    /// remains, without panicking.
    pub fn send(&self, value: T) -> (r: OCLStreamResult<()>)
        ensures
            r matches Err(e) ==> e == OCLStreamError::SendError,
    {
        let outcome = channel_send(&self.tx, Ok(value));
        resolve_send_outcome(outcome)
    }

    /// Delivers `Err(err)` into the channel, so that a worker's failure
    /// reaches the consumer as an ordinary stream item.  Fails with the send
    /// error exactly when no consumer remains, without panicking.
    pub fn err(&self, err: OCLStreamError) -> (r: OCLStreamResult<()>)
        ensures
            r matches Err(e) ==> e == OCLStreamError::SendError,
    {
        let outcome = channel_send(&self.tx, Err(err));
        resolve_send_outcome(outcome)
    }
}

} // verus!
