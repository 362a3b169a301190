//! The two queues between the facade and one task.
//!
//! Outbound messages travel from the host to the task through a bounded
//! `tokio::sync::mpsc` channel; inbound messages travel from the task to the
//! host through an unbounded `std::sync::mpsc` channel. What is in a queue at
//! a given moment depends on the other thread, so nothing in this module
//! promises what a receive returns or whether a send is taken. What the
//! contracts do follow is what the host handed to the outbound queue.

use crate::message::{MessageView, RecvError, SocketMessage};
use vstd::prelude::*;

verus! {

/// How many outbound messages a task's queue holds before sends are dropped.
pub const OUTBOUND_CAPACITY: usize = 100;

/// The sending end of a bounded `tokio` channel.
#[verifier::external_type_specification]
#[verifier::external_body]
#[verifier::reject_recursive_types(T)]
pub struct ExOutboundSender<T>(tokio::sync::mpsc::Sender<T>);

/// The receiving end of a bounded `tokio` channel.
#[verifier::external_type_specification]
#[verifier::external_body]
#[verifier::reject_recursive_types(T)]
pub struct ExOutboundReceiver<T>(tokio::sync::mpsc::Receiver<T>);

/// The sending end of a `std` channel.
#[verifier::external_type_specification]
#[verifier::external_body]
#[verifier::reject_recursive_types(T)]
pub struct ExInboundSender<T>(std::sync::mpsc::Sender<T>);

/// The receiving end of a `std` channel.
#[verifier::external_type_specification]
#[verifier::external_body]
#[verifier::reject_recursive_types(T)]
pub struct ExInboundReceiver<T>(std::sync::mpsc::Receiver<T>);

/// The host's ends of a socket's queues: the sender of the outbound queue and
/// the receiver of the inbound queue.
///
/// A message can carry a `Link` (a listener hands over the queues of an
/// accepted peer), and a `Link` carries messages. The verifier does not take
/// a type that contains a channel of itself, so the two channel ends are
/// hidden from it here, and a `Link` is an opaque value in every contract.
#[verifier::external_body]
pub struct Link {
    tx: tokio::sync::mpsc::Sender<SocketMessage>,
    rx: std::sync::mpsc::Receiver<SocketMessage>,
}

/// The messages that were handed to the outbound queue through a link, in
/// the order of the calls. This records the calls that were made, not what
/// became of the messages: the queue drops one that it has no room for.
pub uninterp spec fn offered(link: Link) -> Seq<MessageView>;

/// The task's ends of a socket's queues: the receiver of the outbound queue
/// and the sender of the inbound queue.
pub struct TaskLink {
    pub rx: tokio::sync::mpsc::Receiver<SocketMessage>,
    pub tx: std::sync::mpsc::Sender<SocketMessage>,
}

/// Calls `tokio::sync::mpsc::channel`, which makes a bounded queue and
/// panics when the capacity is zero or above the semaphore's permit limit
/// (`usize::MAX >> 3`). Nothing is claimed of the two ends.
#[verifier::external_body]
fn outbound_queue(capacity: usize) -> (ends: (
    tokio::sync::mpsc::Sender<SocketMessage>,
    tokio::sync::mpsc::Receiver<SocketMessage>,
))
    requires
        0 < capacity <= usize::MAX / 8,
{
    tokio::sync::mpsc::channel(capacity)
}

/// Calls `std::sync::mpsc::channel`, which makes an unbounded queue.
/// Nothing is claimed of the two ends.
#[verifier::external_body]
fn inbound_queue() -> (ends: (
    std::sync::mpsc::Sender<SocketMessage>,
    std::sync::mpsc::Receiver<SocketMessage>,
)) {
    std::sync::mpsc::channel()
}

impl Link {
    /// Puts the two host-side channel ends into one `Link`. Nothing has been
    /// handed to the outbound queue through a link that was just made.
    #[verifier::external_body]
    fn join(
        tx: tokio::sync::mpsc::Sender<SocketMessage>,
        rx: std::sync::mpsc::Receiver<SocketMessage>,
    ) -> (link: Link)
        ensures
            offered(link) == Seq::<MessageView>::empty(),
    {
        Link { tx, rx }
    }

    /// Calls `tokio::sync::mpsc::Sender::try_send` and drops its answer: the
    /// message is lost when the queue is full or the task has gone. The call
    /// never waits. The contract records that the message was handed over,
    /// and claims nothing of what the queue did with it.
    #[verifier::external_body]
    pub(crate) fn offer(&mut self, msg: SocketMessage)
        ensures
            offered(*final(self)) == offered(*old(self)).push(msg@),
    {
        let _ = self.tx.try_send(msg);
    }

    /// Runs `tokio::sync::mpsc::Sender::send` to its end with
    /// `futures::executor::block_on` and drops its answer. While the queue is
    /// full the call waits for the task to take a message or to go away.
    /// `block_on` panics inside another `futures` executor, so the caller
    /// must not be running in one. The contract records that the message was
    /// handed over, and claims nothing of what the queue did with it.
    #[verifier::external_body]
    pub(crate) fn deliver(&mut self, msg: SocketMessage)
        ensures
            offered(*final(self)) == offered(*old(self)).push(msg@),
    {
        let _ = futures::executor::block_on(self.tx.send(msg));
    }

    /// Calls `std::sync::mpsc::Receiver::try_recv`, which never waits. The
    /// two errors of std are handed on under this crate's names.
    #[verifier::external_body]
    pub(crate) fn try_next(&self) -> (event: Result<SocketMessage, RecvError>) {
        match self.rx.try_recv() {
            Ok(msg) => Ok(msg),
            Err(std::sync::mpsc::TryRecvError::Empty) => Err(RecvError::Empty),
            Err(std::sync::mpsc::TryRecvError::Disconnected) => Err(RecvError::Disconnected),
        }
    }

    /// Calls `std::sync::mpsc::Receiver::recv`, which waits until a message
    /// arrives or every sender has gone. Its only error means that the
    /// senders have gone, so the result is never `Empty`.
    #[verifier::external_body]
    pub(crate) fn wait_next(&self) -> (event: Result<SocketMessage, RecvError>)
        ensures
            !(event matches Err(RecvError::Empty)),
    {
        match self.rx.recv() {
            Ok(msg) => Ok(msg),
            Err(_) => Err(RecvError::Disconnected),
        }
    }

    /// Receives one inbound event, waiting for it only when `blocking` is
    /// set.
    pub fn receive(&self, blocking: bool) -> (event: Result<SocketMessage, RecvError>)
        ensures
            blocking ==> !(event matches Err(RecvError::Empty)),
    {
        if blocking {
            self.wait_next()
        } else {
            self.try_next()
        }
    }
}

/// Makes the two queues of one socket and hands out the host's ends and the
/// task's ends. Nothing has yet been handed to the outbound queue.
pub fn open_link() -> (ends: (Link, TaskLink))
    ensures
        offered(ends.0) == Seq::<MessageView>::empty(),
{
    let (host_tx, task_rx) = outbound_queue(OUTBOUND_CAPACITY);
    let (task_tx, host_rx) = inbound_queue();
    (Link::join(host_tx, host_rx), TaskLink { rx: task_rx, tx: task_tx })
}

} // verus!
