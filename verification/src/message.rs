//! The messages that travel between the facade and the tasks.

use crate::link::Link;
use vstd::prelude::*;

verus! {

/// A freshly accepted peer, handed from a listener's task to the host: the
/// host's ends of the peer's queues and the peer's address as text.
pub struct ClientConn {
    pub link: Link,
    pub id: String,
}

/// One message on a socket's queue, in either direction.
pub enum SocketMessage {
    Connect,
    Disconnect,
    Message(String),
    BinaryMessage(Vec<u8>),
    Error(String),
    NewClient(ClientConn),
    FileAdd(String, Vec<u8>),
    FileRemove(String),
}

/// Why a receive brought no message.
#[derive(Copy, Clone, Debug, PartialEq, Eq, Structural)]
pub enum RecvError {
    Empty,
    Disconnected,
}

/// A message as contracts see it: text as a sequence of characters, payloads
/// as sequences of bytes.
pub enum MessageView {
    Connect,
    Disconnect,
    Message(Seq<char>),
    BinaryMessage(Seq<u8>),
    Error(Seq<char>),
    NewClient(Link, Seq<char>),
    FileAdd(Seq<char>, Seq<u8>),
    FileRemove(Seq<char>),
}

impl View for SocketMessage {
    type V = MessageView;

    open spec fn view(&self) -> MessageView {
        match *self {
            SocketMessage::Connect => MessageView::Connect,
            SocketMessage::Disconnect => MessageView::Disconnect,
            SocketMessage::Message(s) => MessageView::Message(s@),
            SocketMessage::BinaryMessage(b) => MessageView::BinaryMessage(b@),
            SocketMessage::Error(e) => MessageView::Error(e@),
            SocketMessage::NewClient(conn) => MessageView::NewClient(conn.link, conn.id@),
            SocketMessage::FileAdd(name, data) => MessageView::FileAdd(name@, data@),
            SocketMessage::FileRemove(name) => MessageView::FileRemove(name@),
        }
    }
}

/// What one look at a socket's inbound queue found.
pub enum Arrival {
    /// A message was taken from the queue.
    Message(MessageView),
    /// The queue held nothing.
    Empty,
    /// The queue held nothing and the task has gone.
    Disconnected,
}

/// The contract-level reading of a receive's result.
pub open spec fn arrival_of(event: Result<SocketMessage, RecvError>) -> Arrival {
    match event {
        Ok(msg) => Arrival::Message(msg@),
        Err(RecvError::Empty) => Arrival::Empty,
        Err(RecvError::Disconnected) => Arrival::Disconnected,
    }
}

} // verus!
