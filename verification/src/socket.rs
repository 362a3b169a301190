//! One entry of the handle table: a socket's state on the host's side.

use crate::link::{Link, offered};
use crate::message::{Arrival, ClientConn, MessageView, RecvError, SocketMessage, arrival_of};
use crate::status::{SocketResult, SocketStatus};
use vstd::prelude::*;
use vstd::utf8::encode_utf8;

verus! {

/// The host's record of one socket.
///
/// `message` and `error` are slots for one value each: a poll fills a slot
/// and a read empties it. `last_client_handle` names the peer that the
/// latest `NEWCLIENT` poll brought, and is 0 before the first one.
pub struct PollnetSocket {
    status: SocketStatus,
    link: Link,
    message: Option<Vec<u8>>,
    error: Option<String>,
    last_client_handle: u32,
}

/// A socket as contracts see it.
pub struct SocketView {
    pub status: SocketStatus,
    pub link: Link,
    pub message: Option<Seq<u8>>,
    pub error: Option<Seq<char>>,
    pub last_client_handle: u32,
}

/// An optional value as contracts see it.
pub open spec fn viewed<T: View>(value: Option<T>) -> Option<T::V> {
    match value {
        Some(inner) => Some(inner@),
        None => None,
    }
}

/// The code that reports a copied length: the length itself while it fits
/// the 32-bit signed result, and the same bit pattern read as a signed
/// number above that.
pub open spec fn length_code(len: nat) -> int {
    if len <= i32::MAX {
        len as int
    } else {
        len - 0x1_0000_0000
    }
}

/// The result of reading a slot into a buffer of `capacity` bytes: the
/// length code of the content when the content is shorter than the buffer,
/// and 0 when the slot is empty or the content does not fit.
pub open spec fn read_code(slot: Option<Seq<u8>>, capacity: u32) -> int {
    match slot {
        Some(bytes) if bytes.len() < capacity => length_code(bytes.len()),
        _ => 0,
    }
}

/// What the buffer holds after reading a slot into it: the content when it
/// is shorter than the buffer, and what the buffer held before otherwise.
pub open spec fn read_bytes(slot: Option<Seq<u8>>, capacity: u32, before: Seq<u8>) -> Seq<u8> {
    match slot {
        Some(bytes) if bytes.len() < capacity => bytes,
        _ => before,
    }
}

/// A read reports the number of bytes that it wrote: an empty slot and
/// content that does not fit write nothing and report 0; content that fits,
/// and whose length a 32-bit signed result can hold, is written whole and
/// its length is reported. No read of a slot reports -1, which is kept for
/// the handle that the table does not hold.
pub proof fn lemma_read_code_counts_bytes(slot: Option<Seq<u8>>, capacity: u32, before: Seq<u8>)
    ensures
        read_code(slot, capacity) != -1,
        i32::MIN <= read_code(slot, capacity) <= i32::MAX,
        slot is None ==> read_code(slot, capacity) == 0 && read_bytes(slot, capacity, before)
            == before,
        slot is Some && slot->0.len() >= capacity ==> read_code(slot, capacity) == 0
            && read_bytes(slot, capacity, before) == before,
        slot is Some && slot->0.len() < capacity && slot->0.len() <= i32::MAX ==> read_code(
            slot,
            capacity,
        ) == slot->0.len() && read_bytes(slot, capacity, before) == slot->0,
{
}

/// What handing a message to a socket does to it: a live socket hands the
/// message on to its task's queue, so the record of what its link was
/// handed grows by that message; a socket that is no longer live drops the
/// message and keeps its link as it is. Nothing else of the socket changes.
pub open spec fn handed(before: SocketView, after: SocketView, msg: MessageView) -> bool {
    &&& after == SocketView { link: after.link, ..before }
    &&& if before.status.live() {
        offered(after.link) == offered(before.link).push(msg)
    } else {
        after.link == before.link
    }
}

/// What letting a socket go does to it: a live socket becomes `CLOSED`, and
/// the record of what its link was handed grows by `Disconnect`; a socket
/// that is no longer live stays as it is. The slots and the last client are
/// kept either way.
pub open spec fn dismissed(before: SocketView, after: SocketView) -> bool {
    if before.status.live() {
        &&& after == SocketView { status: SocketStatus::CLOSED, link: after.link, ..before }
        &&& offered(after.link) == offered(before.link).push(MessageView::Disconnect)
    } else {
        after == before
    }
}

/// What a poll of a live socket returns for each thing that the inbound
/// queue can bring.
pub open spec fn poll_result(arrival: Arrival) -> SocketResult {
    match arrival {
        Arrival::Message(MessageView::Connect) => SocketResult::OPENING,
        Arrival::Message(MessageView::Disconnect) => SocketResult::CLOSED,
        Arrival::Message(MessageView::Message(_)) => SocketResult::HASDATA,
        Arrival::Message(MessageView::BinaryMessage(_)) => SocketResult::HASDATA,
        Arrival::Message(MessageView::Error(_)) => SocketResult::ERROR,
        Arrival::Message(MessageView::NewClient(_, _)) => SocketResult::NEWCLIENT,
        Arrival::Message(MessageView::FileAdd(_, _)) => SocketResult::NODATA,
        Arrival::Message(MessageView::FileRemove(_)) => SocketResult::NODATA,
        Arrival::Empty => SocketResult::NODATA,
        Arrival::Disconnected => SocketResult::CLOSED,
    }
}

/// The socket that a poll materialises for an accepted peer, if the arrival
/// announces one: it starts `OPEN` on the link that came with the
/// announcement.
pub open spec fn accepted_peer(arrival: Arrival) -> Option<SocketView> {
    match arrival {
        Arrival::Message(MessageView::NewClient(link, _)) => Some(
            SocketView::fresh(SocketStatus::OPEN, link),
        ),
        _ => None,
    }
}

impl SocketView {
    /// A socket that has seen nothing yet.
    pub open spec fn fresh(status: SocketStatus, link: Link) -> SocketView {
        SocketView { status, link, message: None, error: None, last_client_handle: 0 }
    }

    /// The socket after a poll of it, live, found `arrival`. `child` is the
    /// handle that the table gives to an accepted peer.
    pub open spec fn after_poll(self, arrival: Arrival, child: u32) -> SocketView {
        match arrival {
            Arrival::Message(MessageView::Connect) => SocketView {
                status: SocketStatus::OPEN,
                ..self
            },
            Arrival::Message(MessageView::Disconnect) | Arrival::Disconnected => SocketView {
                status: SocketStatus::CLOSED,
                ..self
            },
            Arrival::Message(MessageView::Message(text)) => SocketView {
                message: Some(encode_utf8(text)),
                ..self
            },
            Arrival::Message(MessageView::BinaryMessage(bytes)) => SocketView {
                message: Some(bytes),
                ..self
            },
            Arrival::Message(MessageView::Error(reason)) => SocketView {
                status: SocketStatus::ERROR,
                error: Some(reason),
                ..self
            },
            Arrival::Message(MessageView::NewClient(_, peer)) => SocketView {
                message: Some(encode_utf8(peer)),
                last_client_handle: child,
                ..self
            },
            _ => self,
        }
    }

    /// The socket with its message slot emptied.
    pub open spec fn without_message(self) -> SocketView {
        SocketView { message: None, ..self }
    }

    /// The socket with its error slot emptied.
    pub open spec fn without_error(self) -> SocketView {
        SocketView { error: None, ..self }
    }

    /// The error slot as the bytes that a read of it copies.
    pub open spec fn error_bytes(self) -> Option<Seq<u8>> {
        match self.error {
            Some(reason) => Some(encode_utf8(reason)),
            None => None,
        }
    }
}

/// The bytes of a text, in a vector of their own.
pub fn text_bytes(text: &str) -> (bytes: Vec<u8>)
    ensures
        bytes@ == encode_utf8(text@),
{
    let mut bytes: Vec<u8> = Vec::new();
    bytes.extend_from_slice(text.as_bytes());
    bytes
}

/// Hands the content of a slot to a buffer of `dest_size` bytes. Content
/// that is shorter than the buffer replaces what `dest` held, and its length
/// is returned. An empty slot, or content that does not fit, leaves `dest`
/// as it was and returns 0: nothing is ever cut short.
pub fn copy_out(slot: Option<Vec<u8>>, dest: &mut Vec<u8>, dest_size: u32) -> (code: i32)
    ensures
        code == read_code(viewed(slot), dest_size),
        final(dest)@ == read_bytes(viewed(slot), dest_size, old(dest)@),
{
    match slot {
        Some(bytes) => {
            let ncopy: usize = bytes.len();
            if ncopy < dest_size as usize {
                *dest = bytes;
                if ncopy <= 0x7fff_ffff {
                    ncopy as i32
                } else {
                    let wide: i64 = ncopy as i64;
                    (wide - 0x1_0000_0000) as i32
                }
            } else {
                0
            }
        },
        None => 0,
    }
}

impl View for PollnetSocket {
    type V = SocketView;

    closed spec fn view(&self) -> SocketView {
        SocketView {
            status: self.status,
            link: self.link,
            message: viewed(self.message),
            error: viewed(self.error),
            last_client_handle: self.last_client_handle,
        }
    }
}

impl PollnetSocket {
    /// A socket on `link` that has seen nothing yet.
    pub fn new(link: Link, status: SocketStatus) -> (sock: PollnetSocket)
        ensures
            sock@ == SocketView::fresh(status, link),
    {
        PollnetSocket { status, link, message: None, error: None, last_client_handle: 0 }
    }

    pub fn status(&self) -> (status: SocketStatus)
        ensures
            status == self@.status,
    {
        self.status
    }

    pub fn last_client_handle(&self) -> (handle: u32)
        ensures
            handle == self@.last_client_handle,
    {
        self.last_client_handle
    }

    pub fn link(&self) -> (link: &Link)
        ensures
            *link == self@.link,
    {
        &self.link
    }

    /// What of a message from the host is handed to the task: the message
    /// itself while the socket is `OPEN` or `OPENING`, and nothing after
    /// that.
    pub fn outgoing(&self, msg: SocketMessage) -> (handed: Option<SocketMessage>)
        ensures
            handed == if self@.status.live() {
                Some(msg)
            } else {
                None
            },
    {
        if self.status.is_live() {
            Some(msg)
        } else {
            None
        }
    }

    /// Hands a message from the host to the socket's task if the socket is
    /// live, and drops it if not. The task's queue drops it too when it has
    /// no room.
    pub fn hand(&mut self, msg: SocketMessage)
        ensures
            handed(old(self)@, final(self)@, msg@),
    {
        match self.outgoing(msg) {
            Some(passed) => {
                self.link.offer(passed);
            },
            None => {},
        }
    }

    /// Lets a socket go: a live socket becomes `CLOSED` and its task is told
    /// to disconnect, for which the call waits while the task's queue is
    /// full. A socket that is no longer live is left as it is.
    pub fn dismiss(&mut self)
        ensures
            dismissed(old(self)@, final(self)@),
    {
        if self.retire() {
            self.link.deliver(SocketMessage::Disconnect);
        }
    }

    /// Marks a socket that is being let go: a live socket becomes `CLOSED`,
    /// and the result says whether the task is still to be told.
    pub fn retire(&mut self) -> (notify: bool)
        ensures
            notify == old(self)@.status.live(),
            final(self)@ == (SocketView {
                status: if old(self)@.status.live() {
                    SocketStatus::CLOSED
                } else {
                    old(self)@.status
                },
                ..old(self)@
            }),
    {
        if self.status.is_live() {
            self.status = SocketStatus::CLOSED;
            true
        } else {
            false
        }
    }

    /// Takes in what a poll of this live socket received. `child` is the
    /// handle that an accepted peer will get; the peer's socket is returned
    /// for the table to keep under that handle.
    pub fn absorb(&mut self, event: Result<SocketMessage, RecvError>, child: u32) -> (r: (
        SocketResult,
        Option<PollnetSocket>,
    ))
        requires
            old(self)@.status.live(),
        ensures
            final(self)@ == old(self)@.after_poll(arrival_of(event), child),
            r.0 == poll_result(arrival_of(event)),
            viewed(r.1) == accepted_peer(arrival_of(event)),
    {
        match event {
            Ok(SocketMessage::Connect) => {
                self.status = SocketStatus::OPEN;
                (SocketResult::OPENING, None)
            },
            Ok(SocketMessage::Disconnect) | Err(RecvError::Disconnected) => {
                self.status = SocketStatus::CLOSED;
                (SocketResult::CLOSED, None)
            },
            Ok(SocketMessage::Message(msg)) => {
                self.message = Some(text_bytes(msg.as_str()));
                (SocketResult::HASDATA, None)
            },
            Ok(SocketMessage::BinaryMessage(msg)) => {
                self.message = Some(msg);
                (SocketResult::HASDATA, None)
            },
            Ok(SocketMessage::Error(err)) => {
                self.error = Some(err);
                self.status = SocketStatus::ERROR;
                (SocketResult::ERROR, None)
            },
            Ok(SocketMessage::NewClient(conn)) => {
                let ClientConn { link, id } = conn;
                self.last_client_handle = child;
                self.message = Some(text_bytes(id.as_str()));
                (SocketResult::NEWCLIENT, Some(PollnetSocket::new(link, SocketStatus::OPEN)))
            },
            Ok(_) => (SocketResult::NODATA, None),
            Err(RecvError::Empty) => (SocketResult::NODATA, None),
        }
    }

    /// Reads the message slot into a buffer of `dest_size` bytes and empties
    /// the slot, whether or not the message fitted.
    pub fn take_message(&mut self, dest: &mut Vec<u8>, dest_size: u32) -> (code: i32)
        ensures
            final(self)@ == old(self)@.without_message(),
            code == read_code(old(self)@.message, dest_size),
            final(dest)@ == read_bytes(old(self)@.message, dest_size, old(dest)@),
    {
        let slot = self.message.take();
        copy_out(slot, dest, dest_size)
    }

    /// Reads the error slot into a buffer of `dest_size` bytes and empties
    /// the slot, whether or not the text fitted.
    pub fn take_error(&mut self, dest: &mut Vec<u8>, dest_size: u32) -> (code: i32)
        ensures
            final(self)@ == old(self)@.without_error(),
            code == read_code(old(self)@.error_bytes(), dest_size),
            final(dest)@ == read_bytes(old(self)@.error_bytes(), dest_size, old(dest)@),
    {
        let slot = match self.error.take() {
            Some(reason) => Some(text_bytes(reason.as_str())),
            None => None,
        };
        copy_out(slot, dest, dest_size)
    }
}

} // verus!
