//! The handle table as contracts see it, and what each operation of the
//! facade does to it.

use crate::link::{Link, offered};
use crate::message::{Arrival, MessageView};
use crate::socket::{SocketView, accepted_peer, handed, poll_result};
use crate::status::{SocketResult, SocketStatus};
use vstd::prelude::*;

verus! {

/// The handle table: the sockets by handle, and the handle that the next
/// new socket will get.
pub struct TableView {
    pub sockets: Map<u32, SocketView>,
    pub next_handle: u32,
}

impl TableView {
    /// The table of a new context: no sockets, and 1 as the first handle.
    pub open spec fn empty() -> TableView {
        TableView { sockets: Map::empty(), next_handle: 1 }
    }

    /// Handles start at 1 and every handle in use lies below the next one to
    /// be given out; no stored socket has the status `INVALIDHANDLE`; and a
    /// socket's last client, if it has one, is a handle that was given out.
    pub open spec fn wf(self) -> bool {
        &&& self.next_handle >= 1
        &&& forall|h: u32| #[trigger]
            self.sockets.contains_key(h) ==> {
                &&& 1 <= h < self.next_handle
                &&& !(self.sockets[h].status is INVALIDHANDLE)
                &&& self.sockets[h].last_client_handle < self.next_handle
            }
    }

    /// Whether a handle is left to give out.
    pub open spec fn has_room(self) -> bool {
        self.next_handle < u32::MAX
    }

    /// The status that the host is told for `handle`.
    pub open spec fn status_of(self, handle: u32) -> SocketStatus {
        if self.sockets.contains_key(handle) {
            self.sockets[handle].status
        } else {
            SocketStatus::INVALIDHANDLE
        }
    }

    /// The last client that the host is told for `handle`.
    pub open spec fn last_client_of(self, handle: u32) -> u32 {
        if self.sockets.contains_key(handle) {
            self.sockets[handle].last_client_handle
        } else {
            0
        }
    }

    /// Whether `handle` names a socket that may still exchange messages.
    pub open spec fn live(self, handle: u32) -> bool {
        self.sockets.contains_key(handle) && self.sockets[handle].status.live()
    }

    /// The table with `sock` under the next handle.
    pub open spec fn with_new(self, sock: SocketView) -> TableView {
        TableView {
            sockets: self.sockets.insert(self.next_handle, sock),
            next_handle: (self.next_handle + 1) as u32,
        }
    }

    /// The table after a socket was opened on `link`: the socket stands
    /// under the next handle, `OPENING`, with empty slots.
    pub open spec fn opened(self, link: Link) -> TableView {
        self.with_new(SocketView::fresh(SocketStatus::OPENING, link))
    }

    /// Whether `after` is this table after a socket was opened under
    /// `handle`: the handle is the one that was next, the socket stands
    /// under it `OPENING`, with empty slots and a link that nothing was
    /// handed to yet, and every other entry is as before.
    pub open spec fn opens(self, after: TableView, handle: u32) -> bool {
        &&& handle == self.next_handle
        &&& after.sockets.contains_key(handle)
        &&& after == self.opened(after.sockets[handle].link)
        &&& offered(after.sockets[handle].link) == Seq::<MessageView>::empty()
    }

    /// The table after `handle` was closed: its entry is gone.
    pub open spec fn closed(self, handle: u32) -> TableView {
        TableView { sockets: self.sockets.remove(handle), ..self }
    }

    /// The table after everything was closed: no entry is left, and the
    /// next handle stays where it was.
    pub open spec fn closed_all(self) -> TableView {
        TableView { sockets: Map::empty(), ..self }
    }

    /// The table after a poll of `handle` found `arrival`. Unknown and
    /// settled sockets are left alone. A live socket takes the arrival in,
    /// and an accepted peer gets the next handle.
    pub open spec fn polled(self, handle: u32, arrival: Arrival) -> TableView {
        if !self.live(handle) {
            self
        } else {
            let sock = self.sockets[handle].after_poll(arrival, self.next_handle);
            let kept = TableView { sockets: self.sockets.insert(handle, sock), ..self };
            match accepted_peer(arrival) {
                Some(peer) => kept.with_new(peer),
                None => kept,
            }
        }
    }

    /// What a poll of `handle` that found `arrival` returns.
    pub open spec fn poll_outcome(self, handle: u32, arrival: Arrival) -> SocketResult {
        if !self.sockets.contains_key(handle) {
            SocketResult::INVALIDHANDLE
        } else if !self.sockets[handle].status.live() {
            self.sockets[handle].status.settled_result()
        } else {
            poll_result(arrival)
        }
    }

    /// The table after the message slot of `handle` was read.
    pub open spec fn message_taken(self, handle: u32) -> TableView {
        if self.sockets.contains_key(handle) {
            TableView {
                sockets: self.sockets.insert(handle, self.sockets[handle].without_message()),
                ..self
            }
        } else {
            self
        }
    }

    /// The table after the error slot of `handle` was read.
    pub open spec fn error_taken(self, handle: u32) -> TableView {
        if self.sockets.contains_key(handle) {
            TableView {
                sockets: self.sockets.insert(handle, self.sockets[handle].without_error()),
                ..self
            }
        } else {
            self
        }
    }

    /// The table with `link` in place of the link of `handle`; the table
    /// itself for an unknown handle.
    pub open spec fn relinked(self, handle: u32, link: Link) -> TableView {
        if self.sockets.contains_key(handle) {
            TableView {
                sockets: self.sockets.insert(
                    handle,
                    SocketView { link, ..self.sockets[handle] },
                ),
                ..self
            }
        } else {
            self
        }
    }

    /// Whether `after` is this table after `msg` was sent to `handle`. A
    /// live socket hands the message to its task's queue: the record of what
    /// its link was handed grows by `msg`, and nothing else changes. A send
    /// to a socket that is no longer live, or to an unknown handle, changes
    /// nothing at all.
    pub open spec fn sent(self, after: TableView, handle: u32, msg: MessageView) -> bool {
        if self.live(handle) {
            &&& after.sockets.contains_key(handle)
            &&& after == self.relinked(handle, after.sockets[handle].link)
            &&& handed(self.sockets[handle], after.sockets[handle], msg)
        } else {
            after == self
        }
    }

    /// The message slot of `handle`, empty for an unknown handle.
    pub open spec fn message_of(self, handle: u32) -> Option<Seq<u8>> {
        if self.sockets.contains_key(handle) {
            self.sockets[handle].message
        } else {
            None
        }
    }

    /// The error slot of `handle` as bytes, empty for an unknown handle.
    pub open spec fn error_of(self, handle: u32) -> Option<Seq<u8>> {
        if self.sockets.contains_key(handle) {
            self.sockets[handle].error_bytes()
        } else {
            None
        }
    }
}

} // verus!
