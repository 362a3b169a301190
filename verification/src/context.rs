//! The context: the handle table and the operations of the facade.

use crate::link::open_link;
use crate::message::{Arrival, MessageView, RecvError, SocketMessage, arrival_of};
use crate::socket::{PollnetSocket, read_bytes, read_code};
use crate::status::{SocketResult, SocketStatus};
use crate::table::TableView;
use crate::task::{Task, TaskKind};
use std::collections::HashMap;
use vstd::prelude::*;

verus! {

broadcast use vstd::std_specs::hash::group_hash_axioms;

/// The handle table of one host.
pub struct PollnetContext {
    sockets: HashMap<u32, PollnetSocket>,
    next_handle: u32,
}

impl View for PollnetContext {
    type V = TableView;

    closed spec fn view(&self) -> TableView {
        TableView {
            sockets: Map::new(
                |h: u32| self.sockets@.contains_key(h),
                |h: u32| self.sockets@[h]@,
            ),
            next_handle: self.next_handle,
        }
    }
}

impl PollnetContext {
    /// The validity of a context: that of its table.
    pub open spec fn wf(&self) -> bool {
        self@.wf()
    }

    /// A context without sockets, whose first handle will be 1.
    pub fn new() -> (ctx: PollnetContext)
        ensures
            ctx.wf(),
            ctx@ == TableView::empty(),
    {
        let ctx = PollnetContext { sockets: HashMap::new(), next_handle: 1 };
        assert(ctx@.sockets =~= Map::empty());
        ctx
    }

    /// Whether a handle is left to give out. Opening a socket and polling a
    /// listener need one.
    pub fn has_room(&self) -> (room: bool)
        ensures
            room == self@.has_room(),
    {
        self.next_handle < u32::MAX
    }

    /// Puts `sock` into the table under the next handle.
    fn insert_new(&mut self, sock: PollnetSocket) -> (handle: u32)
        requires
            old(self).wf(),
            old(self)@.has_room(),
            !(sock@.status is INVALIDHANDLE),
            sock@.last_client_handle == 0,
        ensures
            final(self).wf(),
            handle == old(self)@.next_handle,
            final(self)@ == old(self)@.with_new(sock@),
    {
        let handle: u32 = self.next_handle;
        self.next_handle = handle + 1;
        self.sockets.insert(handle, sock);
        assert(self@.sockets =~= old(self)@.sockets.insert(handle, sock@));
        handle
    }

    /// Opens the queues of a new socket, keeps the host's ends under the
    /// next handle and hands the task's ends out with the work to do.
    fn register(&mut self, kind: TaskKind) -> (r: (u32, Task))
        requires
            old(self).wf(),
            old(self)@.has_room(),
        ensures
            final(self).wf(),
            old(self)@.opens(final(self)@, r.0),
            r.1.kind == kind,
    {
        let (link, task_link) = open_link();
        let handle = self.insert_new(PollnetSocket::new(link, SocketStatus::OPENING));
        (handle, Task { kind, link: task_link })
    }

    /// Opens an HTTP server socket on `bind_addr`, serving the files under
    /// `serve_dir` if one is given. The socket starts `OPENING`.
    pub fn serve_http(&mut self, bind_addr: String, serve_dir: Option<String>) -> (r: (u32, Task))
        requires
            old(self).wf(),
            old(self)@.has_room(),
        ensures
            final(self).wf(),
            opens(old(self)@, final(self)@, r.0),
            r.1.kind == (TaskKind::HttpServer { bind_addr, serve_dir }),
    {
        self.register(TaskKind::HttpServer { bind_addr, serve_dir })
    }

    /// Opens a WebSocket listener on `addr`. The socket starts `OPENING`.
    pub fn listen_ws(&mut self, addr: String) -> (r: (u32, Task))
        requires
            old(self).wf(),
            old(self)@.has_room(),
        ensures
            final(self).wf(),
            opens(old(self)@, final(self)@, r.0),
            r.1.kind == (TaskKind::WsListener { addr }),
    {
        self.register(TaskKind::WsListener { addr })
    }

    /// Opens a TCP listener on `addr`. The socket starts `OPENING`.
    pub fn listen_tcp(&mut self, addr: String) -> (r: (u32, Task))
        requires
            old(self).wf(),
            old(self)@.has_room(),
        ensures
            final(self).wf(),
            opens(old(self)@, final(self)@, r.0),
            r.1.kind == (TaskKind::TcpListener { addr }),
    {
        self.register(TaskKind::TcpListener { addr })
    }

    /// Opens a WebSocket connection to `url`. The socket starts `OPENING`.
    pub fn open_ws(&mut self, url: String) -> (r: (u32, Task))
        requires
            old(self).wf(),
            old(self)@.has_room(),
        ensures
            final(self).wf(),
            opens(old(self)@, final(self)@, r.0),
            r.1.kind == (TaskKind::WsClient { url }),
    {
        self.register(TaskKind::WsClient { url })
    }

    /// Opens a TCP connection to `addr`. The socket starts `OPENING`.
    pub fn open_tcp(&mut self, addr: String) -> (r: (u32, Task))
        requires
            old(self).wf(),
            old(self)@.has_room(),
        ensures
            final(self).wf(),
            opens(old(self)@, final(self)@, r.0),
            r.1.kind == (TaskKind::TcpClient { addr }),
    {
        self.register(TaskKind::TcpClient { addr })
    }

    /// Opens a socket for one HTTP GET of `url`. The socket starts
    /// `OPENING`.
    pub fn open_http_get_simple(&mut self, url: String) -> (r: (u32, Task))
        requires
            old(self).wf(),
            old(self)@.has_room(),
        ensures
            final(self).wf(),
            opens(old(self)@, final(self)@, r.0),
            r.1.kind == (TaskKind::HttpGet { url }),
    {
        self.register(TaskKind::HttpGet { url })
    }

    /// Opens a socket for one HTTP POST of `body` to `url`. The socket
    /// starts `OPENING`.
    pub fn open_http_post_simple(&mut self, url: String, content_type: String, body: Vec<u8>) -> (r:
        (u32, Task))
        requires
            old(self).wf(),
            old(self)@.has_room(),
        ensures
            final(self).wf(),
            opens(old(self)@, final(self)@, r.0),
            r.1.kind == (TaskKind::HttpPost { url, content_type, body }),
    {
        self.register(TaskKind::HttpPost { url, content_type, body })
    }

    /// Takes in what a poll of `handle` received, and says what the poll
    /// returns. An unknown or settled socket ignores the event.
    pub fn apply_event(&mut self, handle: u32, event: Result<SocketMessage, RecvError>) -> (r:
        SocketResult)
        requires
            old(self).wf(),
            old(self)@.has_room(),
        ensures
            final(self).wf(),
            final(self)@ == old(self)@.polled(handle, arrival_of(event)),
            r == old(self)@.poll_outcome(handle, arrival_of(event)),
    {
        let mut sock = match self.sockets.remove(&handle) {
            Some(sock) => sock,
            None => {
                assert(self@.sockets =~= old(self)@.sockets);
                return SocketResult::INVALIDHANDLE;
            },
        };
        if !sock.status().is_live() {
            let result = sock.status().result_when_settled();
            self.sockets.insert(handle, sock);
            assert(self@.sockets =~= old(self)@.sockets);
            return result;
        }
        let (result, peer) = sock.absorb(event, self.next_handle);
        assert(self@.sockets =~= old(self)@.sockets.remove(handle));
        match peer {
            Some(child) => {
                assert(old(self)@.sockets.contains_key(handle));
                let ghost mid = self@;
                self.insert_new(child);
                assert(self@.sockets =~= mid.sockets.insert(mid.next_handle, child@));
                let ghost held = self@;
                self.sockets.insert(handle, sock);
                assert(self@.sockets =~= held.sockets.insert(handle, sock@));
                assert(self@.sockets =~= old(self)@.sockets.insert(handle, sock@).insert(
                    old(self)@.next_handle,
                    child@,
                ));
            },
            None => {
                self.sockets.insert(handle, sock);
                assert(self@.sockets =~= old(self)@.sockets.insert(handle, sock@));
            },
        }
        result
    }

    /// Polls `handle` once: receives at most one message from the socket's
    /// task and takes it in. With `blocking` set the call waits until there
    /// is something to receive.
    ///
    /// What arrives is up to the task, so the contract holds for whatever
    /// did: the table and the result are those of `apply_event` for some
    /// arrival, which is not `Empty` when the poll was blocking.
    pub fn update(&mut self, handle: u32, blocking: bool) -> (r: SocketResult)
        requires
            old(self).wf(),
            old(self)@.has_room(),
        ensures
            final(self).wf(),
            exists|arrival: Arrival|
                {
                    &&& blocking ==> !(arrival is Empty)
                    &&& final(self)@ == #[trigger] old(self)@.polled(handle, arrival)
                    &&& r == old(self)@.poll_outcome(handle, arrival)
                },
    {
        let event = match self.sockets.get(&handle) {
            Some(sock) => {
                if sock.status().is_live() {
                    sock.link().receive(blocking)
                } else {
                    Err(RecvError::Disconnected)
                }
            },
            None => Err(RecvError::Disconnected),
        };
        let r = self.apply_event(handle, event);
        assert(self@ == old(self)@.polled(handle, arrival_of(event)));
        r
    }

    /// Hands `msg` to the task of `handle` if the socket is live; otherwise
    /// the message is dropped.
    fn offer(&mut self, handle: u32, msg: SocketMessage)
        ensures
            old(self)@.sent(final(self)@, handle, msg@),
            old(self).wf() ==> final(self).wf(),
    {
        match self.sockets.remove(&handle) {
            Some(sock) => {
                let mut sock = sock;
                let ghost before = sock@;
                sock.hand(msg);
                self.sockets.insert(handle, sock);
                assert(self@.sockets =~= old(self)@.sockets.insert(handle, sock@));
                proof {
                    if !before.status.live() {
                        assert(sock@ == before);
                        assert(self@.sockets =~= old(self)@.sockets);
                    }
                }
            },
            None => {
                assert(self@.sockets =~= old(self)@.sockets);
            },
        }
    }

    /// Sends a text to the task of `handle`: a live socket hands it to its
    /// task's queue, which drops it without notice when it has no room. A
    /// send to a socket that is no longer live, or to an unknown handle,
    /// does nothing.
    pub fn send(&mut self, handle: u32, msg: String)
        ensures
            old(self)@.sent(final(self)@, handle, MessageView::Message(msg@)),
            old(self).wf() ==> final(self).wf(),
    {
        self.offer(handle, SocketMessage::Message(msg));
    }

    /// Sends bytes to the task of `handle`, under the conditions of `send`.
    pub fn send_binary(&mut self, handle: u32, msg: Vec<u8>)
        ensures
            old(self)@.sent(final(self)@, handle, MessageView::BinaryMessage(msg@)),
            old(self).wf() ==> final(self).wf(),
    {
        self.offer(handle, SocketMessage::BinaryMessage(msg));
    }

    /// Asks the HTTP server behind `handle` to serve `filedata` under the
    /// path `filename`, under the conditions of `send`. Tasks of other kinds
    /// ignore the request.
    pub fn add_virtual_file(&mut self, handle: u32, filename: String, filedata: Vec<u8>)
        ensures
            old(self)@.sent(final(self)@, handle, MessageView::FileAdd(filename@, filedata@)),
            old(self).wf() ==> final(self).wf(),
    {
        self.offer(handle, SocketMessage::FileAdd(filename, filedata));
    }

    /// Asks the HTTP server behind `handle` to stop serving the path
    /// `filename`, under the conditions of `send`.
    pub fn remove_virtual_file(&mut self, handle: u32, filename: String)
        ensures
            old(self)@.sent(final(self)@, handle, MessageView::FileRemove(filename@)),
            old(self).wf() ==> final(self).wf(),
    {
        self.offer(handle, SocketMessage::FileRemove(filename));
    }

    /// Closes `handle`: a live socket's task is told to disconnect, and the
    /// entry leaves the table at once, without waiting for the task. The
    /// call waits while the task's queue is full.
    pub fn close(&mut self, handle: u32)
        requires
            old(self).wf(),
        ensures
            final(self).wf(),
            final(self)@ == old(self)@.closed(handle),
    {
        match self.sockets.remove(&handle) {
            Some(sock) => {
                let mut sock = sock;
                sock.dismiss();
            },
            None => {},
        }
        assert(self@.sockets =~= old(self)@.sockets.remove(handle));
    }

    /// Closes every socket: each live socket's task is told to disconnect,
    /// and the table is emptied. Handles that were given out are not given
    /// out again.
    pub fn close_all(&mut self)
        requires
            old(self).wf(),
        ensures
            final(self).wf(),
            final(self)@ == old(self)@.closed_all(),
    {
        let mut handles: Vec<u32> = Vec::new();
        for handle in self.sockets.keys() {
            handles.push(*handle);
        }
        let mut i: usize = 0;
        while i < handles.len()
            invariant
                i <= handles.len(),
                self.wf(),
                self@.next_handle == old(self)@.next_handle,
            decreases handles.len() - i,
        {
            self.close(handles[i]);
            i += 1;
        }
        self.sockets.clear();
        assert(self@.sockets =~= Map::empty());
    }

    /// The status of `handle`: `INVALIDHANDLE` exactly when the table does
    /// not hold it.
    pub fn status(&self, handle: u32) -> (status: SocketStatus)
        ensures
            status == self@.status_of(handle),
    {
        match self.sockets.get(&handle) {
            Some(sock) => sock.status(),
            None => SocketStatus::INVALIDHANDLE,
        }
    }

    /// The handle of the peer that the latest `NEWCLIENT` poll of `handle`
    /// brought; 0 if there was none or the handle is unknown.
    pub fn last_client(&self, handle: u32) -> (client: u32)
        ensures
            client == self@.last_client_of(handle),
    {
        match self.sockets.get(&handle) {
            Some(sock) => sock.last_client_handle(),
            None => 0,
        }
    }

    /// Reads the message slot of `handle` into a buffer of `dest_size`
    /// bytes and empties the slot. Returns -1 for an unknown handle, 0 for
    /// an empty slot or a message that does not fit, and otherwise the
    /// number of bytes now in `dest`.
    pub fn get_message(&mut self, handle: u32, dest: &mut Vec<u8>, dest_size: u32) -> (code: i32)
        requires
            old(self).wf(),
        ensures
            final(self).wf(),
            final(self)@ == old(self)@.message_taken(handle),
            code == -1 <==> !old(self)@.sockets.contains_key(handle),
            old(self)@.sockets.contains_key(handle) ==> code == read_code(
                old(self)@.message_of(handle),
                dest_size,
            ),
            final(dest)@ == read_bytes(old(self)@.message_of(handle), dest_size, old(dest)@),
    {
        let mut sock = match self.sockets.remove(&handle) {
            Some(sock) => sock,
            None => {
                assert(self@.sockets =~= old(self)@.sockets);
                return -1;
            },
        };
        let code = sock.take_message(dest, dest_size);
        self.sockets.insert(handle, sock);
        assert(self@.sockets =~= old(self)@.sockets.insert(handle, sock@));
        code
    }

    /// Reads the error slot of `handle` into a buffer of `dest_size` bytes
    /// and empties the slot. Returns -1 for an unknown handle, 0 for an
    /// empty slot or a text that does not fit, and otherwise the number of
    /// bytes now in `dest`.
    pub fn get_error(&mut self, handle: u32, dest: &mut Vec<u8>, dest_size: u32) -> (code: i32)
        requires
            old(self).wf(),
        ensures
            final(self).wf(),
            final(self)@ == old(self)@.error_taken(handle),
            code == -1 <==> !old(self)@.sockets.contains_key(handle),
            old(self)@.sockets.contains_key(handle) ==> code == read_code(
                old(self)@.error_of(handle),
                dest_size,
            ),
            final(dest)@ == read_bytes(old(self)@.error_of(handle), dest_size, old(dest)@),
    {
        let mut sock = match self.sockets.remove(&handle) {
            Some(sock) => sock,
            None => {
                assert(self@.sockets =~= old(self)@.sockets);
                return -1;
            },
        };
        let code = sock.take_error(dest, dest_size);
        self.sockets.insert(handle, sock);
        assert(self@.sockets =~= old(self)@.sockets.insert(handle, sock@));
        code
    }
}

/// What opening a socket does to the table; see `TableView::opens`.
pub open spec fn opens(before: TableView, after: TableView, handle: u32) -> bool {
    before.opens(after, handle)
}

} // verus!
