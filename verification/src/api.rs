//! The facade as free functions over a context, one for each entry of the
//! host's interface.

use crate::context::{PollnetContext, opens};
use crate::message::{Arrival, MessageView};
use crate::socket::{read_bytes, read_code};
use crate::status::{SocketResult, SocketStatus};
use crate::table::TableView;
use crate::task::{Task, TaskKind};
use vstd::prelude::*;

verus! {

/// A context without sockets, whose first handle will be 1.
pub fn pollnet_init() -> (ctx: PollnetContext)
    ensures
        ctx.wf(),
        ctx@ == TableView::empty(),
{
    PollnetContext::new()
}

/// Closes every socket of the context, as `pollnet_close_all` does. The
/// runtime is stopped by whoever runs it.
pub fn pollnet_shutdown(ctx: &mut PollnetContext)
    requires
        old(ctx).wf(),
    ensures
        final(ctx).wf(),
        final(ctx)@ == old(ctx)@.closed_all(),
{
    ctx.close_all()
}

pub fn pollnet_open_ws(ctx: &mut PollnetContext, url: String) -> (r: (u32, Task))
    requires
        old(ctx).wf(),
        old(ctx)@.has_room(),
    ensures
        final(ctx).wf(),
        opens(old(ctx)@, final(ctx)@, r.0),
        r.1.kind == (TaskKind::WsClient { url }),
{
    ctx.open_ws(url)
}

pub fn pollnet_listen_ws(ctx: &mut PollnetContext, addr: String) -> (r: (u32, Task))
    requires
        old(ctx).wf(),
        old(ctx)@.has_room(),
    ensures
        final(ctx).wf(),
        opens(old(ctx)@, final(ctx)@, r.0),
        r.1.kind == (TaskKind::WsListener { addr }),
{
    ctx.listen_ws(addr)
}

pub fn pollnet_open_tcp(ctx: &mut PollnetContext, addr: String) -> (r: (u32, Task))
    requires
        old(ctx).wf(),
        old(ctx)@.has_room(),
    ensures
        final(ctx).wf(),
        opens(old(ctx)@, final(ctx)@, r.0),
        r.1.kind == (TaskKind::TcpClient { addr }),
{
    ctx.open_tcp(addr)
}

pub fn pollnet_listen_tcp(ctx: &mut PollnetContext, addr: String) -> (r: (u32, Task))
    requires
        old(ctx).wf(),
        old(ctx)@.has_room(),
    ensures
        final(ctx).wf(),
        opens(old(ctx)@, final(ctx)@, r.0),
        r.1.kind == (TaskKind::TcpListener { addr }),
{
    ctx.listen_tcp(addr)
}

pub fn pollnet_simple_http_get(ctx: &mut PollnetContext, addr: String) -> (r: (u32, Task))
    requires
        old(ctx).wf(),
        old(ctx)@.has_room(),
    ensures
        final(ctx).wf(),
        opens(old(ctx)@, final(ctx)@, r.0),
        r.1.kind == (TaskKind::HttpGet { url: addr }),
{
    ctx.open_http_get_simple(addr)
}

pub fn pollnet_simple_http_post(
    ctx: &mut PollnetContext,
    addr: String,
    content_type: String,
    body: Vec<u8>,
) -> (r: (u32, Task))
    requires
        old(ctx).wf(),
        old(ctx)@.has_room(),
    ensures
        final(ctx).wf(),
        opens(old(ctx)@, final(ctx)@, r.0),
        r.1.kind == (TaskKind::HttpPost { url: addr, content_type, body }),
{
    ctx.open_http_post_simple(addr, content_type, body)
}

/// Opens an HTTP server that serves its overlay and, where the overlay has
/// nothing, the files under `serve_dir`.
pub fn pollnet_serve_static_http(ctx: &mut PollnetContext, addr: String, serve_dir: String) -> (r:
    (u32, Task))
    requires
        old(ctx).wf(),
        old(ctx)@.has_room(),
    ensures
        final(ctx).wf(),
        opens(old(ctx)@, final(ctx)@, r.0),
        r.1.kind == (TaskKind::HttpServer { bind_addr: addr, serve_dir: Some(serve_dir) }),
{
    ctx.serve_http(addr, Some(serve_dir))
}

/// Opens an HTTP server that serves its overlay alone.
pub fn pollnet_serve_http(ctx: &mut PollnetContext, addr: String) -> (r: (u32, Task))
    requires
        old(ctx).wf(),
        old(ctx)@.has_room(),
    ensures
        final(ctx).wf(),
        opens(old(ctx)@, final(ctx)@, r.0),
        r.1.kind == (TaskKind::HttpServer { bind_addr: addr, serve_dir: None }),
{
    ctx.serve_http(addr, None)
}

pub fn pollnet_close(ctx: &mut PollnetContext, handle: u32)
    requires
        old(ctx).wf(),
    ensures
        final(ctx).wf(),
        final(ctx)@ == old(ctx)@.closed(handle),
{
    ctx.close(handle)
}

pub fn pollnet_close_all(ctx: &mut PollnetContext)
    requires
        old(ctx).wf(),
    ensures
        final(ctx).wf(),
        final(ctx)@ == old(ctx)@.closed_all(),
{
    ctx.close_all()
}

pub fn pollnet_status(ctx: &PollnetContext, handle: u32) -> (status: SocketStatus)
    ensures
        status == ctx@.status_of(handle),
{
    ctx.status(handle)
}

/// Sends a text to the task of `handle`, as `PollnetContext::send` does.
pub fn pollnet_send(ctx: &mut PollnetContext, handle: u32, msg: String)
    ensures
        old(ctx)@.sent(final(ctx)@, handle, MessageView::Message(msg@)),
        old(ctx).wf() ==> final(ctx).wf(),
{
    ctx.send(handle, msg)
}

/// Sends bytes to the task of `handle`, as `PollnetContext::send_binary`
/// does.
pub fn pollnet_send_binary(ctx: &mut PollnetContext, handle: u32, msg: Vec<u8>)
    ensures
        old(ctx)@.sent(final(ctx)@, handle, MessageView::BinaryMessage(msg@)),
        old(ctx).wf() ==> final(ctx).wf(),
{
    ctx.send_binary(handle, msg)
}

/// Asks the HTTP server behind `handle` to serve a payload under a path, as
/// `PollnetContext::add_virtual_file` does.
pub fn pollnet_add_virtual_file(
    ctx: &mut PollnetContext,
    handle: u32,
    filename: String,
    filedata: Vec<u8>,
)
    ensures
        old(ctx)@.sent(final(ctx)@, handle, MessageView::FileAdd(filename@, filedata@)),
        old(ctx).wf() ==> final(ctx).wf(),
{
    ctx.add_virtual_file(handle, filename, filedata)
}

/// Asks the HTTP server behind `handle` to stop serving a path, as
/// `PollnetContext::remove_virtual_file` does.
pub fn pollnet_remove_virtual_file(ctx: &mut PollnetContext, handle: u32, filename: String)
    ensures
        old(ctx)@.sent(final(ctx)@, handle, MessageView::FileRemove(filename@)),
        old(ctx).wf() ==> final(ctx).wf(),
{
    ctx.remove_virtual_file(handle, filename)
}

/// Polls `handle` without waiting: an empty queue reads as `NODATA`.
pub fn pollnet_update(ctx: &mut PollnetContext, handle: u32) -> (r: SocketResult)
    requires
        old(ctx).wf(),
        old(ctx)@.has_room(),
    ensures
        final(ctx).wf(),
        exists|arrival: Arrival|
            {
                &&& final(ctx)@ == #[trigger] old(ctx)@.polled(handle, arrival)
                &&& r == old(ctx)@.poll_outcome(handle, arrival)
            },
{
    ctx.update(handle, false)
}

/// Polls `handle` and waits until its queue has something to give, so the
/// poll of a live socket never reads as `NODATA` for want of a message.
pub fn pollnet_update_blocking(ctx: &mut PollnetContext, handle: u32) -> (r: SocketResult)
    requires
        old(ctx).wf(),
        old(ctx)@.has_room(),
    ensures
        final(ctx).wf(),
        exists|arrival: Arrival|
            {
                &&& !(arrival is Empty)
                &&& final(ctx)@ == #[trigger] old(ctx)@.polled(handle, arrival)
                &&& r == old(ctx)@.poll_outcome(handle, arrival)
            },
{
    ctx.update(handle, true)
}

/// Reads the message slot of `handle`, as `PollnetContext::get_message`
/// does.
pub fn pollnet_get(ctx: &mut PollnetContext, handle: u32, dest: &mut Vec<u8>, dest_size: u32) -> (code:
    i32)
    requires
        old(ctx).wf(),
    ensures
        final(ctx).wf(),
        final(ctx)@ == old(ctx)@.message_taken(handle),
        code == -1 <==> !old(ctx)@.sockets.contains_key(handle),
        old(ctx)@.sockets.contains_key(handle) ==> code == read_code(
            old(ctx)@.message_of(handle),
            dest_size,
        ),
        final(dest)@ == read_bytes(old(ctx)@.message_of(handle), dest_size, old(dest)@),
{
    ctx.get_message(handle, dest, dest_size)
}

pub fn pollnet_get_connected_client_handle(ctx: &PollnetContext, handle: u32) -> (client: u32)
    ensures
        client == ctx@.last_client_of(handle),
{
    ctx.last_client(handle)
}

/// Reads the error slot of `handle`, as `PollnetContext::get_error` does.
pub fn pollnet_get_error(ctx: &mut PollnetContext, handle: u32, dest: &mut Vec<u8>, dest_size: u32)
    -> (code: i32)
    requires
        old(ctx).wf(),
    ensures
        final(ctx).wf(),
        final(ctx)@ == old(ctx)@.error_taken(handle),
        code == -1 <==> !old(ctx)@.sockets.contains_key(handle),
        old(ctx)@.sockets.contains_key(handle) ==> code == read_code(
            old(ctx)@.error_of(handle),
            dest_size,
        ),
        final(dest)@ == read_bytes(old(ctx)@.error_of(handle), dest_size, old(dest)@),
{
    ctx.get_error(handle, dest, dest_size)
}

} // verus!
