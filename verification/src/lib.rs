//! A poll-based, handle-oriented networking facade.
//!
//! The host opens sockets, receives a numeric handle for each and polls that
//! handle for progress. Every socket is served by a task that runs elsewhere
//! and talks to the facade through a pair of queues. This crate holds the
//! facade: the handle table, the poll state machine, the decisions that the
//! tasks take on each event, and the in-memory file overlay of the HTTP
//! server.

pub mod api;
pub mod context;
pub mod http;
pub mod ident;
pub mod laws;
pub mod link;
pub mod message;
pub mod overlay;
pub mod socket;
pub mod status;
pub mod table;
pub mod task;

pub use api::{
    pollnet_add_virtual_file, pollnet_close, pollnet_close_all, pollnet_get,
    pollnet_get_connected_client_handle, pollnet_get_error, pollnet_init, pollnet_listen_tcp,
    pollnet_listen_ws, pollnet_open_tcp, pollnet_open_ws, pollnet_remove_virtual_file,
    pollnet_send, pollnet_send_binary, pollnet_serve_http, pollnet_serve_static_http,
    pollnet_shutdown, pollnet_simple_http_get, pollnet_simple_http_post, pollnet_status,
    pollnet_update, pollnet_update_blocking,
};
pub use context::PollnetContext;
pub use http::{Route, STATUS_NOT_FOUND, STATUS_OK};
pub use ident::{pollnet_get_nanoid, write_id, ID_LENGTH};
pub use link::{open_link, Link, TaskLink, OUTBOUND_CAPACITY};
pub use message::{ClientConn, RecvError, SocketMessage};
pub use overlay::VirtualFiles;
pub use socket::PollnetSocket;
pub use status::{SocketResult, SocketStatus};
pub use task::{AcceptStep, ReadOutcome, Step, Task, TaskKind, READ_BUFFER_SIZE, SHUTDOWN_GRACE_MS};
