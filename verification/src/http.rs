//! The decisions of an HTTP server task: how a request is answered, and
//! what a message on the task's outbound queue does to the overlay.

use crate::message::{MessageView, SocketMessage};
use crate::overlay::VirtualFiles;
use crate::socket::viewed;
use crate::task::{Step, StepView};
use vstd::prelude::*;

verus! {

/// The status of a reply that carries a file of the overlay.
pub const STATUS_OK: u16 = 200;

/// The status of a reply to a request that nothing answers.
pub const STATUS_NOT_FOUND: u16 = 404;

/// How a request is answered.
pub enum Route {
    /// Reply at once with this status and body.
    Reply { status: u16, body: Vec<u8> },
    /// Let the static directory answer.
    Static,
}

/// A route as contracts see it.
pub enum RouteView {
    Reply { status: u16, body: Seq<u8> },
    Static,
}

impl View for Route {
    type V = RouteView;

    open spec fn view(&self) -> RouteView {
        match *self {
            Route::Reply { status, body } => RouteView::Reply { status, body: body@ },
            Route::Static => RouteView::Static,
        }
    }
}

/// The answer to a request for `path`: a file of the overlay is served with
/// status 200; a path that the overlay lacks goes to the static directory
/// if the server has one, and is answered with an empty 404 if not.
pub open spec fn route_of(files: Map<Seq<char>, Seq<u8>>, path: Seq<char>, has_static: bool)
    -> RouteView {
    if files.contains_key(path) {
        RouteView::Reply { status: STATUS_OK, body: files[path] }
    } else if has_static {
        RouteView::Static
    } else {
        RouteView::Reply { status: STATUS_NOT_FOUND, body: Seq::empty() }
    }
}

/// What a message on the outbound queue of an HTTP server does to the
/// overlay: `FileAdd` puts a file in, `FileRemove` takes one out, and
/// nothing else touches it.
pub open spec fn control_effect(files: Map<Seq<char>, Seq<u8>>, msg: Option<MessageView>) -> Map<
    Seq<char>,
    Seq<u8>,
> {
    match msg {
        Some(MessageView::FileAdd(name, data)) => files.insert(name, data),
        Some(MessageView::FileRemove(name)) => files.remove(name),
        _ => files,
    }
}

/// Whether a message on the outbound queue of an HTTP server shuts the
/// server down: `Disconnect`, `Error` and the host letting go of the queue
/// do.
pub open spec fn control_stops(msg: Option<MessageView>) -> bool {
    match msg {
        Some(MessageView::Disconnect) => true,
        Some(MessageView::Error(_)) => true,
        None => true,
        _ => false,
    }
}

/// The reason that an HTTP server reports for a bind address that does not
/// parse.
pub open spec fn invalid_address_text() -> Seq<char> {
    "Invalid TCP address"@
}

/// The step of an HTTP server once its bind address was parsed: it goes on
/// with an address that parsed, and reports the other kind, which ends the
/// task.
pub open spec fn address_step(valid: bool) -> StepView {
    if valid {
        StepView::Continue
    } else {
        StepView::EmitAndStop(MessageView::Error(invalid_address_text()))
    }
}

/// Decides how a request for `path` is answered; see `route_of`.
pub fn route(files: &VirtualFiles, path: &str, has_static: bool) -> (r: Route)
    requires
        files.wf(),
    ensures
        r@ == route_of(files@, path@, has_static),
{
    let key = path.to_owned();
    match files.get(&key) {
        Some(data) => {
            let body = data.clone();
            assert(body@ =~= data@);
            Route::Reply { status: STATUS_OK, body }
        },
        None => {
            if has_static {
                Route::Static
            } else {
                Route::Reply { status: STATUS_NOT_FOUND, body: Vec::new() }
            }
        },
    }
}

/// Applies a message of the outbound queue to the overlay and says whether
/// the server shuts down; see `control_effect` and `control_stops`.
pub fn http_on_control(files: &mut VirtualFiles, msg: Option<SocketMessage>) -> (stop: bool)
    requires
        old(files).wf(),
    ensures
        final(files).wf(),
        final(files)@ == control_effect(old(files)@, viewed(msg)),
        stop == control_stops(viewed(msg)),
{
    match msg {
        Some(SocketMessage::Disconnect) | Some(SocketMessage::Error(_)) | None => true,
        Some(SocketMessage::FileAdd(filename, filedata)) => {
            files.insert(filename, filedata);
            false
        },
        Some(SocketMessage::FileRemove(filename)) => {
            files.remove(&filename);
            false
        },
        Some(_) => false,
    }
}

/// Decides the step of an HTTP server once its bind address was parsed; see
/// `address_step`.
pub fn http_on_address(valid: bool) -> (step: Step)
    ensures
        step@ == address_step(valid),
{
    if valid {
        Step::Continue
    } else {
        Step::EmitAndStop(SocketMessage::Error("Invalid TCP address".to_owned()))
    }
}

/// A file that was added is served: after `FileAdd` for a path, a request
/// for that path is answered with status 200 and the payload that was
/// added, whatever the overlay held before.
pub proof fn lemma_added_file_is_served(
    files: Map<Seq<char>, Seq<u8>>,
    name: Seq<char>,
    data: Seq<u8>,
    has_static: bool,
)
    ensures
        route_of(control_effect(files, Some(MessageView::FileAdd(name, data))), name, has_static)
            == (RouteView::Reply { status: STATUS_OK, body: data }),
{
}

/// A file that was removed is no longer served: after `FileRemove` for a
/// path, a request for that path goes to the static directory if the server
/// has one, and is answered with an empty 404 if not.
pub proof fn lemma_removed_file_is_missing(
    files: Map<Seq<char>, Seq<u8>>,
    name: Seq<char>,
    has_static: bool,
)
    ensures
        route_of(control_effect(files, Some(MessageView::FileRemove(name))), name, has_static)
            == if has_static {
            RouteView::Static
        } else {
            RouteView::Reply { status: STATUS_NOT_FOUND, body: Seq::empty() }
        },
{
}

/// Adding or removing one path leaves the answer for every other path as it
/// was.
pub proof fn lemma_other_paths_keep_their_answer(
    files: Map<Seq<char>, Seq<u8>>,
    msg: MessageView,
    name: Seq<char>,
    path: Seq<char>,
    has_static: bool,
)
    requires
        msg matches MessageView::FileAdd(n, _) ==> n == name,
        msg matches MessageView::FileRemove(n) ==> n == name,
        path != name,
    ensures
        route_of(control_effect(files, Some(msg)), path, has_static) == route_of(
            files,
            path,
            has_static,
        ),
{
}

} // verus!
