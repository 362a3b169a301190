//! The work that the facade hands to the runtime, and the decisions that a
//! task takes on each event.
//!
//! A task waits for two things at once: a message from the host on its
//! outbound queue, and something from the network. The waiting is the
//! runtime's business; what to do with each event is decided here, by
//! functions from the event to a `Step`.

use crate::link::{TaskLink, offered, open_link};
use crate::message::{ClientConn, MessageView, SocketMessage};
use crate::socket::{text_bytes, viewed};
use vstd::prelude::*;
use vstd::utf8::encode_utf8;

verus! {

/// How many bytes a TCP task reads from its peer at a time.
pub const READ_BUFFER_SIZE: usize = 65536;

/// How long the runtime lets its tasks unwind after the host shut the
/// context down, in milliseconds.
pub const SHUTDOWN_GRACE_MS: u64 = 200;

/// What a task is to do, with the texts that the host gave.
pub enum TaskKind {
    WsClient { url: String },
    WsListener { addr: String },
    TcpClient { addr: String },
    TcpListener { addr: String },
    HttpServer { bind_addr: String, serve_dir: Option<String> },
    HttpGet { url: String },
    HttpPost { url: String, content_type: String, body: Vec<u8> },
}

/// A task for the runtime to run: what it is to do, and its ends of the
/// socket's queues.
pub struct Task {
    pub kind: TaskKind,
    pub link: TaskLink,
}

/// What a task does in answer to one event.
pub enum Step {
    /// Nothing: wait for the next event.
    Continue,
    /// Put the message on the inbound queue and wait for the next event.
    Emit(SocketMessage),
    /// Write all the bytes to the TCP peer and wait for the next event.
    Write(Vec<u8>),
    /// Send a WebSocket text frame and wait for the next event.
    SendText(String),
    /// Send a WebSocket binary frame and wait for the next event.
    SendBinary(Vec<u8>),
    /// Put the message on the inbound queue, close the connection and end.
    EmitAndStop(SocketMessage),
    /// Close the connection and end.
    Stop,
}

/// A step as contracts see it.
pub enum StepView {
    Continue,
    Emit(MessageView),
    Write(Seq<u8>),
    SendText(Seq<char>),
    SendBinary(Seq<u8>),
    EmitAndStop(MessageView),
    Stop,
}

impl View for Step {
    type V = StepView;

    open spec fn view(&self) -> StepView {
        match *self {
            Step::Continue => StepView::Continue,
            Step::Emit(msg) => StepView::Emit(msg@),
            Step::Write(bytes) => StepView::Write(bytes@),
            Step::SendText(text) => StepView::SendText(text@),
            Step::SendBinary(bytes) => StepView::SendBinary(bytes@),
            Step::EmitAndStop(msg) => StepView::EmitAndStop(msg@),
            Step::Stop => StepView::Stop,
        }
    }
}

/// What one attempt to read from a TCP peer brought.
pub enum ReadOutcome {
    /// The bytes that were read; none at all once the peer has finished.
    Data(Vec<u8>),
    /// The peer had nothing to read after all.
    WouldBlock,
    /// The read failed, with the reason as text.
    Failed(String),
}

/// What a listener does with one attempt to accept a peer.
pub enum AcceptStep {
    /// Start a task for the peer. It first puts `announce` on the
    /// listener's inbound queue and works on `link` from there on.
    Spawn { announce: SocketMessage, link: TaskLink },
    /// Put the message on the listener's inbound queue and end.
    Fail(SocketMessage),
}

/// The step after a task's first action (connecting, binding, the
/// WebSocket handshake): success is reported as `Connect`, failure as
/// `Error` with the reason, which ends the task.
pub open spec fn setup_step(outcome: Result<(), String>) -> StepView {
    match outcome {
        Ok(_) => StepView::Emit(MessageView::Connect),
        Err(reason) => StepView::EmitAndStop(MessageView::Error(reason@)),
    }
}

/// The step of a TCP task on an event of its outbound queue: text and
/// bytes are written to the peer; any other message, or the host letting
/// go of the queue, ends the task.
pub open spec fn tcp_outbound_step(msg: Option<MessageView>) -> StepView {
    match msg {
        Some(MessageView::Message(text)) => StepView::Write(encode_utf8(text)),
        Some(MessageView::BinaryMessage(bytes)) => StepView::Write(bytes),
        _ => StepView::Stop,
    }
}

/// The step of a TCP task on a read: bytes go to the host as they came, a
/// read that would block is passed over, a failure is reported and ends the
/// task.
pub open spec fn tcp_read_step(outcome: ReadOutcome) -> StepView {
    match outcome {
        ReadOutcome::Data(bytes) => StepView::Emit(MessageView::BinaryMessage(bytes@)),
        ReadOutcome::WouldBlock => StepView::Continue,
        ReadOutcome::Failed(reason) => StepView::EmitAndStop(MessageView::Error(reason@)),
    }
}

/// The step of a listener on an event of its outbound queue: a text from
/// the host is ignored; anything else ends the task.
pub open spec fn listener_outbound_step(msg: Option<MessageView>) -> StepView {
    match msg {
        Some(MessageView::Message(_)) => StepView::Continue,
        _ => StepView::Stop,
    }
}

/// The step of a WebSocket task on an event of its outbound queue: a text
/// becomes a text frame, bytes become a binary frame; anything else ends
/// the task.
pub open spec fn ws_outbound_step(msg: Option<MessageView>) -> StepView {
    match msg {
        Some(MessageView::Message(text)) => StepView::SendText(text),
        Some(MessageView::BinaryMessage(bytes)) => StepView::SendBinary(bytes),
        _ => StepView::Stop,
    }
}

/// The step of a WebSocket task on an event of its stream: the payload of
/// every frame goes to the host as bytes, whatever kind of frame it was; a
/// failure is reported and ends the task; the end of the stream is reported
/// as `Disconnect`.
pub open spec fn ws_frame_step(frame: Option<Result<Vec<u8>, String>>) -> StepView {
    match frame {
        Some(Ok(payload)) => StepView::Emit(MessageView::BinaryMessage(payload@)),
        Some(Err(reason)) => StepView::EmitAndStop(MessageView::Error(reason@)),
        None => StepView::EmitAndStop(MessageView::Disconnect),
    }
}

/// The step of a one-shot HTTP task on an event of its outbound queue: only
/// `Disconnect` cancels the request.
pub open spec fn http_once_outbound_step(msg: Option<MessageView>) -> StepView {
    match msg {
        Some(MessageView::Disconnect) => StepView::Stop,
        _ => StepView::Continue,
    }
}

/// The step of a one-shot HTTP task on the end of its request: the body is
/// reported as bytes, a failure as `Error`; either ends the task.
pub open spec fn http_once_response_step(outcome: Result<Vec<u8>, String>) -> StepView {
    match outcome {
        Ok(body) => StepView::EmitAndStop(MessageView::BinaryMessage(body@)),
        Err(reason) => StepView::EmitAndStop(MessageView::Error(reason@)),
    }
}

/// Decides the step after a task's first action; see `setup_step`.
pub fn on_setup(outcome: Result<(), String>) -> (step: Step)
    ensures
        step@ == setup_step(outcome),
{
    match outcome {
        Ok(_) => Step::Emit(SocketMessage::Connect),
        Err(reason) => Step::EmitAndStop(SocketMessage::Error(reason)),
    }
}

/// Decides what a TCP task does with an event of its outbound queue; see
/// `tcp_outbound_step`.
pub fn tcp_on_outbound(msg: Option<SocketMessage>) -> (step: Step)
    ensures
        step@ == tcp_outbound_step(viewed(msg)),
{
    match msg {
        Some(SocketMessage::Message(text)) => Step::Write(text_bytes(text.as_str())),
        Some(SocketMessage::BinaryMessage(bytes)) => Step::Write(bytes),
        _ => Step::Stop,
    }
}

/// Decides what a TCP task does with the outcome of a read; see
/// `tcp_read_step`.
pub fn tcp_on_read(outcome: ReadOutcome) -> (step: Step)
    ensures
        step@ == tcp_read_step(outcome),
{
    match outcome {
        ReadOutcome::Data(bytes) => Step::Emit(SocketMessage::BinaryMessage(bytes)),
        ReadOutcome::WouldBlock => Step::Continue,
        ReadOutcome::Failed(reason) => Step::EmitAndStop(SocketMessage::Error(reason)),
    }
}

/// Decides what a listener does with an event of its outbound queue; see
/// `listener_outbound_step`.
pub fn listener_on_outbound(msg: Option<SocketMessage>) -> (step: Step)
    ensures
        step@ == listener_outbound_step(viewed(msg)),
{
    match msg {
        Some(SocketMessage::Message(_)) => Step::Continue,
        _ => Step::Stop,
    }
}

/// Decides what a listener does with one attempt to accept a peer. For an
/// accepted peer, whose address is given as text, the peer's queues are
/// made here: the host's ends travel to the host in the announcement, with
/// nothing handed to them yet, and the task's ends go to the peer's task. A
/// failed attempt is reported as `Error` and ends the listener.
pub fn listener_on_accept(outcome: Result<String, String>) -> (step: AcceptStep)
    ensures
        match outcome {
            Ok(peer) => step matches AcceptStep::Spawn { announce, .. } && (
            announce@ matches MessageView::NewClient(link, id) && id == peer@ && offered(link)
                == Seq::<MessageView>::empty()),
            Err(reason) => step matches AcceptStep::Fail(msg) && msg@ == MessageView::Error(
                reason@,
            ),
        },
{
    match outcome {
        Ok(peer) => {
            let (link, task_link) = open_link();
            AcceptStep::Spawn {
                announce: SocketMessage::NewClient(ClientConn { link, id: peer }),
                link: task_link,
            }
        },
        Err(reason) => AcceptStep::Fail(SocketMessage::Error(reason)),
    }
}

/// Decides what a WebSocket task does with an event of its outbound
/// queue; see `ws_outbound_step`.
pub fn ws_on_outbound(msg: Option<SocketMessage>) -> (step: Step)
    ensures
        step@ == ws_outbound_step(viewed(msg)),
{
    match msg {
        Some(SocketMessage::Message(text)) => Step::SendText(text),
        Some(SocketMessage::BinaryMessage(bytes)) => Step::SendBinary(bytes),
        _ => Step::Stop,
    }
}

/// Decides what a WebSocket task does with an event of its stream, given
/// the payload of a frame or the text of a failure; see `ws_frame_step`.
pub fn ws_on_frame(frame: Option<Result<Vec<u8>, String>>) -> (step: Step)
    ensures
        step@ == ws_frame_step(frame),
{
    match frame {
        Some(Ok(payload)) => Step::Emit(SocketMessage::BinaryMessage(payload)),
        Some(Err(reason)) => Step::EmitAndStop(SocketMessage::Error(reason)),
        None => Step::EmitAndStop(SocketMessage::Disconnect),
    }
}

/// Decides what a one-shot HTTP task does with an event of its outbound
/// queue; see `http_once_outbound_step`.
pub fn http_once_on_outbound(msg: Option<SocketMessage>) -> (step: Step)
    ensures
        step@ == http_once_outbound_step(viewed(msg)),
{
    match msg {
        Some(SocketMessage::Disconnect) => Step::Stop,
        _ => Step::Continue,
    }
}

/// Decides what a one-shot HTTP task reports at the end of its request;
/// see `http_once_response_step`.
pub fn http_once_on_response(outcome: Result<Vec<u8>, String>) -> (step: Step)
    ensures
        step@ == http_once_response_step(outcome),
{
    match outcome {
        Ok(body) => Step::EmitAndStop(SocketMessage::BinaryMessage(body)),
        Err(reason) => Step::EmitAndStop(SocketMessage::Error(reason)),
    }
}

/// A parsed URL of the `url` crate, carried through as it is.
#[verifier::external_type_specification]
#[verifier::external_body]
pub struct ExUrl(url::Url);

/// The text with which `url::Url::parse` refuses `text`, if it refuses it.
pub uninterp spec fn url_parse_failure(text: Seq<char>) -> Option<Seq<char>>;

/// Calls `url::Url::parse`, which parses an absolute URL and depends on the
/// text alone. A refusal is handed on as the text that the error displays.
#[verifier::external_body]
fn parse_url(text: &str) -> (parsed: Result<url::Url, String>)
    ensures
        match parsed {
            Ok(_) => url_parse_failure(text@) is None,
            Err(reason) => url_parse_failure(text@) == Some(reason@),
        },
{
    match url::Url::parse(text) {
        Ok(target) => Ok(target),
        Err(refusal) => Err(refusal.to_string()),
    }
}

/// What a WebSocket client does once its URL was parsed: it connects to a
/// URL that was accepted, and reports the reason for one that was not,
/// which ends the task.
pub fn ws_target_step(parsed: Result<url::Url, String>) -> (target: Result<url::Url, SocketMessage>)
    ensures
        match parsed {
            Ok(url) => target == Ok::<url::Url, SocketMessage>(url),
            Err(reason) => target matches Err(msg) && msg@ == MessageView::Error(reason@),
        },
{
    match parsed {
        Ok(url) => Ok(url),
        Err(reason) => Err(SocketMessage::Error(reason)),
    }
}

/// Parses the URL of a WebSocket client. The task connects to the result,
/// or reports the message and ends.
pub fn ws_client_target(url: &str) -> (target: Result<url::Url, SocketMessage>)
    ensures
        match url_parse_failure(url@) {
            None => target is Ok,
            Some(reason) => target matches Err(msg) && msg@ == MessageView::Error(reason),
        },
{
    ws_target_step(parse_url(url))
}

} // verus!
