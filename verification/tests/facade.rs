use pollnet::{
    ClientConn, PollnetContext, RecvError, SocketMessage, SocketResult, SocketStatus, TaskKind,
    TaskLink, open_link,
};
use tokio::sync::mpsc::error::TryRecvError;

fn emit(link: &TaskLink, msg: SocketMessage) {
    assert!(link.tx.send(msg).is_ok());
}

fn next_outbound(link: &mut TaskLink) -> Result<SocketMessage, RecvError> {
    match link.rx.try_recv() {
        Ok(msg) => Ok(msg),
        Err(TryRecvError::Empty) => Err(RecvError::Empty),
        Err(TryRecvError::Disconnected) => Err(RecvError::Disconnected),
    }
}

fn read_message(ctx: &mut PollnetContext, handle: u32, cap: u32) -> (i32, Vec<u8>) {
    let mut dest: Vec<u8> = vec![0xAA];
    let code = ctx.get_message(handle, &mut dest, cap);
    (code, dest)
}

fn read_error(ctx: &mut PollnetContext, handle: u32, cap: u32) -> (i32, Vec<u8>) {
    let mut dest: Vec<u8> = vec![0xAA];
    let code = ctx.get_error(handle, &mut dest, cap);
    (code, dest)
}

#[test]
fn new_context_has_no_sockets() {
    let ctx = PollnetContext::new();
    assert!(ctx.has_room());
    assert_eq!(ctx.status(0), SocketStatus::INVALIDHANDLE);
    assert_eq!(ctx.status(1), SocketStatus::INVALIDHANDLE);
    assert_eq!(ctx.last_client(1), 0);
}

#[test]
fn handles_start_at_one_and_increase() {
    let mut ctx = PollnetContext::new();
    let (a, _ta) = ctx.open_tcp("127.0.0.1:1".to_string());
    let (b, _tb) = ctx.listen_tcp("127.0.0.1:0".to_string());
    let (c, _tc) = ctx.open_ws("ws://127.0.0.1:1".to_string());
    let (d, _td) = ctx.listen_ws("127.0.0.1:0".to_string());
    let (e, _te) = ctx.serve_http("127.0.0.1:0".to_string(), None);
    let (f, _tf) = ctx.open_http_get_simple("http://127.0.0.1:1/".to_string());
    let (g, _tg) = ctx.open_http_post_simple(
        "http://127.0.0.1:1/".to_string(),
        "text/plain".to_string(),
        vec![1, 2],
    );
    assert_eq!((a, b, c, d, e, f, g), (1, 2, 3, 4, 5, 6, 7));
    for h in 1..=7 {
        assert_eq!(ctx.status(h), SocketStatus::OPENING);
    }
    assert_eq!(ctx.status(8), SocketStatus::INVALIDHANDLE);
}

#[test]
fn handles_are_not_reused_after_close() {
    let mut ctx = PollnetContext::new();
    let (a, _ta) = ctx.open_tcp("a".to_string());
    ctx.close(a);
    let (b, _tb) = ctx.open_tcp("b".to_string());
    assert_eq!(a, 1);
    assert_eq!(b, 2);
    ctx.close_all();
    let (c, _tc) = ctx.open_tcp("c".to_string());
    assert_eq!(c, 3);
    assert_eq!(ctx.status(a), SocketStatus::INVALIDHANDLE);
    assert_eq!(ctx.status(b), SocketStatus::INVALIDHANDLE);
    assert_eq!(ctx.status(c), SocketStatus::OPENING);
}

#[test]
fn openers_hand_out_the_work_they_were_given() {
    let mut ctx = PollnetContext::new();
    let (_, t) = ctx.open_ws("ws://h/".to_string());
    assert!(matches!(t.kind, TaskKind::WsClient { ref url } if url == "ws://h/"));
    let (_, t) = ctx.listen_ws("0.0.0.0:1".to_string());
    assert!(matches!(t.kind, TaskKind::WsListener { ref addr } if addr == "0.0.0.0:1"));
    let (_, t) = ctx.open_tcp("h:2".to_string());
    assert!(matches!(t.kind, TaskKind::TcpClient { ref addr } if addr == "h:2"));
    let (_, t) = ctx.listen_tcp("0.0.0.0:3".to_string());
    assert!(matches!(t.kind, TaskKind::TcpListener { ref addr } if addr == "0.0.0.0:3"));
    let (_, t) = ctx.serve_http("0.0.0.0:4".to_string(), Some("www".to_string()));
    assert!(matches!(
        t.kind,
        TaskKind::HttpServer { ref bind_addr, serve_dir: Some(ref dir) }
            if bind_addr == "0.0.0.0:4" && dir == "www"
    ));
    let (_, t) = ctx.serve_http("0.0.0.0:5".to_string(), None);
    assert!(matches!(t.kind, TaskKind::HttpServer { serve_dir: None, .. }));
    let (_, t) = ctx.open_http_get_simple("http://h/a".to_string());
    assert!(matches!(t.kind, TaskKind::HttpGet { ref url } if url == "http://h/a"));
    let (_, t) = ctx.open_http_post_simple("http://h/b".to_string(), "ct".to_string(), vec![9]);
    assert!(matches!(
        t.kind,
        TaskKind::HttpPost { ref url, ref content_type, ref body }
            if url == "http://h/b" && content_type == "ct" && body == &vec![9u8]
    ));
}

#[test]
fn connect_opens_the_socket_and_reads_as_opening() {
    let mut ctx = PollnetContext::new();
    let (h, task) = ctx.open_tcp("a".to_string());
    assert_eq!(ctx.update(h, false), SocketResult::NODATA);
    assert_eq!(ctx.status(h), SocketStatus::OPENING);
    emit(&task.link, SocketMessage::Connect);
    assert_eq!(ctx.update(h, false), SocketResult::OPENING);
    assert_eq!(ctx.status(h), SocketStatus::OPEN);
    let (code, dest) = read_message(&mut ctx, h, 16);
    assert_eq!(code, 0);
    assert_eq!(dest, vec![0xAA]);
    assert_eq!(ctx.update(h, false), SocketResult::NODATA);
    assert_eq!(ctx.status(h), SocketStatus::OPEN);
}

#[test]
fn status_never_goes_backward() {
    let mut ctx = PollnetContext::new();
    let (h, task) = ctx.open_tcp("a".to_string());
    emit(&task.link, SocketMessage::Connect);
    emit(&task.link, SocketMessage::Disconnect);
    emit(&task.link, SocketMessage::Connect);
    emit(&task.link, SocketMessage::Message("late".to_string()));
    assert_eq!(ctx.update(h, false), SocketResult::OPENING);
    assert_eq!(ctx.status(h), SocketStatus::OPEN);
    assert_eq!(ctx.update(h, false), SocketResult::CLOSED);
    assert_eq!(ctx.status(h), SocketStatus::CLOSED);
    assert_eq!(ctx.update(h, false), SocketResult::CLOSED);
    assert_eq!(ctx.status(h), SocketStatus::CLOSED);
    assert_eq!(ctx.update(h, true), SocketResult::CLOSED);
    assert_eq!(read_message(&mut ctx, h, 16).0, 0);
}

#[test]
fn error_settles_the_socket_and_keeps_the_handle() {
    let mut ctx = PollnetContext::new();
    let (h, task) = ctx.open_tcp("a".to_string());
    emit(&task.link, SocketMessage::Error("refused".to_string()));
    emit(&task.link, SocketMessage::Connect);
    assert_eq!(ctx.update(h, false), SocketResult::ERROR);
    assert_eq!(ctx.status(h), SocketStatus::ERROR);
    assert_eq!(ctx.update(h, false), SocketResult::ERROR);
    assert_eq!(ctx.status(h), SocketStatus::ERROR);
    let (code, dest) = read_error(&mut ctx, h, 64);
    assert_eq!(code, 7);
    assert_eq!(dest, b"refused".to_vec());
    let (code, dest) = read_error(&mut ctx, h, 64);
    assert_eq!(code, 0);
    assert_eq!(dest, vec![0xAA]);
    assert_eq!(ctx.status(h), SocketStatus::ERROR);
}

#[test]
fn task_gone_reads_as_closed() {
    let mut ctx = PollnetContext::new();
    let (h, task) = ctx.open_tcp("a".to_string());
    drop(task);
    assert_eq!(ctx.update(h, false), SocketResult::CLOSED);
    assert_eq!(ctx.status(h), SocketStatus::CLOSED);
}

#[test]
fn blocking_poll_of_a_gone_task_returns_closed() {
    let mut ctx = PollnetContext::new();
    let (h, task) = ctx.open_tcp("a".to_string());
    drop(task);
    assert_eq!(ctx.update(h, true), SocketResult::CLOSED);
}

#[test]
fn blocking_poll_takes_the_waiting_message() {
    let mut ctx = PollnetContext::new();
    let (h, task) = ctx.open_tcp("a".to_string());
    emit(&task.link, SocketMessage::BinaryMessage(vec![5, 6]));
    assert_eq!(ctx.update(h, true), SocketResult::HASDATA);
    assert_eq!(read_message(&mut ctx, h, 3), (2, vec![5, 6]));
}

#[test]
fn poll_of_unknown_handle_is_invalid() {
    let mut ctx = PollnetContext::new();
    assert_eq!(ctx.update(1, false), SocketResult::INVALIDHANDLE);
    assert_eq!(ctx.update(0, true), SocketResult::INVALIDHANDLE);
    assert_eq!(
        ctx.apply_event(9, Ok(SocketMessage::Connect)),
        SocketResult::INVALIDHANDLE
    );
}

#[test]
fn text_and_bytes_fill_the_message_slot() {
    let mut ctx = PollnetContext::new();
    let (h, task) = ctx.open_tcp("a".to_string());
    emit(&task.link, SocketMessage::Message("h\u{e9}llo".to_string()));
    emit(&task.link, SocketMessage::BinaryMessage(vec![0, 255, 7]));
    assert_eq!(ctx.update(h, false), SocketResult::HASDATA);
    assert_eq!(read_message(&mut ctx, h, 100), (6, "h\u{e9}llo".as_bytes().to_vec()));
    assert_eq!(ctx.update(h, false), SocketResult::HASDATA);
    assert_eq!(read_message(&mut ctx, h, 100), (3, vec![0, 255, 7]));
    assert_eq!(ctx.status(h), SocketStatus::OPENING);
}

#[test]
fn get_returns_minus_one_iff_handle_unknown() {
    let mut ctx = PollnetContext::new();
    let (h, _task) = ctx.open_tcp("a".to_string());
    assert_eq!(read_message(&mut ctx, h + 1, 10), (-1, vec![0xAA]));
    assert_eq!(read_error(&mut ctx, h + 1, 10), (-1, vec![0xAA]));
    assert_eq!(read_message(&mut ctx, 0, 10), (-1, vec![0xAA]));
    assert_eq!(read_message(&mut ctx, h, 10), (0, vec![0xAA]));
    assert_eq!(read_error(&mut ctx, h, 10), (0, vec![0xAA]));
    ctx.close(h);
    assert_eq!(read_message(&mut ctx, h, 10), (-1, vec![0xAA]));
    assert_eq!(read_error(&mut ctx, h, 10), (-1, vec![0xAA]));
}

#[test]
fn get_copies_only_what_is_shorter_than_the_buffer() {
    let mut ctx = PollnetContext::new();
    let (h, task) = ctx.open_tcp("a".to_string());
    emit(&task.link, SocketMessage::BinaryMessage(vec![1, 2, 3]));
    assert_eq!(ctx.update(h, false), SocketResult::HASDATA);
    assert_eq!(read_message(&mut ctx, h, 3), (0, vec![0xAA]));
    assert_eq!(read_message(&mut ctx, h, 100), (0, vec![0xAA]));
    emit(&task.link, SocketMessage::BinaryMessage(vec![1, 2, 3]));
    assert_eq!(ctx.update(h, false), SocketResult::HASDATA);
    assert_eq!(read_message(&mut ctx, h, 4), (3, vec![1, 2, 3]));
    emit(&task.link, SocketMessage::BinaryMessage(vec![]));
    assert_eq!(ctx.update(h, false), SocketResult::HASDATA);
    assert_eq!(read_message(&mut ctx, h, 0), (0, vec![0xAA]));
    emit(&task.link, SocketMessage::BinaryMessage(vec![]));
    assert_eq!(ctx.update(h, false), SocketResult::HASDATA);
    assert_eq!(read_message(&mut ctx, h, 1), (0, vec![]));
}

#[test]
fn get_error_follows_the_buffer_rule() {
    let mut ctx = PollnetContext::new();
    let (h, task) = ctx.open_tcp("a".to_string());
    emit(&task.link, SocketMessage::Error("bad".to_string()));
    assert_eq!(ctx.update(h, false), SocketResult::ERROR);
    assert_eq!(read_error(&mut ctx, h, 3), (0, vec![0xAA]));
    assert_eq!(read_error(&mut ctx, h, 64), (0, vec![0xAA]));
}

#[test]
fn a_later_message_overwrites_an_unread_one() {
    let mut ctx = PollnetContext::new();
    let (h, task) = ctx.open_tcp("a".to_string());
    emit(&task.link, SocketMessage::BinaryMessage(vec![1]));
    emit(&task.link, SocketMessage::BinaryMessage(vec![2, 2]));
    assert_eq!(ctx.update(h, false), SocketResult::HASDATA);
    assert_eq!(ctx.update(h, false), SocketResult::HASDATA);
    assert_eq!(read_message(&mut ctx, h, 10), (2, vec![2, 2]));
}

#[test]
fn messages_arrive_in_the_order_they_were_emitted() {
    let mut ctx = PollnetContext::new();
    let (h, task) = ctx.open_tcp("a".to_string());
    for i in 0..50u8 {
        emit(&task.link, SocketMessage::BinaryMessage(vec![i, i]));
    }
    for i in 0..50u8 {
        assert_eq!(ctx.update(h, false), SocketResult::HASDATA);
        assert_eq!(read_message(&mut ctx, h, 10), (2, vec![i, i]));
    }
    assert_eq!(ctx.update(h, false), SocketResult::NODATA);
}

#[test]
fn new_client_gets_the_next_handle_and_starts_open() {
    let mut ctx = PollnetContext::new();
    let (listener, task) = ctx.listen_tcp("0.0.0.0:0".to_string());
    assert_eq!(ctx.last_client(listener), 0);
    let (peer_link, peer_task) = open_link();
    emit(&task.link, SocketMessage::NewClient(ClientConn {
        link: peer_link,
        id: "10.0.0.1:5000".to_string(),
    }));
    assert_eq!(ctx.status(2), SocketStatus::INVALIDHANDLE);
    assert_eq!(ctx.update(2, false), SocketResult::INVALIDHANDLE);
    assert_eq!(ctx.update(listener, false), SocketResult::NEWCLIENT);
    let child = ctx.last_client(listener);
    assert_eq!(child, 2);
    assert_eq!(ctx.status(child), SocketStatus::OPEN);
    assert_eq!(ctx.status(listener), SocketStatus::OPENING);
    assert_eq!(ctx.last_client(child), 0);
    assert_eq!(
        read_message(&mut ctx, listener, 64),
        (13, b"10.0.0.1:5000".to_vec())
    );
    emit(&peer_task, SocketMessage::BinaryMessage(vec![4, 2]));
    assert_eq!(ctx.update(child, false), SocketResult::HASDATA);
    assert_eq!(read_message(&mut ctx, child, 64), (2, vec![4, 2]));
    let (next, _t) = ctx.open_tcp("b".to_string());
    assert_eq!(next, 3);
}

#[test]
fn a_second_client_overwrites_the_last_client() {
    let mut ctx = PollnetContext::new();
    let (listener, task) = ctx.listen_ws("0.0.0.0:0".to_string());
    let (l1, _t1) = open_link();
    let (l2, _t2) = open_link();
    emit(&task.link, SocketMessage::NewClient(ClientConn { link: l1, id: "one".to_string() }));
    emit(&task.link, SocketMessage::NewClient(ClientConn { link: l2, id: "second".to_string() }));
    assert_eq!(ctx.update(listener, false), SocketResult::NEWCLIENT);
    assert_eq!(ctx.last_client(listener), 2);
    assert_eq!(ctx.update(listener, false), SocketResult::NEWCLIENT);
    assert_eq!(ctx.last_client(listener), 3);
    assert_eq!(read_message(&mut ctx, listener, 64), (6, b"second".to_vec()));
    assert_eq!(ctx.update(listener, false), SocketResult::NODATA);
    assert_eq!(ctx.last_client(listener), 3);
    assert_eq!(ctx.status(2), SocketStatus::OPEN);
    assert_eq!(ctx.status(3), SocketStatus::OPEN);
}

#[test]
fn file_messages_to_the_host_read_as_no_data() {
    let mut ctx = PollnetContext::new();
    let (h, task) = ctx.open_tcp("a".to_string());
    emit(&task.link, SocketMessage::FileAdd("/x".to_string(), vec![1]));
    emit(&task.link, SocketMessage::FileRemove("/x".to_string()));
    assert_eq!(ctx.update(h, false), SocketResult::NODATA);
    assert_eq!(ctx.update(h, false), SocketResult::NODATA);
    assert_eq!(read_message(&mut ctx, h, 10).0, 0);
    assert_eq!(ctx.status(h), SocketStatus::OPENING);
}

#[test]
fn apply_event_follows_the_poll_table() {
    let mut ctx = PollnetContext::new();
    let (h, _task) = ctx.open_tcp("a".to_string());
    assert_eq!(ctx.apply_event(h, Err(RecvError::Empty)), SocketResult::NODATA);
    assert_eq!(ctx.apply_event(h, Ok(SocketMessage::Connect)), SocketResult::OPENING);
    assert_eq!(
        ctx.apply_event(h, Ok(SocketMessage::Message("t".to_string()))),
        SocketResult::HASDATA
    );
    assert_eq!(
        ctx.apply_event(h, Err(RecvError::Disconnected)),
        SocketResult::CLOSED
    );
    assert_eq!(ctx.status(h), SocketStatus::CLOSED);
    assert_eq!(
        ctx.apply_event(h, Ok(SocketMessage::BinaryMessage(vec![1]))),
        SocketResult::CLOSED
    );
    assert_eq!(read_message(&mut ctx, h, 10), (1, b"t".to_vec()));
}

#[test]
fn close_makes_the_handle_invalid() {
    let mut ctx = PollnetContext::new();
    let (a, _ta) = ctx.open_tcp("a".to_string());
    let (b, _tb) = ctx.open_tcp("b".to_string());
    ctx.close(a);
    assert_eq!(ctx.status(a), SocketStatus::INVALIDHANDLE);
    assert_eq!(ctx.update(a, false), SocketResult::INVALIDHANDLE);
    assert_eq!(ctx.last_client(a), 0);
    assert_eq!(ctx.status(b), SocketStatus::OPENING);
    ctx.close(a);
    ctx.close(77);
    assert_eq!(ctx.status(b), SocketStatus::OPENING);
}

#[test]
fn close_tells_a_live_task_to_disconnect() {
    let mut ctx = PollnetContext::new();
    let (h, mut task) = ctx.open_tcp("a".to_string());
    assert!(matches!(next_outbound(&mut task.link), Err(RecvError::Empty)));
    ctx.close(h);
    assert!(matches!(next_outbound(&mut task.link), Ok(SocketMessage::Disconnect)));
    assert!(matches!(next_outbound(&mut task.link), Err(RecvError::Disconnected)));
}

#[test]
fn close_of_a_settled_socket_sends_nothing() {
    let mut ctx = PollnetContext::new();
    let (h, mut task) = ctx.open_tcp("a".to_string());
    emit(&task.link, SocketMessage::Error("e".to_string()));
    assert_eq!(ctx.update(h, false), SocketResult::ERROR);
    ctx.close(h);
    assert!(matches!(next_outbound(&mut task.link), Err(RecvError::Disconnected)));
    assert_eq!(ctx.status(h), SocketStatus::INVALIDHANDLE);
}

#[test]
fn close_all_empties_the_table() {
    let mut ctx = PollnetContext::new();
    let (a, mut ta) = ctx.open_tcp("a".to_string());
    let (b, mut tb) = ctx.listen_tcp("b".to_string());
    let (c, mut tc) = ctx.open_ws("c".to_string());
    emit(&tc.link, SocketMessage::Disconnect);
    assert_eq!(ctx.update(c, false), SocketResult::CLOSED);
    ctx.close_all();
    for h in [a, b, c] {
        assert_eq!(ctx.status(h), SocketStatus::INVALIDHANDLE);
    }
    assert!(matches!(next_outbound(&mut ta.link), Ok(SocketMessage::Disconnect)));
    assert!(matches!(next_outbound(&mut tb.link), Ok(SocketMessage::Disconnect)));
    assert!(matches!(next_outbound(&mut tc.link), Err(RecvError::Disconnected)));
    ctx.close_all();
    assert!(ctx.has_room());
}

#[test]
fn send_reaches_a_live_task_in_order() {
    let mut ctx = PollnetContext::new();
    let (h, mut task) = ctx.open_tcp("a".to_string());
    ctx.send(h, "one".to_string());
    ctx.send_binary(h, vec![2]);
    ctx.add_virtual_file(h, "/f".to_string(), vec![3]);
    ctx.remove_virtual_file(h, "/f".to_string());
    assert!(matches!(next_outbound(&mut task.link), Ok(SocketMessage::Message(ref s)) if s == "one"));
    assert!(matches!(next_outbound(&mut task.link), Ok(SocketMessage::BinaryMessage(ref b)) if b == &vec![2u8]));
    assert!(matches!(
        next_outbound(&mut task.link),
        Ok(SocketMessage::FileAdd(ref n, ref d)) if n == "/f" && d == &vec![3u8]
    ));
    assert!(matches!(next_outbound(&mut task.link), Ok(SocketMessage::FileRemove(ref n)) if n == "/f"));
    assert!(matches!(next_outbound(&mut task.link), Err(RecvError::Empty)));
    assert_eq!(ctx.status(h), SocketStatus::OPENING);
}

#[test]
fn send_to_a_settled_or_unknown_socket_is_dropped() {
    let mut ctx = PollnetContext::new();
    let (h, mut task) = ctx.open_tcp("a".to_string());
    emit(&task.link, SocketMessage::Error("e".to_string()));
    assert_eq!(ctx.update(h, false), SocketResult::ERROR);
    ctx.send(h, "x".to_string());
    ctx.send_binary(h, vec![1]);
    ctx.add_virtual_file(h, "/f".to_string(), vec![3]);
    ctx.remove_virtual_file(h, "/f".to_string());
    ctx.send(h + 1, "x".to_string());
    assert!(matches!(next_outbound(&mut task.link), Err(RecvError::Empty)));
    assert_eq!(ctx.status(h), SocketStatus::ERROR);
}

#[test]
fn send_is_dropped_when_the_queue_is_full() {
    let mut ctx = PollnetContext::new();
    let (h, mut task) = ctx.open_tcp("a".to_string());
    assert_eq!(pollnet::OUTBOUND_CAPACITY, 100);
    for i in 0..150u8 {
        ctx.send_binary(h, vec![i]);
    }
    for i in 0..100u8 {
        assert!(matches!(next_outbound(&mut task.link), Ok(SocketMessage::BinaryMessage(ref b)) if b == &vec![i]));
    }
    assert!(matches!(next_outbound(&mut task.link), Err(RecvError::Empty)));
    ctx.send_binary(h, vec![200]);
    assert!(matches!(next_outbound(&mut task.link), Ok(SocketMessage::BinaryMessage(ref b)) if b == &vec![200u8]));
}

#[test]
fn a_socket_hands_messages_on_only_while_live() {
    let (link, mut task) = open_link();
    let mut sock = pollnet::PollnetSocket::new(link, SocketStatus::OPEN);
    sock.hand(SocketMessage::Message("a".to_string()));
    assert!(matches!(next_outbound(&mut task), Ok(SocketMessage::Message(ref s)) if s == "a"));
    sock.dismiss();
    assert_eq!(sock.status(), SocketStatus::CLOSED);
    assert!(matches!(next_outbound(&mut task), Ok(SocketMessage::Disconnect)));
    sock.hand(SocketMessage::Message("b".to_string()));
    sock.dismiss();
    assert!(matches!(next_outbound(&mut task), Err(RecvError::Empty)));
    assert_eq!(sock.status(), SocketStatus::CLOSED);
}
