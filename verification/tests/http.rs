use pollnet::http::{http_on_address, http_on_control, route};
use pollnet::{ClientConn, Route, SocketMessage, Step, VirtualFiles, open_link, STATUS_NOT_FOUND, STATUS_OK};

fn reply(files: &VirtualFiles, path: &str, has_static: bool) -> Option<(u16, Vec<u8>)> {
    match route(files, path, has_static) {
        Route::Reply { status, body } => Some((status, body)),
        Route::Static => None,
    }
}

#[test]
fn status_codes_have_their_values() {
    assert_eq!(STATUS_OK, 200);
    assert_eq!(STATUS_NOT_FOUND, 404);
}

#[test]
fn empty_overlay_misses_everything() {
    let files = VirtualFiles::new();
    assert_eq!(reply(&files, "/", false), Some((404, vec![])));
    assert_eq!(reply(&files, "/a.txt", false), Some((404, vec![])));
    assert_eq!(reply(&files, "/a.txt", true), None);
    assert!(files.get(&"/a.txt".to_string()).is_none());
}

#[test]
fn added_file_is_served_and_removed_file_is_not() {
    let mut files = VirtualFiles::new();
    let stop = http_on_control(
        &mut files,
        Some(SocketMessage::FileAdd("/x".to_string(), b"payload".to_vec())),
    );
    assert!(!stop);
    assert_eq!(reply(&files, "/x", false), Some((200, b"payload".to_vec())));
    assert_eq!(reply(&files, "/x", true), Some((200, b"payload".to_vec())));
    assert_eq!(reply(&files, "/y", false), Some((404, vec![])));
    assert_eq!(reply(&files, "/X", false), Some((404, vec![])));
    let stop = http_on_control(&mut files, Some(SocketMessage::FileRemove("/x".to_string())));
    assert!(!stop);
    assert_eq!(reply(&files, "/x", false), Some((404, vec![])));
    assert_eq!(reply(&files, "/x", true), None);
}

#[test]
fn adding_again_replaces_the_payload() {
    let mut files = VirtualFiles::new();
    files.insert("/a".to_string(), vec![1]);
    files.insert("/b".to_string(), vec![2]);
    files.insert("/a".to_string(), vec![3, 3]);
    assert_eq!(files.get(&"/a".to_string()), Some(&vec![3u8, 3]));
    assert_eq!(files.get(&"/b".to_string()), Some(&vec![2u8]));
    files.remove(&"/a".to_string());
    assert_eq!(files.get(&"/a".to_string()), None);
    assert_eq!(files.get(&"/b".to_string()), Some(&vec![2u8]));
    files.remove(&"/missing".to_string());
    assert_eq!(files.get(&"/b".to_string()), Some(&vec![2u8]));
}

#[test]
fn empty_payload_is_still_a_hit() {
    let mut files = VirtualFiles::new();
    files.insert("/empty".to_string(), vec![]);
    assert_eq!(reply(&files, "/empty", false), Some((200, vec![])));
    assert_eq!(reply(&files, "/empty", true), Some((200, vec![])));
}

#[test]
fn control_stops_on_disconnect_error_and_closed_queue() {
    let mut files = VirtualFiles::new();
    files.insert("/keep".to_string(), vec![1]);
    assert!(http_on_control(&mut files, Some(SocketMessage::Disconnect)));
    assert!(http_on_control(&mut files, Some(SocketMessage::Error("x".to_string()))));
    assert!(http_on_control(&mut files, None));
    assert_eq!(reply(&files, "/keep", false), Some((200, vec![1])));
}

#[test]
fn control_ignores_other_messages() {
    let mut files = VirtualFiles::new();
    files.insert("/keep".to_string(), vec![1]);
    let (link, _task) = open_link();
    assert!(!http_on_control(&mut files, Some(SocketMessage::Connect)));
    assert!(!http_on_control(&mut files, Some(SocketMessage::Message("/keep".to_string()))));
    assert!(!http_on_control(&mut files, Some(SocketMessage::BinaryMessage(vec![2]))));
    assert!(!http_on_control(
        &mut files,
        Some(SocketMessage::NewClient(ClientConn { link, id: "p".to_string() }))
    ));
    assert_eq!(reply(&files, "/keep", false), Some((200, vec![1])));
    assert_eq!(reply(&files, "/other", false), Some((404, vec![])));
}

#[test]
fn invalid_bind_address_is_reported() {
    assert!(matches!(http_on_address(true), Step::Continue));
    assert!(matches!(
        http_on_address(false),
        Step::EmitAndStop(SocketMessage::Error(ref e)) if e == "Invalid TCP address"
    ));
}
