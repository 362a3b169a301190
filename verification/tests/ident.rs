use pollnet::socket::{copy_out, text_bytes};
use pollnet::{pollnet_get_nanoid, write_id, ID_LENGTH};

fn is_url_safe(b: u8) -> bool {
    b == b'_' || b == b'-' || b.is_ascii_alphanumeric()
}

#[test]
fn nanoid_has_21_url_safe_characters() {
    assert_eq!(ID_LENGTH, 21);
    let mut dest: Vec<u8> = Vec::new();
    let code = pollnet_get_nanoid(&mut dest, 64);
    assert_eq!(code, 21);
    assert_eq!(dest.len(), 21);
    assert!(dest.iter().all(|b| is_url_safe(*b)));
}

#[test]
fn nanoid_needs_more_than_21_bytes() {
    let mut dest: Vec<u8> = vec![1, 2, 3];
    assert_eq!(pollnet_get_nanoid(&mut dest, 21), 0);
    assert_eq!(dest, vec![1, 2, 3]);
    assert_eq!(pollnet_get_nanoid(&mut dest, 0), 0);
    assert_eq!(dest, vec![1, 2, 3]);
    assert_eq!(pollnet_get_nanoid(&mut dest, 22), 21);
    assert_eq!(dest.len(), 21);
}

#[test]
fn nanoids_differ_from_call_to_call() {
    let mut a: Vec<u8> = Vec::new();
    let mut b: Vec<u8> = Vec::new();
    assert_eq!(pollnet_get_nanoid(&mut a, 100), 21);
    assert_eq!(pollnet_get_nanoid(&mut b, 100), 21);
    assert_ne!(a, b);
}

#[test]
fn write_id_follows_the_buffer_rule() {
    let mut dest: Vec<u8> = vec![9];
    assert_eq!(write_id("abc".to_string(), &mut dest, 3), 0);
    assert_eq!(dest, vec![9]);
    assert_eq!(write_id("abc".to_string(), &mut dest, 4), 3);
    assert_eq!(dest, b"abc".to_vec());
}

#[test]
fn copy_out_replaces_or_keeps_the_buffer() {
    let mut dest: Vec<u8> = vec![9, 9];
    assert_eq!(copy_out(None, &mut dest, 10), 0);
    assert_eq!(dest, vec![9, 9]);
    assert_eq!(copy_out(Some(vec![1, 2, 3, 4]), &mut dest, 4), 0);
    assert_eq!(dest, vec![9, 9]);
    assert_eq!(copy_out(Some(vec![1, 2, 3, 4]), &mut dest, 5), 4);
    assert_eq!(dest, vec![1, 2, 3, 4]);
    assert_eq!(copy_out(Some(vec![]), &mut dest, u32::MAX), 0);
    assert_eq!(dest, Vec::<u8>::new());
}

#[test]
fn text_bytes_are_utf8() {
    assert_eq!(text_bytes(""), Vec::<u8>::new());
    assert_eq!(text_bytes("ping"), b"ping".to_vec());
    assert_eq!(text_bytes("\u{20ac}"), vec![0xE2, 0x82, 0xAC]);
}
