use helix_rs::buffer::{buffer_with_content, pass_through};
use helix_rs::surface;

#[test]
fn pass_through_keeps_content_and_length() {
    let b = buffer_with_content(vec![1, 2, 3]);
    let out = pass_through(b);
    assert_eq!(out.len(), 3);
    assert_eq!(out.byte_at(0), 1);
    assert_eq!(out.byte_at(1), 2);
    assert_eq!(out.byte_at(2), 3);
}

#[test]
fn pass_through_keeps_the_token() {
    let b = buffer_with_content(vec![6; 4]);
    let token = b.token();
    let out = pass_through(b);
    assert_eq!(out.token(), token);
}

#[test]
fn create_vec_is_42_zero_bytes() {
    let b = surface::helix_rs_create_vec();
    assert_eq!(b.len(), 42);
    assert_eq!(b.token(), 42);
    for i in 0..42 {
        assert_eq!(b.byte_at(i), 0);
    }
}

#[test]
fn status_stubs_report_success() {
    assert_eq!(surface::helix_rs_create_socket(), 0);
    assert_eq!(surface::helix_rs_bind(), 0);
    assert_eq!(surface::helix_rs_connect(), 0);
    assert_eq!(surface::helix_rs_listen(), 0);
    assert_eq!(surface::helix_rs_close(), 0);
    assert_eq!(surface::helix_rs_set_callback_function(), 0);
}

#[test]
fn recv_returns_the_packet_unchanged() {
    let b = buffer_with_content(vec![10, 20]);
    let out = surface::helix_rs_recv(b);
    assert_eq!(out.len(), 2);
    assert_eq!(out.byte_at(0), 10);
    assert_eq!(out.byte_at(1), 20);
}

#[test]
fn encode_packet_returns_the_packet_unchanged() {
    let b = buffer_with_content(vec![0xde, 0xad]);
    let out = surface::helix_rs_encode_packet(b);
    assert_eq!(out.len(), 2);
    assert_eq!(out.byte_at(0), 0xde);
    assert_eq!(out.byte_at(1), 0xad);
}

#[test]
fn send_consumes_the_packet() {
    let b = buffer_with_content(vec![1]);
    surface::helix_rs_send(b);
}

#[test]
fn into_parts_surrenders_bytes_and_token() {
    let b = buffer_with_content(vec![4, 5]);
    let (bytes, token) = b.into_parts();
    assert_eq!(bytes, vec![4, 5]);
    assert_eq!(token, 2);
}

#[test]
fn empty_buffer_has_no_allocation_to_speak_of() {
    let b = buffer_with_content(Vec::new());
    assert_eq!(b.len(), 0);
    assert_eq!(b.token(), 0);
}
