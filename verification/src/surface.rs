use crate::buffer;
use crate::buffer::FFISharedBuffer;
use vstd::prelude::*;

verus! {

/// Allocates a fixed 42-byte, zero-filled buffer and hands it out by value.
/// The returned structure fully describes the region: the receiver may read
/// all 42 bytes, the token records the region's capacity, and no collector
/// tracks the allocation after this call — responsibility for its eventual
/// release passes to whoever receives the buffer next.
pub fn helix_rs_create_vec() -> (buf: FFISharedBuffer)
    ensures
        buf@.len() == 42,
        forall|i: int| 0 <= i < 42 ==> buf@[i] == 0,
        buf.spec_token() == 42,
        buf.wf(),
{
    buffer::buffer_with_content(buffer::zeroed(42))
}

/// Placeholder for creating a socket: reports the constant success status
/// and does nothing else.
pub fn helix_rs_create_socket() -> (status: u8)
    ensures
        status == 0,
{
    0
}

/// Placeholder for binding to a peer address: reports the constant success
/// status and does nothing else.
pub fn helix_rs_bind() -> (status: u8)
    ensures
        status == 0,
{
    0
}

/// Placeholder for connecting to a peer: reports the constant success
/// status and does nothing else.
pub fn helix_rs_connect() -> (status: u8)
    ensures
        status == 0,
{
    0
}

/// Placeholder for listening on a socket: reports the constant success
/// status and does nothing else.
pub fn helix_rs_listen() -> (status: u8)
    ensures
        status == 0,
{
    0
}

/// Placeholder for handling an incoming packet: hands the buffer back
/// unchanged — same bytes, same token, same allocation — with ownership
/// passing to the caller.
pub fn helix_rs_recv(packet: FFISharedBuffer) -> (out: FFISharedBuffer)
    ensures
        out@ == packet@,
        out.spec_token() == packet.spec_token(),
        out.spec_id() == packet.spec_id(),
{
    buffer::pass_through(packet)
}

/// Placeholder for sending a packet: takes ownership of the buffer and
/// returns nothing.
pub fn helix_rs_send(_packet: FFISharedBuffer) {
}

/// Placeholder for closing a socket: reports the constant success status
/// and does nothing else.
pub fn helix_rs_close() -> (status: u8)
    ensures
        status == 0,
{
    0
}

/// Placeholder for wrapping a packet in the protocol's framing: hands the
/// buffer back unchanged — same bytes, same token, same allocation — with
/// ownership passing to the caller.
pub fn helix_rs_encode_packet(packet: FFISharedBuffer) -> (out: FFISharedBuffer)
    ensures
        out@ == packet@,
        out.spec_token() == packet.spec_token(),
        out.spec_id() == packet.spec_id(),
{
    buffer::pass_through(packet)
}

/// Placeholder for registering a callback: reports the constant success
/// status and does nothing else.
pub fn helix_rs_set_callback_function() -> (status: u8)
    ensures
        status == 0,
{
    0
}

} // verus!
