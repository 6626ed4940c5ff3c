//! A safe buffer-handoff library for a native ("HELIX") socket surface.
//!
//! The heart of the crate is [`buffer::FFISharedBuffer`]: a byte buffer in the
//! fixed three-part shape that crosses a native call boundary (byte region,
//! logical length, opaque capacity token), together with the ownership and
//! lifecycle discipline such a value must obey.  [`allocator::BufferAllocator`]
//! is the allocation-counting front through which tracked buffers are created
//! and released exactly once; [`surface`] holds the boundary entry points.

pub mod allocator;
pub mod buffer;
pub mod surface;
