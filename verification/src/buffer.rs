use vstd::prelude::*;

verus! {

/// A byte buffer in the fixed shape that crosses the native boundary:
/// a contiguous byte region (whose length is the number of valid bytes)
/// and an opaque capacity token.
///
/// The token is meaningful only to the releasing routine on the side that
/// allocated the region: it records how large the underlying allocation
/// really is, which usually exceeds the logical length and must be handed
/// back intact for the region to be freed correctly.  The receiving side
/// must treat it as inert data.
///
/// The ghost `id` stands for the identity of the underlying allocation —
/// the role the region's address plays in a raw layout.  It lets contracts
/// speak of "the same logical buffer" across a create/release pair without
/// exposing an address, and it is erased at run time.
pub struct FFISharedBuffer {
    data: Vec<u8>,
    token: usize,
    id: Ghost<int>,
}

impl View for FFISharedBuffer {
    type V = Seq<u8>;

    closed spec fn view(&self) -> Seq<u8> {
        self.data@
    }
}

impl FFISharedBuffer {
    /// The opaque capacity token carried alongside the bytes.
    pub closed spec fn spec_token(&self) -> usize {
        self.token
    }

    /// The identity of the underlying allocation.
    pub closed spec fn spec_id(&self) -> int {
        self.id@
    }

    /// The buffer's invariant: every valid byte lies within the capacity
    /// the token stands for.
    pub open spec fn wf(&self) -> bool {
        self@.len() <= self.spec_token()
    }

    /// The number of valid bytes.
    pub fn len(&self) -> (n: usize)
        ensures
            n == self@.len(),
    {
        self.data.len()
    }

    /// The capacity token, as the releasing routine will receive it.
    pub fn token(&self) -> (t: usize)
        ensures
            t == self.spec_token(),
    {
        self.token
    }

    /// Reads one of the valid bytes.
    pub fn byte_at(&self, i: usize) -> (b: u8)
        requires
            i < self@.len(),
        ensures
            b == self@[i as int],
    {
        self.data[i]
    }

    /// Decomposes the buffer into the parts that cross the boundary: the
    /// byte region and the capacity token.  The caller becomes responsible
    /// for the region.
    pub fn into_parts(self) -> (parts: (Vec<u8>, usize))
        ensures
            parts.0@ == self@,
            parts.1 == self.spec_token(),
    {
        (self.data, self.token)
    }

    /// Assembles a buffer from its parts, under a given allocation identity.
    pub(crate) fn from_parts(data: Vec<u8>, token: usize, id: Ghost<int>) -> (buf: FFISharedBuffer)
        ensures
            buf@ == data@,
            buf.spec_token() == token,
            buf.spec_id() == id@,
    {
        FFISharedBuffer { data, token, id }
    }
}

/// Wraps an existing byte sequence as a buffer whose token records exactly
/// the length of the region.  The buffer is not tracked by any allocator:
/// responsibility for its eventual release lies with whoever receives it.
pub fn buffer_with_content(bytes: Vec<u8>) -> (buf: FFISharedBuffer)
    ensures
        buf@ == bytes@,
        buf.spec_token() == bytes@.len(),
        buf.wf(),
{
    let token = bytes.len();
    FFISharedBuffer { data: bytes, token, id: Ghost(arbitrary()) }
}

/// The identity transformation used by boundary-crossing operations that
/// accept a buffer and hand an equivalent buffer back without copying:
/// the result carries the same bytes, the same token and the same
/// allocation identity, and ownership of it passes to the caller.
pub fn pass_through(buf: FFISharedBuffer) -> (out: FFISharedBuffer)
    ensures
        out@ == buf@,
        out.spec_token() == buf.spec_token(),
        out.spec_id() == buf.spec_id(),
{
    buf
}

/// A vector of `n` zero bytes.
pub(crate) fn zeroed(n: usize) -> (v: Vec<u8>)
    ensures
        v@.len() == n,
        forall|i: int| 0 <= i < n ==> v@[i] == 0,
{
    let mut v: Vec<u8> = Vec::new();
    let mut i: usize = 0;
    while i < n
        invariant
            i <= n,
            v@.len() == i,
            forall|j: int| 0 <= j < i ==> v@[j] == 0,
        decreases n - i,
    {
        v.push(0);
        i = i + 1;
    }
    v
}

} // verus!
