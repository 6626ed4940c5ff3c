use crate::buffer::FFISharedBuffer;
use vstd::prelude::*;

verus! {

/// An allocation-counting allocator front for shared buffers.
///
/// Every tracked buffer is created through a `BufferAllocator` and must be
/// handed back to it, intact and exactly once, to be released.  The
/// allocator records, under each live allocation's ghost identity, the
/// capacity it allocated, and keeps a running count of live allocations;
/// the count is what a leak-checking harness observes.
pub struct BufferAllocator {
    live: usize,
    caps: Ghost<Map<int, usize>>,
    next_id: Ghost<int>,
}

impl BufferAllocator {
    /// The live allocations: each one's identity, mapped to the capacity
    /// that was allocated for it.
    pub closed spec fn allocations(&self) -> Map<int, usize> {
        self.caps@
    }

    /// The number of live allocations.
    pub closed spec fn spec_live_count(&self) -> usize {
        self.live
    }

    /// Whether the allocation with identity `id` is live.
    pub open spec fn is_live(&self, id: int) -> bool {
        self.allocations().dom().contains(id)
    }

    /// The capacity recorded for the live allocation with identity `id`.
    pub open spec fn capacity_of(&self, id: int) -> usize
        recommends
            self.is_live(id),
    {
        self.allocations()[id]
    }

    /// The allocator's invariant: the live count agrees with its records,
    /// and every recorded identity was minted by it.
    pub closed spec fn wf(&self) -> bool {
        &&& self.caps@.dom().finite()
        &&& self.live == self.caps@.dom().len()
        &&& forall|id: int| self.caps@.dom().contains(id) ==> id < self.next_id@
    }

    /// Whether `buf` may be handed to `release`: its allocation is live
    /// and its fields have not been mutated since creation — the token
    /// still matches the capacity on record and still covers every valid
    /// byte.  Violating this when releasing would corrupt the allocator's
    /// bookkeeping, so `release` demands it as a precondition.
    pub open spec fn can_release(&self, buf: &FFISharedBuffer) -> bool {
        &&& self.is_live(buf.spec_id())
        &&& buf.spec_token() == self.capacity_of(buf.spec_id())
        &&& buf@.len() <= buf.spec_token()
    }

    /// How one creation changes the allocator: `buf` is a fresh, well-formed
    /// buffer of capacity `cap`, its allocation is now on record, the live
    /// count has grown by one, and every other allocation is untouched.
    pub open spec fn creation_of(pre: Self, post: Self, buf: FFISharedBuffer, cap: usize) -> bool {
        &&& !pre.is_live(buf.spec_id())
        &&& buf.spec_token() == cap
        &&& buf@.len() <= cap
        &&& post.allocations() == pre.allocations().insert(buf.spec_id(), cap)
        &&& post.spec_live_count() == pre.spec_live_count() + 1
    }

    /// How one release changes the allocator: `buf`'s allocation has left
    /// the records, the live count has shrunk by one, and every other
    /// allocation is untouched.
    pub open spec fn release_of(pre: Self, post: Self, buf: FFISharedBuffer) -> bool {
        &&& post.allocations() == pre.allocations().remove(buf.spec_id())
        &&& post.spec_live_count() == pre.spec_live_count() - 1
    }

    /// A fresh allocator with nothing live.
    pub fn new() -> (a: Self)
        ensures
            a.wf(),
            a.spec_live_count() == 0,
            a.allocations() == Map::<int, usize>::empty(),
    {
        BufferAllocator { live: 0, caps: Ghost(Map::empty()), next_id: Ghost(0) }
    }

    /// The live-allocation count, as a leak-checking harness reads it.
    pub fn live_count(&self) -> (n: usize)
        ensures
            n == self.spec_live_count(),
    {
        self.live
    }

    /// Allocates a zero-filled region of `n` bytes and hands it out as a
    /// tracked buffer.  The buffer fully describes the region: the caller
    /// may read all `n` bytes, and responsibility for eventual release
    /// passes to whoever receives the buffer next.
    pub fn create(&mut self, n: usize) -> (buf: FFISharedBuffer)
        requires
            old(self).wf(),
            old(self).spec_live_count() < usize::MAX,
        ensures
            final(self).wf(),
            Self::creation_of(*old(self), *final(self), buf, n),
            final(self).can_release(&buf),
            buf.wf(),
            buf@.len() == n,
            forall|i: int| 0 <= i < n ==> buf@[i] == 0,
            buf.spec_token() == n,
    {
        let data = crate::buffer::zeroed(n);
        self.track(data, n)
    }

    /// Allocates a region holding exactly the given bytes and hands it out
    /// as a tracked buffer, the general form of creation that accepts an
    /// existing byte sequence instead of a size.
    pub fn create_from(&mut self, bytes: Vec<u8>) -> (buf: FFISharedBuffer)
        requires
            old(self).wf(),
            old(self).spec_live_count() < usize::MAX,
        ensures
            final(self).wf(),
            Self::creation_of(*old(self), *final(self), buf, bytes@.len() as usize),
            final(self).can_release(&buf),
            buf.wf(),
            buf@ == bytes@,
            buf.spec_token() == bytes@.len(),
    {
        let n = bytes.len();
        self.track(bytes, n)
    }

    /// Puts a freshly allocated region on record under a new identity.
    fn track(&mut self, data: Vec<u8>, cap: usize) -> (buf: FFISharedBuffer)
        requires
            old(self).wf(),
            old(self).spec_live_count() < usize::MAX,
            data@.len() <= cap,
        ensures
            final(self).wf(),
            Self::creation_of(*old(self), *final(self), buf, cap),
            final(self).can_release(&buf),
            buf.wf(),
            buf@ == data@,
            buf.spec_token() == cap,
    {
        let ghost id = self.next_id@;
        let buf = FFISharedBuffer::from_parts(data, cap, Ghost(id));
        self.caps = Ghost(self.caps@.insert(id, cap));
        self.next_id = Ghost(self.next_id@ + 1);
        self.live = self.live + 1;
        buf
    }

    /// Releases a buffer this allocator handed out: takes the region back,
    /// frees it, and strikes its allocation off the records.  The
    /// precondition demands an unmutated, still-live buffer; in particular
    /// a buffer whose allocation has already been released no longer
    /// satisfies it, so a double release is a precondition violation, not
    /// a runtime condition this function reports.
    pub fn release(&mut self, buf: FFISharedBuffer)
        requires
            old(self).wf(),
            old(self).can_release(&buf),
        ensures
            final(self).wf(),
            Self::release_of(*old(self), *final(self), buf),
            !final(self).is_live(buf.spec_id()),
            forall|i: int| i != buf.spec_id() ==> (final(self).is_live(i) <==> old(
                self,
            ).is_live(i)),
            forall|i: int|
                i != buf.spec_id() && old(self).is_live(i) ==> final(self).capacity_of(i) == old(
                    self,
                ).capacity_of(i),
    {
        let ghost id = buf.spec_id();
        self.caps = Ghost(self.caps@.remove(id));
        self.live = self.live - 1;
    }
}

/// Law: create-then-release is safe.  Whatever the allocator's starting
/// state and whatever size was asked for, a buffer that `create` or
/// `create_from` just handed out satisfies `release`'s precondition, and
/// releasing it returns the live-allocation count to its baseline, leaves
/// every other allocation exactly as it was, and leaves the released
/// allocation dead.
pub proof fn lemma_create_then_release(
    a0: BufferAllocator,
    a1: BufferAllocator,
    a2: BufferAllocator,
    buf: FFISharedBuffer,
    cap: usize,
)
    requires
        BufferAllocator::creation_of(a0, a1, buf, cap),
        BufferAllocator::release_of(a1, a2, buf),
    ensures
        a1.can_release(&buf),
        a2.spec_live_count() == a0.spec_live_count(),
        forall|i: int| i != buf.spec_id() ==> (a2.is_live(i) <==> a0.is_live(i)),
        forall|i: int| i != buf.spec_id() && a0.is_live(i) ==> a2.capacity_of(i) == a0.capacity_of(i),
        !a2.is_live(buf.spec_id()),
{
}

/// Law: a double release is caught.  Once a release of `buf` has gone
/// through, the same logical buffer no longer satisfies `release`'s
/// precondition: handing it in again is a precondition violation rather
/// than a silent corruption of the records.
pub proof fn lemma_double_release_rejected(
    a0: BufferAllocator,
    a1: BufferAllocator,
    buf: FFISharedBuffer,
)
    requires
        BufferAllocator::release_of(a0, a1, buf),
    ensures
        !a1.can_release(&buf),
{
}

} // verus!
