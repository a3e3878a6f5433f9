//! Logical handles for GPU-side objects.
//!
//! Handles are the library's own numbering, independent of the names a
//! backend gives its objects. One allocator numbers the vertex array and all
//! buffers of a manager from a single counter that starts at zero, so a
//! handle is never issued twice, whatever the kinds asked for.

use vstd::prelude::*;

verus! {

/// What a handle stands for.
#[derive(Clone, Copy, Debug, PartialEq, Eq, Structural)]
pub enum HandleKind {
    VertexArray,
    VertexBuffer,
    IndexBuffer,
}

/// An opaque identifier of a GPU-side object.
#[derive(Clone, Copy, Debug, PartialEq, Eq, Structural)]
pub struct BufferHandle {
    pub kind: HandleKind,
    pub id: u64,
}

/// Issues handles in strictly increasing order.
pub struct HandleAllocator {
    next: u64,
}

/// The first identifier an allocator issues.
pub const FIRST_HANDLE: u64 = 0;

/// That `pre` issued `handle` for `kind` and became `post` by it.
pub open spec fn issues(
    pre: HandleAllocator,
    kind: HandleKind,
    post: HandleAllocator,
    handle: BufferHandle,
) -> bool {
    &&& handle.kind == kind
    &&& handle.id == FIRST_HANDLE + pre.issued()
    &&& post.issued() == pre.issued() + 1
}

impl HandleAllocator {
    /// How many handles have been issued.
    pub closed spec fn issued(&self) -> nat {
        self.next as nat
    }

    /// An allocator that has issued nothing.
    pub fn new() -> (a: Self)
        ensures
            a.issued() == 0,
    {
        HandleAllocator { next: FIRST_HANDLE }
    }

    /// How many handles have been issued.
    pub fn count(&self) -> (n: u64)
        ensures
            n == self.issued(),
    {
        self.next
    }

    /// Issues the next handle, for an object of kind `kind`.
    pub fn next_handle(&mut self, kind: HandleKind) -> (handle: BufferHandle)
        requires
            old(self).issued() < u64::MAX,
        ensures
            issues(*old(self), kind, *final(self), handle),
    {
        let id = self.next;
        self.next = self.next + 1;
        BufferHandle { kind, id }
    }
}

/// A handle issued later is greater than one issued earlier, and so differs
/// from it, whatever the two kinds and however many handles were issued in
/// between.
pub proof fn lemma_handles_strictly_increase(
    a0: HandleAllocator,
    k1: HandleKind,
    a1: HandleAllocator,
    h1: BufferHandle,
    a2: HandleAllocator,
    k2: HandleKind,
    a3: HandleAllocator,
    h2: BufferHandle,
)
    requires
        issues(a0, k1, a1, h1),
        a1.issued() <= a2.issued(),
        issues(a2, k2, a3, h2),
    ensures
        h1.id < h2.id,
        h1 != h2,
{
}

} // verus!
