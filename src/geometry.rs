//! Fixed-capacity geometry streaming: a bounds-checked write cursor over a
//! persistently mapped buffer.
use vstd::prelude::*;

verus! {

/// Bytes per vertex: two f32 for the position, two f32 for the texture
/// coordinate and four u8 for the colour.
pub const VERTEX_STRIDE: u64 = 20;

/// Bytes per index: indices are 32-bit.
pub const INDEX_SIZE: u64 = 4;

/// Byte capacity of the vertex buffer of each swapchain image slot.
pub const VERTEX_BUFFER_SIZE: u64 = 1024 * 1024 * 4;

/// Byte capacity of the index buffer of each swapchain image slot.
pub const INDEX_BUFFER_SIZE: u64 = 1024 * 1024 * 2;

/// The vertex buffer capacity of a slot, in bytes.
pub fn vertex_buffer_size() -> (r: u64)
    ensures
        r == VERTEX_BUFFER_SIZE,
{
    VERTEX_BUFFER_SIZE
}

/// The index buffer capacity of a slot, in bytes.
pub fn index_buffer_size() -> (r: u64)
    ensures
        r == INDEX_BUFFER_SIZE,
{
    INDEX_BUFFER_SIZE
}

/// A half-open byte range `[start, end)` inside a buffer.
#[derive(Clone, Copy, Debug, PartialEq, Eq, Structural)]
pub struct ByteRange {
    pub start: u64,
    pub end: u64,
}

/// An append that would have run past the end of the buffer.
#[derive(Clone, Copy, Debug, PartialEq, Eq, Structural)]
pub struct CapacityExceeded {
    /// Where the cursor stood.
    pub offset: u64,
    /// How many bytes were asked for.
    pub requested: u64,
    /// The buffer's capacity.
    pub capacity: u64,
}

/// A write cursor over a buffer of fixed capacity. The running offset never
/// exceeds the capacity.
#[derive(Clone, Copy, Debug)]
pub struct StreamCursor {
    capacity: u64,
    offset: u64,
}

impl StreamCursor {
    pub closed spec fn spec_capacity(&self) -> u64 {
        self.capacity
    }

    pub closed spec fn spec_offset(&self) -> u64 {
        self.offset
    }

    /// The cursor's invariant: the offset lies within the buffer.
    pub closed spec fn wf(&self) -> bool {
        self.offset <= self.capacity
    }

    /// A cursor at the start of a buffer of `capacity` bytes.
    pub fn new(capacity: u64) -> (r: Self)
        ensures
            r.wf(),
            r.spec_capacity() == capacity,
            r.spec_offset() == 0,
    {
        StreamCursor { capacity, offset: 0 }
    }

    #[verifier::when_used_as_spec(spec_capacity)]
    pub fn capacity(&self) -> (r: u64)
        ensures
            r == self.spec_capacity(),
    {
        self.capacity
    }

    #[verifier::when_used_as_spec(spec_offset)]
    pub fn offset(&self) -> (r: u64)
        ensures
            r == self.spec_offset(),
    {
        self.offset
    }

    /// Moves the cursor back to the start of the buffer; the contents are
    /// reused in place, not cleared.
    pub fn reset(&mut self)
        requires
            old(self).wf(),
        ensures
            final(self).wf(),
            final(self).spec_capacity() == old(self).spec_capacity(),
            final(self).spec_offset() == 0,
    {
        self.offset = 0;
    }

    /// Reserves the next `len` bytes. Succeeds exactly when they fit in what
    /// is left of the buffer; on failure the cursor does not move.
    pub fn append(&mut self, len: u64) -> (r: Result<ByteRange, CapacityExceeded>)
        requires
            old(self).wf(),
        ensures
            final(self).wf(),
            final(self).spec_capacity() == old(self).spec_capacity(),
            old(self).spec_offset() + len <= old(self).spec_capacity() ==> {
                &&& r == Ok::<ByteRange, CapacityExceeded>(
                    ByteRange { start: old(self).spec_offset(), end: (old(self).spec_offset() + len) as u64 },
                )
                &&& final(self).spec_offset() == old(self).spec_offset() + len
            },
            old(self).spec_offset() + len > old(self).spec_capacity() ==> {
                &&& r == Err::<ByteRange, CapacityExceeded>(
                    CapacityExceeded {
                        offset: old(self).spec_offset(),
                        requested: len,
                        capacity: old(self).spec_capacity(),
                    },
                )
                &&& final(self).spec_offset() == old(self).spec_offset()
            },
    {
        if len <= self.capacity - self.offset {
            let start = self.offset;
            self.offset = self.offset + len;
            Ok(ByteRange { start, end: self.offset })
        } else {
            Err(CapacityExceeded { offset: self.offset, requested: len, capacity: self.capacity })
        }
    }
}

} // verus!
