//! Fixed-capacity, stack-discipline memory allocation, and a growable
//! vector built on top of an allocator capability.
//!
//! Two components make up the crate. [`linear_alloc::LinearAlloc`] owns a
//! byte region and services allocation, deallocation and in-place growth
//! requests with a single monotonically advancing "top of stack" cursor;
//! blocks are identified by their offset into the region, and only the
//! topmost block can be reclaimed or grown. [`vec2::Vec`] is a growable,
//! random-access container that requests blocks from any allocator
//! satisfying the [`Alloc`] capability, doubling its capacity on overflow
//! and preferring in-place growth over relocation.

use vstd::prelude::*;

pub mod linear_alloc;
pub mod raw_vec;
pub mod system_alloc;
pub mod vec2;

verus! {

/// Errors surfaced by the vector and by the allocator capability.
#[derive(Clone, Debug)]
pub enum Error {
    /// An allocation request could not be satisfied within the remaining
    /// capacity. Never retried internally; the caller decides what to do.
    AllocErr,
    /// Element-count times element-size arithmetic overflowed while
    /// computing a new capacity, before any allocation was attempted.
    SizeOverflowErr,
}

/// Signal that a block cannot be resized in place. This is not a hard
/// error: the vector's growth algorithm falls back to relocation and its
/// own callers never see it.
#[derive(Clone, Copy, Debug, PartialEq, Eq, Structural)]
pub struct CannotGrow;

/// The allocator capability consumed by collections.
///
/// An implementor describes itself with the spec functions below, and the
/// executable methods promise their exact effect in terms of them: `allocate`
/// succeeds if and only if `alloc_ok` holds, and then hands out the offset
/// `alloc_offset` and moves the state to `post_alloc`; `dealloc` is total
/// and always moves the state to `post_dealloc`; `grow_in_place` succeeds
/// if and only if `grow_ok` holds. Failed operations leave the allocator
/// unchanged.
pub trait Alloc: Sized {
    /// Well-formedness, established by constructors and preserved by every
    /// operation.
    spec fn wf(&self) -> bool;

    /// Whether a request for `size` bytes at alignment `align` succeeds.
    spec fn alloc_ok(&self, size: int, align: int) -> bool;

    /// The block handle (an offset) handed out by a successful request.
    spec fn alloc_offset(&self, size: int, align: int) -> int;

    /// The allocator state after a successful `alloc`.
    spec fn post_alloc(&self, size: int, align: int) -> Self;

    /// The allocator state after `dealloc(offset, size)`; deallocation is
    /// total and infallible.
    spec fn post_dealloc(&self, offset: int, size: int) -> Self;

    /// Whether `grow_in_place(offset, old_size, new_size)` succeeds.
    spec fn grow_ok(&self, offset: int, old_size: int, new_size: int) -> bool;

    /// The allocator state after a successful `grow_in_place`.
    spec fn post_grow(&self, offset: int, old_size: int, new_size: int) -> Self;

    /// Requests a block of `size` bytes whose offset is a multiple of
    /// `align`. On success the returned handle identifies the block in
    /// later `dealloc` and `grow_in_place` calls.
    fn allocate(&mut self, size: usize, align: usize) -> (r: Result<usize, Error>)
        requires
            old(self).wf(),
            1 <= align,
        ensures
            final(self).wf(),
            r is Ok <==> old(self).alloc_ok(size as int, align as int),
            r is Ok ==> r->Ok_0 as int == old(self).alloc_offset(size as int, align as int)
                && *final(self) == old(self).post_alloc(size as int, align as int),
            r is Err ==> r == Err::<usize, Error>(Error::AllocErr)
                && *final(self) == *old(self),
    ;

    /// Returns the block at `offset` of `size` bytes. Infallible: an
    /// implementor that cannot reclaim the block absorbs the call.
    fn dealloc(&mut self, offset: usize, size: usize)
        requires
            old(self).wf(),
        ensures
            final(self).wf(),
            *final(self) == old(self).post_dealloc(offset as int, size as int),
    ;

    /// Extends the block at `offset` from `old_size` to `new_size` bytes
    /// without moving it. On failure the caller falls back to relocation.
    fn grow_in_place(&mut self, offset: usize, old_size: usize, new_size: usize) -> (r: Result<
        (),
        CannotGrow,
    >)
        requires
            old(self).wf(),
            old_size <= new_size,
            0 < new_size,
        ensures
            final(self).wf(),
            r is Ok <==> old(self).grow_ok(offset as int, old_size as int, new_size as int),
            r is Ok ==> *final(self) == old(self).post_grow(
                offset as int,
                old_size as int,
                new_size as int,
            ),
            r is Err ==> *final(self) == *old(self),
    ;

    /// Shrinking in place is not supported by any implementor: it always
    /// fails and leaves the allocator unchanged.
    fn shrink_in_place(&mut self, offset: usize, old_size: usize, new_size: usize) -> (r: Result<
        (),
        CannotGrow,
    >)
        requires
            old(self).wf(),
        ensures
            final(self).wf(),
            r is Err,
            *final(self) == *old(self),
    ;

    /// Blocks are never over-allocated: the usable range of a block of
    /// `size` bytes is exactly `size`. This tight bound is what lets a
    /// stack allocator recognise the topmost block from `(offset, size)`
    /// alone, without auxiliary metadata.
    fn usable_size(&self, size: usize) -> (r: (usize, usize))
        ensures
            r.0 == size,
            r.1 == size,
    ;
}

} // verus!
