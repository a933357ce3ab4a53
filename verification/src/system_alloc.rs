//! A stand-in for the system allocator, for containers that do not live
//! inside an arena.
//!
//! The capability contract only speaks about offsets, so a backing store
//! that never runs out is modelled by a cursor that hands out fresh,
//! disjoint offsets for as long as they fit in `usize`. Deallocation is
//! absorbed, and in-place growth is always refused, which makes a
//! container fall back to its relocation path, exactly as a general
//! purpose allocator without block extension would.

use vstd::prelude::*;

use crate::{Alloc, CannotGrow, Error};

verus! {

/// An allocator capability that is never exhausted until offsets no
/// longer fit in `usize`.
pub struct SystemAlloc {
    /// The next fresh offset to hand out.
    pub next: usize,
}

impl SystemAlloc {
    /// Creates the system allocator stand-in.
    pub fn new() -> (r: Self)
        ensures
            r.wf(),
            r.next == 0usize,
    {
        SystemAlloc { next: 0 }
    }
}

impl Alloc for SystemAlloc {
    open spec fn wf(&self) -> bool {
        true
    }

    /// A request succeeds whenever the aligned block still fits in the
    /// offset space.
    open spec fn alloc_ok(&self, size: int, align: int) -> bool {
        crate::linear_alloc::align_up(self.next as int, align) + size <= usize::MAX as int
    }

    open spec fn alloc_offset(&self, size: int, align: int) -> int {
        crate::linear_alloc::align_up(self.next as int, align)
    }

    open spec fn post_alloc(&self, size: int, align: int) -> Self {
        SystemAlloc {
            next: (crate::linear_alloc::align_up(self.next as int, align) + size) as usize,
        }
    }

    /// Blocks are never reused: a free is absorbed.
    open spec fn post_dealloc(&self, offset: int, size: int) -> Self {
        *self
    }

    /// In-place growth is never available.
    open spec fn grow_ok(&self, offset: int, old_size: int, new_size: int) -> bool {
        false
    }

    open spec fn post_grow(&self, offset: int, old_size: int, new_size: int) -> Self {
        *self
    }

    fn allocate(&mut self, size: usize, align: usize) -> (r: Result<usize, Error>) {
        let rem = self.next % align;
        let pad = if rem == 0 {
            0usize
        } else {
            align - rem
        };
        proof {
            crate::linear_alloc::lemma_align_up(self.next as int, align as int);
            assert(self.next + pad == crate::linear_alloc::align_up(
                self.next as int,
                align as int,
            ));
        }
        let start = match self.next.checked_add(pad) {
            Some(s) => s,
            None => {
                return Err(Error::AllocErr);
            },
        };
        match start.checked_add(size) {
            Some(new_next) => {
                self.next = new_next;
                Ok(start)
            },
            None => Err(Error::AllocErr),
        }
    }

    fn dealloc(&mut self, offset: usize, size: usize) {
    }

    fn grow_in_place(&mut self, offset: usize, old_size: usize, new_size: usize) -> (r: Result<
        (),
        CannotGrow,
    >) {
        Err(CannotGrow)
    }

    fn shrink_in_place(&mut self, offset: usize, old_size: usize, new_size: usize) -> (r: Result<
        (),
        CannotGrow,
    >) {
        Err(CannotGrow)
    }

    fn usable_size(&self, size: usize) -> (r: (usize, usize)) {
        (size, size)
    }
}

} // verus!
