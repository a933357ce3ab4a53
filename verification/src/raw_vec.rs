//! The untyped storage backing a vector: an element-count capacity and a
//! block handle obtained from an allocator capability.
//!
//! A capacity of zero is the sentinel "no allocation yet" state; once the
//! capacity is non-zero, the handle refers to a live block sized for
//! exactly `cap` elements of the element type's layout. Growth doubles
//! the capacity, trying `grow_in_place` on the current block first and
//! relocating to a fresh block only when the allocator refuses.

use core::marker::PhantomData;

use vstd::prelude::*;

use crate::{Alloc, Error};

verus! {

/// The element type's size in bytes, as a mathematical integer.
pub open spec fn elem_size<T>() -> int {
    vstd::layout::size_of::<T>() as int
}

/// The element type's alignment in bytes, as a mathematical integer.
pub open spec fn elem_align<T>() -> int {
    vstd::layout::align_of::<T>() as int
}

/// The storage bookkeeping backing a vector. It does not hold elements
/// itself: it records how many elements the current block can hold and
/// where that block lives.
pub struct RawVec<T> {
    /// The handle of the current block: its offset with the allocator
    /// that produced it. Zero capacity makes it a sentinel.
    pub offset: usize,
    /// How many elements the block has space for.
    pub cap: usize,
    /// The storage is laid out for elements of type `T`.
    pub elem: PhantomData<T>,
}

impl<T> RawVec<T> {
    /// Zero-sized element types are not supported, the byte size of the
    /// block fits the machine, and zero capacity is the sentinel state.
    pub open spec fn wf(&self) -> bool {
        0 < elem_size::<T>() && self.cap as int * elem_size::<T>() <= usize::MAX as int && (
        self.cap == 0 ==> self.offset == 0)
    }

    /// The size in bytes of the current block.
    pub open spec fn bytes_spec(&self) -> int {
        self.cap as int * elem_size::<T>()
    }

    /// The size in bytes of the block after reserving `additional` more
    /// elements.
    pub open spec fn new_bytes_spec(&self, additional: int) -> int {
        (self.cap as int + additional) * elem_size::<T>()
    }

    /// Whether the capacity arithmetic of `reserve(additional)` fits the
    /// machine; when it does not, `reserve` reports `SizeOverflowErr`
    /// before any allocation is attempted.
    pub open spec fn reserve_fits(&self, additional: int) -> bool {
        self.cap as int + additional <= usize::MAX as int && self.new_bytes_spec(additional)
            <= usize::MAX as int
    }

    /// Exactly when `reserve(additional)` succeeds against allocator `a`:
    /// trivially for nothing more, and otherwise when the arithmetic fits
    /// and either the first block can be allocated, the current block can
    /// grow in place, or a relocation block can be allocated.
    pub open spec fn reserve_ok<A: Alloc>(&self, a: A, additional: int) -> bool {
        additional == 0 || (self.reserve_fits(additional) && (if self.cap == 0 {
            a.alloc_ok(self.new_bytes_spec(additional), elem_align::<T>())
        } else {
            a.grow_ok(self.offset as int, self.bytes_spec(), self.new_bytes_spec(additional))
                || a.alloc_ok(self.new_bytes_spec(additional), elem_align::<T>())
        }))
    }

    /// How many elements one `grow` call adds: growth doubles the
    /// capacity, which starts at one element.
    pub open spec fn grow_amount(&self) -> int {
        if self.cap == 0 {
            1
        } else {
            self.cap as int
        }
    }

    /// The buffer a successful `reserve(additional)` leaves behind: the
    /// capacity always rises by `additional`; the handle stays when the
    /// block grew in place and otherwise points at the fresh block.
    pub open spec fn post_reserve_buf<A: Alloc>(&self, a: A, additional: int) -> RawVec<T> {
        if additional == 0 {
            *self
        } else if self.cap > 0 && a.grow_ok(
            self.offset as int,
            self.bytes_spec(),
            self.new_bytes_spec(additional),
        ) {
            RawVec {
                offset: self.offset,
                cap: (self.cap as int + additional) as usize,
                elem: self.elem,
            }
        } else {
            RawVec {
                offset: a.alloc_offset(self.new_bytes_spec(additional), elem_align::<T>()) as usize,
                cap: (self.cap as int + additional) as usize,
                elem: self.elem,
            }
        }
    }

    /// The allocator state a successful `reserve(additional)` leaves
    /// behind: untouched for nothing more; the first block allocated; the
    /// current block grown in place; or a fresh block allocated and the
    /// old one freed.
    pub open spec fn post_reserve_alloc<A: Alloc>(&self, a: A, additional: int) -> A {
        if additional == 0 {
            a
        } else if self.cap == 0 {
            a.post_alloc(self.new_bytes_spec(additional), elem_align::<T>())
        } else if a.grow_ok(
            self.offset as int,
            self.bytes_spec(),
            self.new_bytes_spec(additional),
        ) {
            a.post_grow(self.offset as int, self.bytes_spec(), self.new_bytes_spec(additional))
        } else {
            a.post_alloc(self.new_bytes_spec(additional), elem_align::<T>()).post_dealloc(
                self.offset as int,
                self.bytes_spec(),
            )
        }
    }

    /// Creates the sentinel buffer. Does not allocate.
    pub fn new() -> (r: Self)
        requires
            0 < elem_size::<T>(),
        ensures
            r.wf(),
            r.cap == 0usize,
            r.offset == 0usize,
    {
        RawVec { offset: 0, cap: 0, elem: PhantomData }
    }

    /// Creates a buffer and eagerly reserves space for `capacity`
    /// elements, surfacing the allocator's refusal or the arithmetic
    /// overflow as the error.
    pub fn with_capacity<A: Alloc>(a: &mut A, capacity: usize) -> (r: Result<Self, Error>)
        requires
            old(a).wf(),
            0 < elem_size::<T>(),
        ensures
            final(a).wf(),
            r is Ok <==> capacity == 0 || (capacity as int * elem_size::<T>() <= usize::MAX as int
                && old(a).alloc_ok(capacity as int * elem_size::<T>(), elem_align::<T>())),
            r is Ok ==> r->Ok_0.wf() && r->Ok_0.cap == capacity,
            r is Ok && capacity == 0 ==> *final(a) == *old(a),
            r is Ok && capacity > 0 ==> *final(a) == old(a).post_alloc(
                capacity as int * elem_size::<T>(),
                elem_align::<T>(),
            ) && r->Ok_0.offset as int == old(a).alloc_offset(
                capacity as int * elem_size::<T>(),
                elem_align::<T>(),
            ),
            r is Err ==> *final(a) == *old(a),
            r == Err::<RawVec<T>, Error>(Error::SizeOverflowErr) <==> capacity as int * elem_size::<
                T,
            >() > usize::MAX as int,
    {
        let mut rv = RawVec::new();
        match rv.reserve(a, capacity) {
            Ok(()) => Ok(rv),
            Err(e) => Err(e),
        }
    }

    /// The handle of the current block.
    pub fn ptr(&self) -> (r: usize)
        ensures
            r == self.offset,
    {
        self.offset
    }

    /// How many elements the buffer has space for.
    pub fn capacity(&self) -> (r: usize)
        ensures
            r == self.cap,
    {
        self.cap
    }

    /// The size and alignment of the current block, suitable to pass to
    /// the allocator capability.
    pub fn alloc_layout(&self) -> (r: (usize, usize))
        requires
            self.wf(),
        ensures
            r.0 as int == self.bytes_spec(),
            r.1 as int == elem_align::<T>(),
    {
        (self.cap * core::mem::size_of::<T>(), core::mem::align_of::<T>())
    }

    /// Doubles the reserved space: each call grows the allocation, which
    /// initially has space for a single element, to twice its element
    /// count.
    pub fn grow<A: Alloc>(&mut self, a: &mut A) -> (r: Result<(), Error>)
        requires
            old(self).wf(),
            old(a).wf(),
        ensures
            final(self).wf(),
            final(a).wf(),
            r is Ok <==> old(self).reserve_ok(*old(a), old(self).grow_amount()),
            r is Ok ==> final(self).cap as int == old(self).cap as int + old(self).grow_amount()
                && old(self).cap < final(self).cap,
            r is Ok ==> *final(self) == old(self).post_reserve_buf(
                *old(a),
                old(self).grow_amount(),
            ) && *final(a) == old(self).post_reserve_alloc(*old(a), old(self).grow_amount()),
            r is Err ==> *final(self) == *old(self) && *final(a) == *old(a),
            r == Err::<(), Error>(Error::SizeOverflowErr) <==> !old(self).reserve_fits(
                old(self).grow_amount(),
            ),
    {
        if self.cap == 0 {
            self.reserve(a, 1)
        } else {
            let c = self.cap;
            // Reserve an *additional* `c` spaces.
            self.reserve(a, c)
        }
    }

    /// Increases the reserved space to hold `additional` more elements.
    ///
    /// The first allocation goes through `allocate`; later ones first try
    /// `grow_in_place` on the existing block and fall back to allocating
    /// a fresh block and releasing the old one. On any failure the buffer
    /// and the allocator are left exactly as they were.
    pub fn reserve<A: Alloc>(&mut self, a: &mut A, additional: usize) -> (r: Result<(), Error>)
        requires
            old(self).wf(),
            old(a).wf(),
        ensures
            final(self).wf(),
            final(a).wf(),
            r is Ok <==> old(self).reserve_ok(*old(a), additional as int),
            r is Ok ==> final(self).cap as int == old(self).cap as int + additional,
            r is Err ==> *final(self) == *old(self) && *final(a) == *old(a),
            r == Err::<(), Error>(Error::SizeOverflowErr) <==> additional > 0 && !old(
                self,
            ).reserve_fits(additional as int),
            r is Ok ==> *final(self) == old(self).post_reserve_buf(*old(a), additional as int)
                && *final(a) == old(self).post_reserve_alloc(*old(a), additional as int),
            r is Ok && additional > 0 && (old(self).cap == 0 || !old(a).grow_ok(
                old(self).offset as int,
                old(self).bytes_spec(),
                old(self).new_bytes_spec(additional as int),
            )) ==> final(self).offset as int == old(a).alloc_offset(
                old(self).new_bytes_spec(additional as int),
                elem_align::<T>(),
            ),
    {
        if additional == 0 {
            return Ok(());
        }
        vstd::layout::layout_for_type_is_valid::<T>();
        let sz = core::mem::size_of::<T>();
        let align = core::mem::align_of::<T>();
        let new_cap = match self.cap.checked_add(additional) {
            Some(c) => c,
            None => {
                return Err(Error::SizeOverflowErr);
            },
        };
        let new_bytes = match new_cap.checked_mul(sz) {
            Some(b) => b,
            None => {
                return Err(Error::SizeOverflowErr);
            },
        };
        if self.cap == 0 {
            // The first allocation is special: there is no block to grow.
            let off = match a.allocate(new_bytes, align) {
                Ok(o) => o,
                Err(e) => {
                    return Err(e);
                },
            };
            self.offset = off;
            self.cap = new_cap;
            Ok(())
        } else {
            let cur_cap = self.cap;
            let old_bytes = cur_cap * sz;
            proof {
                assert(cur_cap as int * sz as int <= new_cap as int * sz as int)
                    by (nonlinear_arith)
                    requires
                        cur_cap as int <= new_cap as int,
                        0 <= sz as int,
                ;
                assert(1 * sz as int <= new_cap as int * sz as int) by (nonlinear_arith)
                    requires
                        1 <= new_cap as int,
                        0 <= sz as int,
                ;
            }
            match a.grow_in_place(self.offset, old_bytes, new_bytes) {
                Ok(()) => {
                    // The block was resized where it stands: the handle
                    // stays valid and no bytes move.
                    self.cap = new_cap;
                    Ok(())
                },
                Err(_) => {
                    // The block cannot grow in place, so relocate: get a
                    // fresh block and release the old one.
                    let off = match a.allocate(new_bytes, align) {
                        Ok(o) => o,
                        Err(e) => {
                            return Err(e);
                        },
                    };
                    a.dealloc(self.offset, old_bytes);
                    self.offset = off;
                    self.cap = new_cap;
                    Ok(())
                },
            }
        }
    }

    /// Releases the current block back to the allocator. The sentinel
    /// buffer never allocated, so there is nothing to release.
    pub fn destroy<A: Alloc>(self, a: &mut A)
        requires
            self.wf(),
            old(a).wf(),
        ensures
            final(a).wf(),
            self.cap > 0 ==> *final(a) == old(a).post_dealloc(self.offset as int, self.bytes_spec()),
            self.cap == 0 ==> *final(a) == *old(a),
    {
        if self.cap != 0 {
            let bytes = self.cap * core::mem::size_of::<T>();
            a.dealloc(self.offset, bytes);
        }
    }
}

} // verus!
