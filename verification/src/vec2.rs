//! A growable array type with a customizable memory allocator.
//!
//! It differs from `std::vec::Vec` by drawing its backing storage from an
//! explicit [`Alloc`] capability — the arena allocator, the system
//! allocator stand-in, or any equivalent — handed to each operation that
//! may allocate. Elements live at indices `[0, len)`; growth doubles the
//! capacity, preferring in-place growth of the current block over
//! relocation.
//!
//! Growth failure during `push` or `insert` leaves the vector's prior
//! contents fully intact: the element is never partially written.

use vstd::prelude::*;

use crate::raw_vec::RawVec;
use crate::{Alloc, Error};

verus! {

/// A contiguous growable array type backed by an allocator capability.
pub struct Vec<T> {
    /// Resizeable storage bookkeeping.
    pub buf: RawVec<T>,
    /// The elements currently held, exactly the initialized prefix of
    /// the reserved storage.
    pub elems: std::vec::Vec<T>,
}

impl<T> View for Vec<T> {
    type V = Seq<T>;

    open spec fn view(&self) -> Seq<T> {
        self.elems@
    }
}

impl<T> Vec<T> {
    /// The storage is well formed and the initialized prefix fits in it.
    pub open spec fn wf(&self) -> bool {
        self.buf.wf() && self@.len() <= self.buf.cap as int
    }

    /// The number of elements the vector can hold before resizing.
    pub open spec fn cap_spec(&self) -> int {
        self.buf.cap as int
    }

    /// Exactly when one `push` (or `insert`) succeeds against allocator
    /// `a`: outright below capacity, and through a successful growth at
    /// capacity.
    pub open spec fn push_ok<A: Alloc>(&self, a: A) -> bool {
        self@.len() < self.cap_spec() || self.buf.reserve_ok(a, self.buf.grow_amount())
    }

    /// The storage a successful `push` (or `insert`) leaves behind:
    /// untouched below capacity, and grown by one doubling step at
    /// capacity.
    pub open spec fn post_push_buf<A: Alloc>(&self, a: A) -> RawVec<T> {
        if self@.len() < self.cap_spec() {
            self.buf
        } else {
            self.buf.post_reserve_buf(a, self.buf.grow_amount())
        }
    }

    /// The allocator state a successful `push` (or `insert`) leaves
    /// behind.
    pub open spec fn post_push_alloc<A: Alloc>(&self, a: A) -> A {
        if self@.len() < self.cap_spec() {
            a
        } else {
            self.buf.post_reserve_alloc(a, self.buf.grow_amount())
        }
    }

    /// Exactly when a `push` (or `insert`) reports arithmetic overflow:
    /// growth was needed and the doubled capacity's byte size does not
    /// fit the machine. Any other failure is the allocator's refusal.
    pub open spec fn push_overflows(&self) -> bool {
        self@.len() == self.cap_spec() && !self.buf.reserve_fits(self.buf.grow_amount())
    }

    /// Constructs a new, empty vector. Does not allocate: the first
    /// growth request does.
    pub fn new() -> (r: Self)
        requires
            0 < crate::raw_vec::elem_size::<T>(),
        ensures
            r.wf(),
            r@ == Seq::<T>::empty(),
            r.cap_spec() == 0,
    {
        Vec { buf: RawVec::new(), elems: std::vec::Vec::new() }
    }

    /// Constructs a new, empty vector meant to be paired with the system
    /// allocator stand-in, [`crate::system_alloc::SystemAlloc`]. Like
    /// `new`, it defers all allocation to the first growth request.
    pub fn with_system_alloc() -> (r: Self)
        requires
            0 < crate::raw_vec::elem_size::<T>(),
        ensures
            r.wf(),
            r@ == Seq::<T>::empty(),
            r.cap_spec() == 0,
    {
        Vec { buf: RawVec::new(), elems: std::vec::Vec::new() }
    }

    /// Constructs an empty vector that eagerly reserves space for
    /// `capacity` elements, surfacing the allocator's refusal or the
    /// arithmetic overflow as the error.
    pub fn with_capacity<A: Alloc>(a: &mut A, capacity: usize) -> (r: Result<Self, Error>)
        requires
            old(a).wf(),
            0 < crate::raw_vec::elem_size::<T>(),
        ensures
            final(a).wf(),
            r is Ok <==> capacity == 0 || (capacity as int * crate::raw_vec::elem_size::<T>()
                <= usize::MAX as int && old(a).alloc_ok(
                capacity as int * crate::raw_vec::elem_size::<T>(),
                crate::raw_vec::elem_align::<T>(),
            )),
            r is Ok ==> r->Ok_0.wf() && r->Ok_0@ == Seq::<T>::empty() && r->Ok_0.cap_spec()
                == capacity,
            r is Ok && capacity == 0 ==> *final(a) == *old(a),
            r is Ok && capacity > 0 ==> *final(a) == old(a).post_alloc(
                capacity as int * crate::raw_vec::elem_size::<T>(),
                crate::raw_vec::elem_align::<T>(),
            ) && r->Ok_0.buf.offset as int == old(a).alloc_offset(
                capacity as int * crate::raw_vec::elem_size::<T>(),
                crate::raw_vec::elem_align::<T>(),
            ),
            r is Err ==> *final(a) == *old(a),
            r == Err::<Vec<T>, Error>(Error::SizeOverflowErr) <==> capacity as int
                * crate::raw_vec::elem_size::<T>() > usize::MAX as int,
    {
        match RawVec::with_capacity(a, capacity) {
            Ok(buf) => Ok(Vec { buf, elems: std::vec::Vec::new() }),
            Err(e) => Err(e),
        }
    }

    /// The handle of the backing block with the allocator it came from.
    pub fn ptr(&self) -> (r: usize)
        ensures
            r == self.buf.offset,
    {
        self.buf.ptr()
    }

    /// The number of elements the vector can hold before resizing.
    pub fn capacity(&self) -> (r: usize)
        ensures
            r as int == self.cap_spec(),
    {
        self.buf.capacity()
    }

    /// The number of elements currently in the vector.
    pub fn len(&self) -> (r: usize)
        ensures
            r as int == self@.len(),
    {
        self.elems.len()
    }

    /// Moves `elem` into the vector, growing the storage through `a`
    /// first when it is full. On failure the vector is left exactly as
    /// it was and the element is discarded; success is owed whenever the
    /// vector is below capacity.
    pub fn push<A: Alloc>(&mut self, a: &mut A, elem: T) -> (r: Result<(), Error>)
        requires
            old(self).wf(),
            old(a).wf(),
        ensures
            final(self).wf(),
            final(a).wf(),
            r is Ok <==> old(self).push_ok(*old(a)),
            r is Ok ==> final(self)@ == old(self)@.push(elem) && final(self).buf == old(
                self,
            ).post_push_buf(*old(a)) && *final(a) == old(self).post_push_alloc(*old(a)),
            r is Err ==> *final(self) == *old(self) && *final(a) == *old(a),
            r == Err::<(), Error>(Error::SizeOverflowErr) <==> old(self).push_overflows(),
            old(self)@.len() < old(self).cap_spec() ==> r is Ok && *final(a) == *old(a)
                && final(self).buf == old(self).buf,
    {
        if self.elems.len() == self.buf.capacity() {
            match self.buf.grow(a) {
                Ok(()) => {},
                Err(e) => {
                    return Err(e);
                },
            }
        }
        self.elems.push(elem);
        Ok(())
    }

    /// Moves the element at the end of the vector out; `None` when it is
    /// empty. Never touches the allocator.
    pub fn pop(&mut self) -> (r: Option<T>)
        requires
            old(self).wf(),
        ensures
            final(self).wf(),
            final(self).buf == old(self).buf,
            old(self)@.len() == 0 ==> r is None && final(self)@ == old(self)@,
            old(self)@.len() > 0 ==> r == Some(old(self)@.last()) && final(self)@ == old(
                self,
            )@.drop_last(),
    {
        self.elems.pop()
    }

    /// Moves `elem` into the vector at index `index`, shifting the
    /// elements at `[index, len)` one slot to the right, and growing the
    /// storage first when the vector is full. On failure the vector is
    /// left exactly as it was and the element is discarded.
    pub fn insert<A: Alloc>(&mut self, a: &mut A, index: usize, elem: T) -> (r: Result<(), Error>)
        requires
            old(self).wf(),
            old(a).wf(),
            (index as int) <= old(self)@.len(),
        ensures
            final(self).wf(),
            final(a).wf(),
            r is Ok <==> old(self).push_ok(*old(a)),
            r is Ok ==> final(self)@ == old(self)@.insert(index as int, elem) && final(self).buf
                == old(self).post_push_buf(*old(a)) && *final(a) == old(self).post_push_alloc(
                *old(a),
            ),
            r is Err ==> *final(self) == *old(self) && *final(a) == *old(a),
            r == Err::<(), Error>(Error::SizeOverflowErr) <==> old(self).push_overflows(),
            old(self)@.len() < old(self).cap_spec() ==> r is Ok && *final(a) == *old(a)
                && final(self).buf == old(self).buf,
    {
        if self.elems.len() == self.buf.capacity() {
            match self.buf.grow(a) {
                Ok(()) => {},
                Err(e) => {
                    return Err(e);
                },
            }
        }
        self.elems.insert(index, elem);
        Ok(())
    }

    /// Moves the element at `index` out of the vector and shifts the
    /// elements at `[index + 1, len)` one slot left to close the gap.
    pub fn remove(&mut self, index: usize) -> (r: T)
        requires
            old(self).wf(),
            (index as int) < old(self)@.len(),
        ensures
            final(self).wf(),
            final(self).buf == old(self).buf,
            r == old(self)@[index as int],
            final(self)@ == old(self)@.remove(index as int),
    {
        self.elems.remove(index)
    }

    /// A view over the vector's elements.
    pub fn as_slice(&self) -> (r: &[T])
        ensures
            r@ == self@,
    {
        self.elems.as_slice()
    }

    /// A mutable view over the vector's elements. The slice's length
    /// cannot change, so the vector keeps exactly as many elements as it
    /// had.
    pub fn as_mut_slice(&mut self) -> (r: &mut [T])
        ensures
            r@ == old(self)@,
            final(r)@ == final(self)@,
            final(self).buf == old(self).buf,
    {
        self.elems.as_mut_slice()
    }

    /// Empties the vector, handing its elements to the returned draining
    /// cursor. The vector appears empty as soon as `drain` returns, even
    /// before the cursor is consumed; its capacity is untouched.
    pub fn drain(&mut self) -> (r: Drain<T>)
        requires
            old(self).wf(),
        ensures
            final(self).wf(),
            r@ == old(self)@,
            final(self)@ == Seq::<T>::empty(),
            final(self).buf == old(self).buf,
    {
        let mut taken: std::vec::Vec<T> = std::vec::Vec::new();
        core::mem::swap(&mut self.elems, &mut taken);
        Drain { iter: RawValIter { items: taken } }
    }

    /// Consumes the vector, returning a double-ended moving cursor over
    /// all of its elements. The backing block is kept alongside so its
    /// release can be ordered after the last element is consumed.
    pub fn into_iter(self) -> (r: IntoIter<T>)
        requires
            self.wf(),
        ensures
            r@ == self@,
            r.buf == self.buf,
            r.buf.wf(),
    {
        let Vec { buf, elems } = self;
        IntoIter { buf, iter: RawValIter { items: elems } }
    }

    /// Tears the vector down: destroys every initialized element, in
    /// descending index order, before releasing the single backing block
    /// to the allocator. This ordering is mandatory — releasing first
    /// would tear elements down on freed storage.
    pub fn destroy<A: Alloc>(self, a: &mut A)
        requires
            self.wf(),
            old(a).wf(),
        ensures
            final(a).wf(),
            self.buf.cap > 0 ==> *final(a) == old(a).post_dealloc(
                self.buf.offset as int,
                self.buf.bytes_spec(),
            ),
            self.buf.cap == 0 ==> *final(a) == *old(a),
    {
        let Vec { buf, mut elems } = self;
        while elems.len() > 0
            decreases elems@.len(),
        {
            let _discarded = elems.pop();
        }
        buf.destroy(a);
    }
}

/// Exactly when `n` consecutive pushes succeed, starting from storage
/// `buf` holding `len` elements, against allocator `a`: a push below
/// capacity always lands, and a push at capacity first needs a growth
/// step, which moves both the storage and the allocator on.
pub open spec fn pushes_ok<T, A: Alloc>(buf: RawVec<T>, len: int, a: A, n: int) -> bool
    decreases n,
{
    if n <= 0 {
        true
    } else if len < buf.cap as int {
        pushes_ok(buf, len + 1, a, n - 1)
    } else if buf.reserve_ok(a, buf.grow_amount()) {
        pushes_ok(
            buf.post_reserve_buf(a, buf.grow_amount()),
            len + 1,
            buf.post_reserve_alloc(a, buf.grow_amount()),
            n - 1,
        )
    } else {
        false
    }
}

impl<T: Copy> Vec<T> {
    /// Appends the values of `slice` until a push fails or the slice is
    /// exhausted. Succeeds exactly when every one of the pushes does; on
    /// failure, the pushes made so far remain.
    pub fn extend_from_slice<A: Alloc>(&mut self, a: &mut A, slice: &[T]) -> (r: Result<(), Error>)
        requires
            old(self).wf(),
            old(a).wf(),
        ensures
            final(self).wf(),
            final(a).wf(),
            r is Ok <==> pushes_ok(
                old(self).buf,
                old(self)@.len() as int,
                *old(a),
                slice@.len() as int,
            ),
            r is Ok ==> final(self)@ == old(self)@ + slice@,
            r is Err ==> exists|k: int|
                0 <= k < slice@.len() && final(self)@ == old(self)@ + slice@.take(k),
    {
        let ghost orig = self@;
        let ghost orig_buf = self.buf;
        let ghost orig_a = *a;
        let mut i: usize = 0;
        while i < slice.len()
            invariant
                self.wf(),
                a.wf(),
                orig == old(self)@,
                orig_buf == old(self).buf,
                orig_a == *old(a),
                (i as int) <= slice@.len(),
                self@ == orig + slice@.take(i as int),
                pushes_ok(orig_buf, orig.len() as int, orig_a, slice@.len() as int) <==> pushes_ok(
                    self.buf,
                    self@.len() as int,
                    *a,
                    slice@.len() - i,
                ),
            decreases slice@.len() - i,
        {
            let x = slice[i];
            let ghost prev = *self;
            let ghost prev_a = *a;
            match self.push(a, x) {
                Ok(()) => {},
                Err(e) => {
                    proof {
                        assert(0 <= i as int && (i as int) < slice@.len() && self@ == old(self)@
                            + slice@.take(i as int));
                        assert(!pushes_ok(self.buf, self@.len() as int, *a, slice@.len() - i));
                    }
                    return Err(e);
                },
            }
            proof {
                assert(orig + slice@.take(i as int) + seq![slice@[i as int]] =~= orig
                    + slice@.take(i as int + 1));
                if prev@.len() < prev.cap_spec() {
                    assert(pushes_ok(prev.buf, prev@.len() as int, prev_a, slice@.len() - i)
                        == pushes_ok(self.buf, self@.len() as int, *a, slice@.len() - (i + 1)));
                } else {
                    assert(prev.buf.reserve_ok(prev_a, prev.buf.grow_amount()));
                    assert(pushes_ok(prev.buf, prev@.len() as int, prev_a, slice@.len() - i)
                        == pushes_ok(self.buf, self@.len() as int, *a, slice@.len() - (i + 1)));
                }
            }
            i = i + 1;
        }
        proof {
            assert(slice@.take(slice@.len() as int) =~= slice@);
            assert(pushes_ok(self.buf, self@.len() as int, *a, 0));
        }
        Ok(())
    }
}

// ----- Moving cursors --------------------------------------------------------
/// The shared cursor base of `Drain` and `IntoIter`: a double-ended,
/// single-pass, moving traversal of a run of elements.
pub struct RawValIter<T> {
    /// The elements not yet yielded from either end.
    pub items: std::vec::Vec<T>,
}

impl<T> View for RawValIter<T> {
    type V = Seq<T>;

    open spec fn view(&self) -> Seq<T> {
        self.items@
    }
}

impl<T> RawValIter<T> {
    /// How many elements are left to yield: the exact count, as both the
    /// lower and the upper bound.
    pub fn size_hint(&self) -> (r: (usize, Option<usize>))
        ensures
            r.0 as int == self@.len(),
            r.1 == Some(r.0),
    {
        let n = self.items.len();
        (n, Some(n))
    }

    /// Moves the front element out; `None` once the cursor is exhausted.
    pub fn next(&mut self) -> (r: Option<T>)
        ensures
            old(self)@.len() == 0 ==> r is None && final(self)@ == old(self)@,
            old(self)@.len() > 0 ==> r == Some(old(self)@.first()) && final(self)@ == old(
                self,
            )@.drop_first(),
    {
        if self.items.len() == 0 {
            None
        } else {
            let x = self.items.remove(0);
            proof {
                assert(self.items@ =~= old(self).items@.drop_first());
            }
            Some(x)
        }
    }

    /// Moves the back element out; `None` once the cursor is exhausted.
    pub fn next_back(&mut self) -> (r: Option<T>)
        ensures
            old(self)@.len() == 0 ==> r is None && final(self)@ == old(self)@,
            old(self)@.len() > 0 ==> r == Some(old(self)@.last()) && final(self)@ == old(
                self,
            )@.drop_last(),
    {
        self.items.pop()
    }
}

/// A draining cursor over a vector's elements: the vector is already
/// empty, and any elements not consumed are torn down when the cursor is
/// dropped.
pub struct Drain<T> {
    /// The underlying moving cursor.
    pub iter: RawValIter<T>,
}

impl<T> View for Drain<T> {
    type V = Seq<T>;

    open spec fn view(&self) -> Seq<T> {
        self.iter@
    }
}

impl<T> Drain<T> {
    /// How many elements are left to yield.
    pub fn size_hint(&self) -> (r: (usize, Option<usize>))
        ensures
            r.0 as int == self@.len(),
            r.1 == Some(r.0),
    {
        self.iter.size_hint()
    }

    /// Moves the front remaining element out.
    pub fn next(&mut self) -> (r: Option<T>)
        ensures
            old(self)@.len() == 0 ==> r is None && final(self)@ == old(self)@,
            old(self)@.len() > 0 ==> r == Some(old(self)@.first()) && final(self)@ == old(
                self,
            )@.drop_first(),
    {
        self.iter.next()
    }

    /// Moves the back remaining element out.
    pub fn next_back(&mut self) -> (r: Option<T>)
        ensures
            old(self)@.len() == 0 ==> r is None && final(self)@ == old(self)@,
            old(self)@.len() > 0 ==> r == Some(old(self)@.last()) && final(self)@ == old(
                self,
            )@.drop_last(),
    {
        self.iter.next_back()
    }
}

/// A consuming cursor over a vector's elements. It holds the vector's
/// backing block so the elements stay valid until fully consumed; call
/// `destroy` to tear down what is left and release the block.
pub struct IntoIter<T> {
    /// The backing block, kept alive while elements are yielded.
    pub buf: RawVec<T>,
    /// The underlying moving cursor.
    pub iter: RawValIter<T>,
}

impl<T> View for IntoIter<T> {
    type V = Seq<T>;

    open spec fn view(&self) -> Seq<T> {
        self.iter@
    }
}

impl<T> IntoIter<T> {
    /// How many elements are left to yield.
    pub fn size_hint(&self) -> (r: (usize, Option<usize>))
        ensures
            r.0 as int == self@.len(),
            r.1 == Some(r.0),
    {
        self.iter.size_hint()
    }

    /// Moves the front remaining element out.
    pub fn next(&mut self) -> (r: Option<T>)
        ensures
            final(self).buf == old(self).buf,
            old(self)@.len() == 0 ==> r is None && final(self)@ == old(self)@,
            old(self)@.len() > 0 ==> r == Some(old(self)@.first()) && final(self)@ == old(
                self,
            )@.drop_first(),
    {
        self.iter.next()
    }

    /// Moves the back remaining element out.
    pub fn next_back(&mut self) -> (r: Option<T>)
        ensures
            final(self).buf == old(self).buf,
            old(self)@.len() == 0 ==> r is None && final(self)@ == old(self)@,
            old(self)@.len() > 0 ==> r == Some(old(self)@.last()) && final(self)@ == old(
                self,
            )@.drop_last(),
    {
        self.iter.next_back()
    }

    /// Tears down the elements left un-yielded, in descending index
    /// order, then releases the backing block to the allocator.
    pub fn destroy<A: Alloc>(self, a: &mut A)
        requires
            self.buf.wf(),
            old(a).wf(),
        ensures
            final(a).wf(),
            self.buf.cap > 0 ==> *final(a) == old(a).post_dealloc(
                self.buf.offset as int,
                self.buf.bytes_spec(),
            ),
            self.buf.cap == 0 ==> *final(a) == *old(a),
    {
        let IntoIter { buf, iter } = self;
        let RawValIter { mut items } = iter;
        while items.len() > 0
            decreases items@.len(),
        {
            let _discarded = items.pop();
        }
        buf.destroy(a);
    }
}

// ----- Laws -------------------------------------------------------------------
/// The sequence left by pushing the values of `xs`, one after another,
/// onto the back of `s`.
pub open spec fn push_all<T>(s: Seq<T>, xs: Seq<T>) -> Seq<T>
    decreases xs.len(),
{
    if xs.len() == 0 {
        s
    } else {
        push_all(s.push(xs[0]), xs.drop_first())
    }
}

/// After any sequence of `push` calls that all succeed, the vector holds
/// what it held before followed by the pushed values, in order: pushing
/// one at a time is appending.
pub proof fn lemma_pushes_append<T>(s: Seq<T>, xs: Seq<T>)
    ensures
        push_all(s, xs) == s + xs,
    decreases xs.len(),
{
    if xs.len() == 0 {
        assert(push_all(s, xs) =~= s + xs);
    } else {
        lemma_pushes_append(s.push(xs[0]), xs.drop_first());
        assert(s.push(xs[0]) + xs.drop_first() =~= s + xs);
    }
}

/// `insert(i, x)` followed immediately by `remove(i)` is a no-op on the
/// element sequence, whatever it may have done to the capacity.
pub proof fn lemma_insert_remove_roundtrip<T>(s: Seq<T>, i: int, x: T)
    requires
        0 <= i <= s.len(),
    ensures
        s.insert(i, x).remove(i) == s,
{
    assert(s.insert(i, x).remove(i) =~= s);
}

} // verus!
