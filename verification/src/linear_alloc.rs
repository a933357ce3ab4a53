//! A linear allocator which uses a caller-supplied byte region as backing
//! memory.
//!
//! Allocation requests are given exactly as much memory as they ask for,
//! and the space can only be reused after a `dealloc` if the block was the
//! latest allocation made from this allocator. If all allocations are
//! freed in the exact opposite order in which they were made, all of the
//! space can be reused for further requests; a free of any other block is
//! deliberately absorbed as a no-op, and the bytes stay unavailable until
//! a `reset` or `reset_to`.
//!
//! Blocks are identified by `(offset, size)`: the allocator hands out
//! offsets into its region and tracks no metadata beyond the top cursor,
//! which is why only the topmost block can be reclaimed or grown.

use vstd::prelude::*;

use crate::{Alloc, CannotGrow, Error};

verus! {

/// Rounds `pos` up to the next multiple of `align`.
pub open spec fn align_up(pos: int, align: int) -> int
    recommends
        0 <= pos,
        1 <= align,
{
    pos + ((align - pos % align) % align)
}

/// The padding introduced by `align_up` is the distance to the next
/// alignment boundary: zero when `pos` is aligned already, and always
/// less than `align`.
pub proof fn lemma_align_up(pos: int, align: int)
    requires
        0 <= pos,
        1 <= align,
    ensures
        pos % align == 0 ==> align_up(pos, align) == pos,
        pos % align != 0 ==> align_up(pos, align) == pos + (align - pos % align),
        pos <= align_up(pos, align) < pos + align,
{
    let r = pos % align;
    if r == 0 {
        vstd::arithmetic::div_mod::lemma_mod_self_0(align);
    } else {
        vstd::arithmetic::div_mod::lemma_small_mod((align - r) as nat, align as nat);
    }
}

/// A linear (bump / stack-discipline) allocator over an owned byte region.
///
/// Only the length of the region matters to the bookkeeping: blocks are
/// identified by their offsets, validated against the region's bounds on
/// every operation.
pub struct LinearAlloc {
    /// The buffer backing allocations.
    pub buf: Vec<u8>,
    /// The current top of the stack, as an offset into `buf`.
    pub top: usize,
    /// The high water mark of the allocator, as an offset into `buf`.
    pub high: usize,
}

/// A saved stack position that the allocator can be reset to later.
#[derive(Debug, Copy, Clone, PartialEq, Eq, Structural)]
pub struct Marker(pub usize);

#[derive(Debug, Copy, Clone, PartialEq, Eq, Structural)]
pub enum LinearAllocError {
    /// There was an attempt to reset the stack to a marker which is not
    /// valid: its offset lies above the current top.
    InvalidMarker,
}

impl LinearAlloc {
    /// The length of the backing region, as a mathematical integer.
    pub open spec fn cap_spec(&self) -> int {
        self.buf@.len() as int
    }

    /// The current top cursor, as a mathematical integer.
    pub open spec fn top_spec(&self) -> int {
        self.top as int
    }

    /// The high water mark, as a mathematical integer.
    pub open spec fn high_spec(&self) -> int {
        self.high as int
    }

    /// The state after `reset`: the top returns to zero, the high water
    /// mark and the region are untouched.
    pub open spec fn post_reset(&self) -> Self {
        LinearAlloc { buf: self.buf, top: 0usize, high: self.high }
    }

    /// Whether `reset_to` accepts a marker: resetting "up" is rejected.
    pub open spec fn reset_to_ok(&self, mark: int) -> bool {
        mark <= self.top_spec()
    }

    /// The state after `reset_to`; an invalid marker leaves it unchanged.
    pub open spec fn post_reset_to(&self, mark: int) -> Self {
        if self.reset_to_ok(mark) {
            LinearAlloc { buf: self.buf, top: mark as usize, high: self.high }
        } else {
            *self
        }
    }

    /// Creates a new linear allocator over a backing buffer. The buffer's
    /// contents are taken as they are, and no operation ever writes them:
    /// the bookkeeping works on offsets alone.
    pub fn new(buf: Vec<u8>) -> (r: Self)
        ensures
            r.wf(),
            r.buf@ == buf@,
            r.cap_spec() == buf@.len(),
            r.top_spec() == 0,
            r.high_spec() == 0,
    {
        proof {
            assert(buf@.len() == vstd::std_specs::vec::spec_vec_len(&buf));
        }
        LinearAlloc { buf, top: 0, high: 0 }
    }

    /// Resets the stack completely, making the whole region available
    /// again. All blocks handed out so far become stale: the caller must
    /// no longer pass their offsets to `dealloc` or `grow_in_place`.
    pub fn reset(&mut self)
        requires
            old(self).wf(),
        ensures
            final(self).wf(),
            *final(self) == old(self).post_reset(),
    {
        self.top = 0;
    }

    /// Resets the stack to a position saved with `get_marker`. Fails, and
    /// changes nothing, if the marker lies above the current top, since
    /// resetting "up" would un-free memory the caller believes is freed.
    pub fn reset_to(&mut self, marker: Marker) -> (r: Result<(), LinearAllocError>)
        requires
            old(self).wf(),
        ensures
            final(self).wf(),
            r is Ok <==> old(self).reset_to_ok(marker.0 as int),
            *final(self) == old(self).post_reset_to(marker.0 as int),
            r is Err ==> r == Err::<(), LinearAllocError>(LinearAllocError::InvalidMarker),
    {
        if marker.0 <= self.top {
            self.top = marker.0;
            Ok(())
        } else {
            Err(LinearAllocError::InvalidMarker)
        }
    }

    /// Saves the current stack position.
    pub fn get_marker(&self) -> (r: Marker)
        ensures
            r.0 as int == self.top_spec(),
    {
        Marker(self.top)
    }

    /// The number of bytes currently allocated, padding included.
    pub fn bytes_in_use(&self) -> (r: usize)
        ensures
            r as int == self.top_spec(),
    {
        self.top
    }

    /// The length of the backing region. This is the largest number that
    /// `bytes_in_use` can ever return.
    pub fn capacity(&self) -> (r: usize)
        ensures
            r as int == self.cap_spec(),
    {
        self.buf.len()
    }

    /// The most bytes that have been in use by this allocator at any one
    /// time since its creation. Not lowered by `reset` or `reset_to`.
    pub fn high_water_mark(&self) -> (r: usize)
        ensures
            r as int == self.high_spec(),
    {
        self.high
    }

    /// Immutable access to the underlying region.
    pub fn buf(&self) -> (r: &[u8])
        ensures
            r@ == self.buf@,
    {
        self.buf.as_slice()
    }
}

impl Alloc for LinearAlloc {
    /// The top never exceeds the high water mark, which never exceeds the
    /// region's length; and the region is addressable, so its length fits
    /// in `usize`.
    open spec fn wf(&self) -> bool {
        self.top_spec() <= self.high_spec() && self.high_spec() <= self.cap_spec()
            && self.cap_spec() <= usize::MAX as int
    }

    /// A request succeeds when the stack is not full and the aligned
    /// candidate block lies entirely within the region.
    open spec fn alloc_ok(&self, size: int, align: int) -> bool {
        self.top_spec() < self.cap_spec() && align_up(self.top_spec(), align) + size
            <= self.cap_spec()
    }

    /// The candidate start: the current top, rounded up to the alignment.
    open spec fn alloc_offset(&self, size: int, align: int) -> int {
        align_up(self.top_spec(), align)
    }

    open spec fn post_alloc(&self, size: int, align: int) -> Self {
        let new_top = align_up(self.top_spec(), align) + size;
        LinearAlloc {
            buf: self.buf,
            top: new_top as usize,
            high: if self.high_spec() >= new_top {
                self.high
            } else {
                new_top as usize
            },
        }
    }

    /// Only a free of exactly the topmost block retracts the top; any
    /// other free leaves the allocator unchanged.
    open spec fn post_dealloc(&self, offset: int, size: int) -> Self {
        if offset + size == self.top_spec() {
            LinearAlloc { buf: self.buf, top: offset as usize, high: self.high }
        } else {
            *self
        }
    }

    /// Growth in place succeeds exactly when the block is topmost and the
    /// region has room for the growth delta.
    open spec fn grow_ok(&self, offset: int, old_size: int, new_size: int) -> bool {
        offset + old_size == self.top_spec() && new_size - old_size <= self.cap_spec()
            - self.top_spec()
    }

    open spec fn post_grow(&self, offset: int, old_size: int, new_size: int) -> Self {
        let new_top = self.top_spec() + (new_size - old_size);
        LinearAlloc {
            buf: self.buf,
            top: new_top as usize,
            high: if self.high_spec() >= new_top {
                self.high
            } else {
                new_top as usize
            },
        }
    }

    fn allocate(&mut self, size: usize, align: usize) -> (r: Result<usize, Error>) {
        if self.top == self.buf.len() {
            return Err(Error::AllocErr);
        }
        // Round the candidate start offset up to the alignment boundary.
        let rem = self.top % align;
        let pad = if rem == 0 {
            0usize
        } else {
            align - rem
        };
        proof {
            lemma_align_up(self.top as int, align as int);
            assert(self.top + pad == align_up(self.top as int, align as int));
        }
        let start = match self.top.checked_add(pad) {
            Some(s) => s,
            None => {
                return Err(Error::AllocErr);
            },
        };
        if start > self.buf.len() {
            return Err(Error::AllocErr);
        }
        match start.checked_add(size) {
            Some(new_top) => {
                if new_top <= self.buf.len() {
                    self.top = new_top;
                    if self.high < new_top {
                        self.high = new_top;
                    }
                    Ok(start)
                } else {
                    Err(Error::AllocErr)
                }
            },
            None => Err(Error::AllocErr),
        }
    }

    fn dealloc(&mut self, offset: usize, size: usize) {
        // If the block is exactly at the top of the stack, reclaim it.
        // Anything else, and we can't: the bytes stay in use.
        if let Some(end) = offset.checked_add(size) {
            if end == self.top {
                self.top = offset;
            }
        }
    }

    fn grow_in_place(&mut self, offset: usize, old_size: usize, new_size: usize) -> (r: Result<
        (),
        CannotGrow,
    >) {
        // We need this much additional room to grow in place.
        let growth = new_size - old_size;
        if growth > self.buf.len() - self.top {
            return Err(CannotGrow);
        }
        match offset.checked_add(old_size) {
            Some(end) => {
                if end == self.top {
                    // The block is at the top of the stack and the region
                    // has room, so bump the top and call it success.
                    let new_top = self.top + growth;
                    self.top = new_top;
                    if self.high < new_top {
                        self.high = new_top;
                    }
                    Ok(())
                } else {
                    // Not the last block allocated: it cannot grow where
                    // it stands.
                    Err(CannotGrow)
                }
            },
            None => Err(CannotGrow),
        }
    }

    fn shrink_in_place(&mut self, offset: usize, old_size: usize, new_size: usize) -> (r: Result<
        (),
        CannotGrow,
    >) {
        // Shrinking a non-topmost block cannot reclaim space under this
        // design, and shrinking the topmost block is left unsupported.
        Err(CannotGrow)
    }

    fn usable_size(&self, size: usize) -> (r: (usize, usize)) {
        // Allocations are tight and include no excess.
        (size, size)
    }
}

// ----- Laws over operation sequences ----------------------------------------
/// The allocator state after a sequence of allocation requests, each a
/// `(size, align)` pair.
pub open spec fn alloc_run(a: LinearAlloc, reqs: Seq<(usize, usize)>) -> LinearAlloc
    decreases reqs.len(),
{
    if reqs.len() == 0 {
        a
    } else {
        alloc_run(a.post_alloc(reqs[0].0 as int, reqs[0].1 as int), reqs.drop_first())
    }
}

/// Whether every request of the sequence succeeds, each one against the
/// state left behind by those before it.
pub open spec fn allocs_all_ok(a: LinearAlloc, reqs: Seq<(usize, usize)>) -> bool
    decreases reqs.len(),
{
    reqs.len() == 0 || (1 <= reqs[0].1 && a.alloc_ok(reqs[0].0 as int, reqs[0].1 as int)
        && allocs_all_ok(a.post_alloc(reqs[0].0 as int, reqs[0].1 as int), reqs.drop_first()))
}

/// The sum of the requested sizes plus the alignment padding that each
/// request introduced.
pub open spec fn padded_sizes(a: LinearAlloc, reqs: Seq<(usize, usize)>) -> int
    decreases reqs.len(),
{
    if reqs.len() == 0 {
        0
    } else {
        (align_up(a.top_spec(), reqs[0].1 as int) - a.top_spec()) + reqs[0].0 + padded_sizes(
            a.post_alloc(reqs[0].0 as int, reqs[0].1 as int),
            reqs.drop_first(),
        )
    }
}

/// After any sequence of successful allocations, the bytes in use equal
/// the bytes in use before, plus the sum of all allocated sizes and the
/// alignment padding introduced; and they never exceed the capacity.
pub proof fn lemma_allocs_accumulate(a: LinearAlloc, reqs: Seq<(usize, usize)>)
    requires
        a.wf(),
        allocs_all_ok(a, reqs),
    ensures
        alloc_run(a, reqs).wf(),
        alloc_run(a, reqs).top_spec() == a.top_spec() + padded_sizes(a, reqs),
        alloc_run(a, reqs).top_spec() <= a.cap_spec(),
        alloc_run(a, reqs).cap_spec() == a.cap_spec(),
    decreases reqs.len(),
{
    if reqs.len() > 0 {
        let size = reqs[0].0 as int;
        let align = reqs[0].1 as int;
        lemma_align_up(a.top_spec(), align);
        let b = a.post_alloc(size, align);
        assert(b.wf());
        lemma_allocs_accumulate(b, reqs.drop_first());
    }
}

/// One operation on a linear allocator, for laws that quantify over
/// whole operation sequences.
pub enum ArenaOp {
    Alloc { size: int, align: int },
    Dealloc { offset: int, size: int },
    GrowInPlace { offset: int, old_size: int, new_size: int },
    ShrinkInPlace { offset: int, old_size: int, new_size: int },
    Reset,
    ResetTo { mark: int },
}

/// The state an operation leaves behind. Requests that fail leave the
/// allocator unchanged, exactly as the executable methods promise.
pub open spec fn apply_op(a: LinearAlloc, op: ArenaOp) -> LinearAlloc {
    match op {
        ArenaOp::Alloc { size, align } => if 1 <= align && a.alloc_ok(size, align) {
            a.post_alloc(size, align)
        } else {
            a
        },
        ArenaOp::Dealloc { offset, size } => a.post_dealloc(offset, size),
        ArenaOp::GrowInPlace { offset, old_size, new_size } => if a.grow_ok(
            offset,
            old_size,
            new_size,
        ) {
            a.post_grow(offset, old_size, new_size)
        } else {
            a
        },
        ArenaOp::ShrinkInPlace { .. } => a,
        ArenaOp::Reset => a.post_reset(),
        ArenaOp::ResetTo { mark } => a.post_reset_to(mark),
    }
}

/// The state after a whole sequence of operations.
pub open spec fn run_ops(a: LinearAlloc, ops: Seq<ArenaOp>) -> LinearAlloc
    decreases ops.len(),
{
    if ops.len() == 0 {
        a
    } else {
        run_ops(apply_op(a, ops[0]), ops.drop_first())
    }
}

/// The high water mark is non-decreasing across any sequence of
/// operations, including those that free memory; `reset` and `reset_to`
/// never decrease it.
pub proof fn lemma_high_water_mark_monotonic(a: LinearAlloc, ops: Seq<ArenaOp>)
    requires
        a.cap_spec() <= usize::MAX as int,
    ensures
        run_ops(a, ops).high_spec() >= a.high_spec(),
        run_ops(a, ops).cap_spec() == a.cap_spec(),
    decreases ops.len(),
{
    if ops.len() > 0 {
        let b = apply_op(a, ops[0]);
        match ops[0] {
            ArenaOp::Alloc { size, align } => {
                if 1 <= align && a.alloc_ok(size, align) {
                    lemma_align_up(a.top_spec(), align);
                    assert(b.high_spec() >= a.high_spec());
                }
            },
            _ => {},
        }
        assert(b.high_spec() >= a.high_spec());
        lemma_high_water_mark_monotonic(b, ops.drop_first());
    }
}

/// Whether `blocks` records back-to-back allocations starting at `base`:
/// each block begins exactly where the previous one ended, with no
/// alignment padding between them.
pub open spec fn blocks_contiguous(blocks: Seq<(int, int)>, base: int) -> bool
    decreases blocks.len(),
{
    blocks.len() == 0 || (blocks[0].0 == base && 0 <= blocks[0].1 && blocks_contiguous(
        blocks.drop_first(),
        base + blocks[0].1,
    ))
}

/// The offset one past the end of the last of the contiguous blocks.
pub open spec fn blocks_end(blocks: Seq<(int, int)>, base: int) -> int
    decreases blocks.len(),
{
    if blocks.len() == 0 {
        base
    } else {
        blocks_end(blocks.drop_first(), base + blocks[0].1)
    }
}

/// The allocator state after freeing the blocks in reverse (LIFO) order.
pub open spec fn dealloc_reverse(a: LinearAlloc, blocks: Seq<(int, int)>) -> LinearAlloc
    decreases blocks.len(),
{
    if blocks.len() == 0 {
        a
    } else {
        dealloc_reverse(a.post_dealloc(blocks.last().0, blocks.last().1), blocks.drop_last())
    }
}

proof fn lemma_contiguous_parts(blocks: Seq<(int, int)>, base: int)
    requires
        blocks.len() > 0,
        blocks_contiguous(blocks, base),
    ensures
        base <= blocks.last().0,
        0 <= blocks.last().1,
        blocks_end(blocks, base) == blocks.last().0 + blocks.last().1,
        blocks_contiguous(blocks.drop_last(), base),
        blocks_end(blocks.drop_last(), base) == blocks.last().0,
    decreases blocks.len(),
{
    if blocks.len() == 1 {
        assert(blocks.last() == blocks[0]);
        assert(blocks.drop_last() =~= Seq::<(int, int)>::empty());
        assert(blocks.drop_first() =~= Seq::<(int, int)>::empty());
        assert(blocks_end(blocks, base) == blocks_end(blocks.drop_first(), base + blocks[0].1));
    } else {
        let rest = blocks.drop_first();
        let shorter = blocks.drop_last();
        lemma_contiguous_parts(rest, base + blocks[0].1);
        assert(rest.last() == blocks.last());
        assert(rest.drop_last() =~= shorter.drop_first());
        assert(shorter[0] == blocks[0]);
        assert(blocks_end(blocks, base) == blocks_end(rest, base + blocks[0].1));
        assert(blocks_contiguous(rest.drop_last(), base + blocks[0].1));
        assert(blocks_contiguous(shorter.drop_first(), base + shorter[0].1));
        assert(blocks_contiguous(shorter, base));
        assert(blocks_end(shorter, base) == blocks_end(shorter.drop_first(), base + shorter[0].1));
        assert(blocks_end(shorter.drop_first(), base + shorter[0].1) == blocks_end(
            rest.drop_last(),
            base + blocks[0].1,
        ));
    }
}

/// Freeing every recorded allocation in strict reverse (LIFO) order
/// returns the bytes in use to where they started — to zero when the
/// blocks fill the stack from offset zero. The high water mark and the
/// capacity are untouched.
pub proof fn lemma_lifo_frees_restore(a: LinearAlloc, blocks: Seq<(int, int)>, base: int)
    requires
        0 <= base,
        blocks_contiguous(blocks, base),
        a.top_spec() == blocks_end(blocks, base),
    ensures
        dealloc_reverse(a, blocks).top_spec() == base,
        dealloc_reverse(a, blocks).high_spec() == a.high_spec(),
        dealloc_reverse(a, blocks).cap_spec() == a.cap_spec(),
    decreases blocks.len(),
{
    if blocks.len() > 0 {
        lemma_contiguous_parts(blocks, base);
        let o = blocks.last().0;
        let s = blocks.last().1;
        let b = a.post_dealloc(o, s);
        assert(0 <= o <= usize::MAX as int);
        assert(b.top_spec() == o);
        lemma_lifo_frees_restore(b, blocks.drop_last(), base);
    }
}

/// The blocks that a sequence of allocation requests hands out: the
/// offset each request returns, paired with its size.
pub open spec fn blocks_of(a: LinearAlloc, reqs: Seq<(usize, usize)>) -> Seq<(int, int)>
    decreases reqs.len(),
{
    if reqs.len() == 0 {
        Seq::empty()
    } else {
        seq![(a.alloc_offset(reqs[0].0 as int, reqs[0].1 as int), reqs[0].0 as int)] + blocks_of(
            a.post_alloc(reqs[0].0 as int, reqs[0].1 as int),
            reqs.drop_first(),
        )
    }
}

/// Whether no request of the sequence introduces alignment padding:
/// each candidate start is already aligned.
pub open spec fn no_padding(a: LinearAlloc, reqs: Seq<(usize, usize)>) -> bool
    decreases reqs.len(),
{
    reqs.len() == 0 || (align_up(a.top_spec(), reqs[0].1 as int) == a.top_spec() && no_padding(
        a.post_alloc(reqs[0].0 as int, reqs[0].1 as int),
        reqs.drop_first(),
    ))
}

/// Allocations that introduce no padding sit back to back: the blocks
/// they hand out are contiguous from the starting top, and they end
/// exactly at the top the allocations leave behind.
pub proof fn lemma_unpadded_allocs_contiguous(a: LinearAlloc, reqs: Seq<(usize, usize)>)
    requires
        a.wf(),
        allocs_all_ok(a, reqs),
        no_padding(a, reqs),
    ensures
        blocks_contiguous(blocks_of(a, reqs), a.top_spec()),
        blocks_end(blocks_of(a, reqs), a.top_spec()) == alloc_run(a, reqs).top_spec(),
    decreases reqs.len(),
{
    if reqs.len() > 0 {
        let size = reqs[0].0 as int;
        let align = reqs[0].1 as int;
        let b = a.post_alloc(size, align);
        assert(b.top_spec() == a.top_spec() + size);
        assert(b.wf());
        lemma_unpadded_allocs_contiguous(b, reqs.drop_first());
        let head = (a.alloc_offset(size, align), size);
        let tail = blocks_of(b, reqs.drop_first());
        assert((seq![head] + tail).drop_first() =~= tail);
        assert((seq![head] + tail)[0] == head);
    }
}

/// The stack discipline, end to end: run any sequence of successful,
/// padding-free allocations, then free every block they handed out in
/// strict reverse (LIFO) order, and the bytes in use return exactly to
/// where they started — to zero on a fresh arena.
pub proof fn lemma_lifo_discipline(a: LinearAlloc, reqs: Seq<(usize, usize)>)
    requires
        a.wf(),
        allocs_all_ok(a, reqs),
        no_padding(a, reqs),
    ensures
        dealloc_reverse(alloc_run(a, reqs), blocks_of(a, reqs)).top_spec() == a.top_spec(),
        dealloc_reverse(alloc_run(a, reqs), blocks_of(a, reqs)).high_spec() == alloc_run(
            a,
            reqs,
        ).high_spec(),
{
    lemma_allocs_accumulate(a, reqs);
    lemma_unpadded_allocs_contiguous(a, reqs);
    lemma_lifo_frees_restore(alloc_run(a, reqs), blocks_of(a, reqs), a.top_spec());
}

/// Freeing any block other than the topmost one is a deliberate no-op:
/// the bytes stay in use until a reset.
pub proof fn lemma_non_topmost_free_is_noop(a: LinearAlloc, offset: int, size: int)
    requires
        offset + size != a.top_spec(),
    ensures
        a.post_dealloc(offset, size) == a,
{
}

} // verus!
