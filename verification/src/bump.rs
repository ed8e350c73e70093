//! A bump allocator over one contiguous heap.
//!
//! The allocator hands out addresses in increasing order and never takes any
//! back: freeing is a no-op, and the heap is gone when its end is reached.
//! It works on addresses alone and never touches the memory it hands out.

use vstd::prelude::*;

use crate::layout::{
    check_layout, is_aligned, is_power_of_two, lemma_aligned_is_multiple, valid_layout,
};

verus! {

/// `value` rounded up to the alignment `align`: nothing for a zero
/// alignment or when the rounding leaves the address space.
pub open spec fn aligned_up(value: usize, align: usize) -> Option<usize> {
    if align == 0 || value + (align - 1) > usize::MAX {
        None
    } else {
        Some(((value + (align - 1)) as usize) & !((align - 1) as usize))
    }
}

/// For a power-of-two alignment, rounding up gives the least aligned address
/// that is not below the value.
pub proof fn lemma_aligned_up(value: usize, align: usize)
    requires
        is_power_of_two(align),
        value + (align - 1) <= usize::MAX,
    ensures
        aligned_up(value, align) is Some,
        is_aligned(aligned_up(value, align).unwrap(), align),
        aligned_up(value, align).unwrap() % align == 0,
        value <= aligned_up(value, align).unwrap() < value + align,
        forall|other: usize|
            value <= other && #[trigger] is_aligned(other, align) ==> aligned_up(
                value,
                align,
            ).unwrap() <= other,
{
    let mask = (align - 1) as usize;
    let top = (value + mask) as usize;
    assert((top & !mask) & mask == 0 && value <= (top & !mask) && (top & !mask) - value < align)
        by (bit_vector)
        requires
            align != 0,
            align & mask == 0,
            mask == align - 1,
            top == value + mask,
            top >= value,
    ;
    lemma_aligned_is_multiple((top & !mask) as usize, align);
    assert forall|other: usize| value <= other && is_aligned(other, align) implies (top & !mask)
        <= other by {
        assert((top & !mask) <= other) by (bit_vector)
            requires
                align != 0,
                align & mask == 0,
                mask == align - 1,
                top == value + mask,
                top >= value,
                value <= other,
                other & mask == 0,
        ;
    }
}

/// Rounds `value` up to the alignment `align`, which should be a power of
/// two. Gives nothing for a zero alignment or when the result would not fit in
/// a word.
pub fn align_up(value: usize, align: usize) -> (aligned: Option<usize>)
    ensures
        aligned == aligned_up(value, align),
        is_power_of_two(align) && aligned is Some ==> aligned.unwrap() % align == 0 && value
            <= aligned.unwrap() < value + align,
{
    if align == 0 {
        return None;
    }
    proof {
        if is_power_of_two(align) && value + (align - 1) <= usize::MAX {
            lemma_aligned_up(value, align);
        }
    }
    match value.checked_add(align - 1) {
        Some(v) => Some(v & !(align - 1)),
        None => None,
    }
}

/// The address just past a block of `size` bytes at `start`, held at the top
/// of the address space if the block would run past it.
pub open spec fn block_end(start: usize, size: usize) -> usize {
    if start + size > usize::MAX {
        usize::MAX
    } else {
        (start + size) as usize
    }
}

/// The allocator's state: the next free address and the end of the heap.
pub struct BumpAllocator {
    next: usize,
    end: usize,
}

/// What a reallocation asks of its caller.
#[derive(Clone, Copy, Debug, PartialEq, Eq, Structural)]
pub struct Reallocation {
    /// The address of the new block; zero if there is none.
    pub ptr: usize,
    /// The number of bytes to copy from the old block to the new one.
    pub copy_len: usize,
}

impl BumpAllocator {
    /// The next free address.
    pub closed spec fn next(&self) -> usize {
        self.next
    }

    /// The end of the heap.
    pub closed spec fn end(&self) -> usize {
        self.end
    }

    /// Where a block of `size` bytes aligned to `align` lands: at the next
    /// free address rounded up to the alignment, if the block ends within the
    /// heap.
    pub open spec fn placement(&self, size: usize, align: usize) -> Option<usize> {
        match aligned_up(self.next(), align) {
            Some(start) => if block_end(start, size) <= self.end() {
                Some(start)
            } else {
                None
            },
            None => None,
        }
    }

    /// An allocator without a heap: every allocation of a positive size
    /// fails until `init` is called.
    pub fn new() -> (a: Self)
        ensures
            a.next() == 0,
            a.end() == 0,
    {
        BumpAllocator { next: 0, end: 0 }
    }

    /// Gives the allocator the heap of `heap_size` bytes at `heap_start`. A
    /// heap that would run past the end of the address space is taken as
    /// empty.
    pub fn init(&mut self, heap_start: usize, heap_size: usize)
        ensures
            final(self).next() == heap_start,
            final(self).end() == if heap_start + heap_size <= usize::MAX {
                (heap_start + heap_size) as usize
            } else {
                heap_start
            },
    {
        self.next = heap_start;
        self.end = match heap_start.checked_add(heap_size) {
            Some(end) => end,
            None => heap_start,
        };
    }

    /// Allocates `size` bytes aligned to `align` and returns the block's
    /// address, or zero if the block does not fit in what is left of the heap.
    /// A failed allocation changes nothing. A block lies at or above every
    /// address handed out before, inside the heap, and the next block starts
    /// at its end.
    pub fn allocate(&mut self, size: usize, align: usize) -> (ptr: usize)
        ensures
            final(self).end() == old(self).end(),
            match old(self).placement(size, align) {
                Some(start) => ptr == start && final(self).next() == block_end(start, size),
                None => ptr == 0 && final(self).next() == old(self).next(),
            },
            old(self).placement(size, align) is Some ==> old(self).next() <= ptr
                && final(self).next() <= old(self).end(),
            old(self).placement(size, align) is Some && old(self).end() < usize::MAX ==> ptr
                + size <= old(self).end(),
            old(self).placement(size, align) is Some && is_power_of_two(align) ==> ptr % align
                == 0 && ptr < old(self).next() + align,
    {
        let current = self.next;
        let aligned = match align_up(current, align) {
            Some(aligned) => aligned,
            None => {
                return 0;
            },
        };
        proof {
            let mask = (align - 1) as usize;
            let top = (current + mask) as usize;
            assert(top & !mask >= top - mask) by (bit_vector)
                requires
                    top >= mask,
            ;
        }
        let new_next = aligned.saturating_add(size);
        if new_next > self.end {
            return 0;
        }
        self.next = new_next;
        aligned
    }

    /// Gives back what lies between the next free address and the end of the
    /// heap: it moves the next free address down to the end of the heap if it
    /// has passed it, and leaves it alone otherwise.
    pub fn reset(&mut self)
        ensures
            final(self).end() == old(self).end(),
            final(self).next() == if old(self).next() <= old(self).end() {
                old(self).next()
            } else {
                old(self).end()
            },
    {
        let end = self.end;
        let capacity = self.get_capacity();
        let start = end.saturating_sub(capacity);
        self.next = start;
    }

    /// The number of bytes left in the heap.
    pub fn get_capacity(&self) -> (capacity: usize)
        ensures
            capacity == if self.next() <= self.end() {
                self.end() - self.next()
            } else {
                0
            },
    {
        let end = self.end;
        let next = self.next;
        end.saturating_sub(next)
    }
}

/// Gives `allocator` the heap of `heap_size` bytes at `heap_start`.
pub fn init(allocator: &mut BumpAllocator, heap_start: usize, heap_size: usize)
    ensures
        final(allocator).next() == heap_start,
        final(allocator).end() == if heap_start + heap_size <= usize::MAX {
            (heap_start + heap_size) as usize
        } else {
            heap_start
        },
{
    allocator.init(heap_start, heap_size);
}

/// Allocates `size` bytes aligned to `align` from `allocator`; zero on
/// failure.
pub fn allocate(allocator: &mut BumpAllocator, size: usize, align: usize) -> (ptr: usize)
    ensures
        final(allocator).end() == old(allocator).end(),
        match old(allocator).placement(size, align) {
            Some(start) => ptr == start && final(allocator).next() == block_end(start, size),
            None => ptr == 0 && final(allocator).next() == old(allocator).next(),
        },
{
    allocator.allocate(size, align)
}

/// Frees a block. A bump allocator takes nothing back, so nothing changes.
pub fn dealloc(allocator: &mut BumpAllocator, _ptr: usize, _size: usize, _align: usize)
    ensures
        final(allocator).next() == old(allocator).next(),
        final(allocator).end() == old(allocator).end(),
{
}

/// Whether a reallocation tries to allocate: it does unless it shrinks a
/// block to nothing or asks for a size that cannot be described.
pub open spec fn reallocates(ptr: usize, align: usize, new_size: usize) -> bool {
    !(ptr != 0 && new_size == 0) && valid_layout(new_size, align)
}

/// What a reallocation of the block at `ptr` to `new_size` bytes comes to.
pub open spec fn reallocated(
    a: &BumpAllocator,
    ptr: usize,
    old_size: usize,
    align: usize,
    new_size: usize,
) -> Reallocation {
    if reallocates(ptr, align, new_size) && a.placement(new_size, align) is Some {
        let start = a.placement(new_size, align).unwrap();
        Reallocation {
            ptr: start,
            copy_len: if ptr == 0 || start == 0 {
                0
            } else if old_size <= new_size {
                old_size
            } else {
                new_size
            },
        }
    } else {
        Reallocation { ptr: 0, copy_len: 0 }
    }
}

/// Moves the block of `old_size` bytes at `ptr`, aligned to `old_align`, to a
/// new block of `new_size` bytes with the same alignment.
///
/// A null `ptr` makes this a plain allocation. A zero `new_size`, or a size
/// that cannot be described with the alignment, yields no block and leaves the
/// allocator alone. Otherwise a new block is allocated and the caller is asked
/// to copy the smaller of the two sizes into it. The old block is never
/// reused.
pub fn realloc(
    allocator: &mut BumpAllocator,
    ptr: usize,
    old_size: usize,
    old_align: usize,
    new_size: usize,
) -> (moved: Reallocation)
    ensures
        moved == reallocated(old(allocator), ptr, old_size, old_align, new_size),
        final(allocator).end() == old(allocator).end(),
        final(allocator).next() == if reallocates(ptr, old_align, new_size)
            && old(allocator).placement(new_size, old_align) is Some {
            block_end(old(allocator).placement(new_size, old_align).unwrap(), new_size)
        } else {
            old(allocator).next()
        },
{
    if ptr == 0 {
        if !check_layout(new_size, old_align) {
            return Reallocation { ptr: 0, copy_len: 0 };
        }
        return Reallocation { ptr: allocate(allocator, new_size, old_align), copy_len: 0 };
    }
    if new_size == 0 {
        return Reallocation { ptr: 0, copy_len: 0 };
    }
    if !check_layout(new_size, old_align) {
        return Reallocation { ptr: 0, copy_len: 0 };
    }
    let new_ptr = allocate(allocator, new_size, old_align);
    let copy_len = if new_ptr != 0 {
        if old_size <= new_size {
            old_size
        } else {
            new_size
        }
    } else {
        0
    };
    Reallocation { ptr: new_ptr, copy_len }
}

} // verus!
