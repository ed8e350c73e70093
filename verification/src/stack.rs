//! A stack that grows downward, kept as the address of its top.
//!
//! The stack computes where values go; it does not read or write them.
//! Pushing makes room and says where the value belongs, popping says where the
//! top value lies and gives its room back.

use core::marker::PhantomData;
use vstd::prelude::*;

use crate::layout::{is_power_of_two, lemma_aligned_is_multiple, lemma_power_of_two};

verus! {

/// The alignment the calling convention asks of a stack pointer on the
/// architectures this system runs on.
pub const MIN_STACK_ALIGN: usize = 16;

/// A downward-growing stack of values of type `T`.
pub struct DownwardStack<T> {
    sp: usize,
    _marker: PhantomData<T>,
}

/// The size of a `T` in bytes.
pub open spec fn slot_size<T>() -> int {
    vstd::layout::size_of::<T>() as int
}

/// The alignment a stack of `T` starts at: that of `T`, but no less than
/// `min_align`.
pub open spec fn stack_align<T>(min_align: usize) -> usize {
    if vstd::layout::align_of::<T>() as usize >= min_align {
        vstd::layout::align_of::<T>() as usize
    } else {
        min_align
    }
}

impl<T> View for DownwardStack<T> {
    type V = usize;

    /// The stack pointer.
    closed spec fn view(&self) -> usize {
        self.sp
    }
}

impl<T> DownwardStack<T> {
    /// A stack whose top is `initial_sp` rounded down to a multiple of the
    /// stack's alignment: that of `T`, but no less than 16 bytes.
    pub fn new(initial_sp: usize) -> (stack: Self)
        ensures
            stack@ == initial_sp & !((stack_align::<T>(MIN_STACK_ALIGN) - 1) as usize),
            stack@ % stack_align::<T>(MIN_STACK_ALIGN) == 0,
            stack@ % 16 == 0,
            stack@ <= initial_sp < stack@ + stack_align::<T>(MIN_STACK_ALIGN),
    {
        assert(16usize & 15usize == 0) by (bit_vector);
        let stack = Self::with_min_align(initial_sp, MIN_STACK_ALIGN);
        proof {
            lemma_multiple_of_sixteen(stack.sp, stack_align::<T>(MIN_STACK_ALIGN));
        }
        stack
    }

    /// A stack whose top is `initial_sp` with the bits below the stack's
    /// alignment cleared. The alignment is that of `T` or `min_align`,
    /// whichever is larger; if `min_align` is a power of two, the top is the
    /// multiple of the alignment next below `initial_sp`.
    pub fn with_min_align(initial_sp: usize, min_align: usize) -> (stack: Self)
        requires
            min_align > 0,
        ensures
            stack@ == initial_sp & !((stack_align::<T>(min_align) - 1) as usize),
            stack@ <= initial_sp,
            is_power_of_two(min_align) ==> is_power_of_two(stack_align::<T>(min_align))
                && stack@ % stack_align::<T>(min_align) == 0 && initial_sp < stack@
                + stack_align::<T>(min_align),
    {
        let own = core::mem::align_of::<T>();
        let align = if own >= min_align {
            own
        } else {
            min_align
        };
        let mask = align - 1;
        let top = initial_sp & !mask;
        assert(top <= initial_sp) by (bit_vector)
            requires
                top == initial_sp & !mask,
        ;
        proof {
            broadcast use vstd::layout::align_properties;

            lemma_power_of_two(own);
            if is_power_of_two(min_align) {
                assert(top & mask == 0 && initial_sp - top <= mask) by (bit_vector)
                    requires
                        top == initial_sp & !mask,
                ;
                lemma_aligned_is_multiple(top, align);
            }
        }
        DownwardStack { sp: top, _marker: PhantomData }
    }

    /// Makes room for one value on top of the stack and returns the address
    /// the value belongs at, which is the new stack pointer.
    pub fn push(&mut self) -> (addr: usize)
        requires
            old(self)@ >= slot_size::<T>(),
        ensures
            final(self)@ == old(self)@ - slot_size::<T>(),
            addr == final(self)@,
    {
        self.sp -= core::mem::size_of::<T>();
        self.sp
    }

    /// Gives back the room of the top value and returns the address the
    /// value lies at, which is the old stack pointer.
    pub fn pop(&mut self) -> (addr: usize)
        requires
            old(self)@ + slot_size::<T>() <= usize::MAX,
        ensures
            final(self)@ == old(self)@ + slot_size::<T>(),
            addr == old(self)@,
    {
        let addr = self.sp;
        self.sp += core::mem::size_of::<T>();
        addr
    }

    /// The address of the value `offset` slots above the top of the stack,
    /// or below it for a negative offset.
    pub fn addr_at(&self, offset: isize) -> (addr: usize)
        requires
            0 <= self@ + offset * slot_size::<T>() <= usize::MAX,
        ensures
            addr == self@ + offset * slot_size::<T>(),
    {
        let size = core::mem::size_of::<T>();
        if offset >= 0 {
            let up = offset as usize;
            assert(up * size == offset * slot_size::<T>()) by (nonlinear_arith)
                requires
                    up == offset,
                    size == slot_size::<T>(),
            ;
            self.sp + up * size
        } else {
            let down = (-(offset + 1)) as usize + 1;
            assert(down * size == -(offset * slot_size::<T>())) by (nonlinear_arith)
                requires
                    down == -offset,
                    size == slot_size::<T>(),
            ;
            self.sp - down * size
        }
    }

    /// The stack pointer.
    pub fn sp(&self) -> (sp: usize)
        ensures
            sp == self@,
    {
        self.sp
    }
}

/// A multiple of a power of two that is at least 16 is a multiple of 16.
proof fn lemma_multiple_of_sixteen(addr: usize, align: usize)
    requires
        is_power_of_two(align),
        align >= 16,
        addr % align == 0,
    ensures
        addr % 16 == 0,
{
    lemma_aligned_is_multiple(addr, align);
    assert(addr & 15 == 0) by (bit_vector)
        requires
            align >= 16,
            align & ((align - 1) as usize) == 0,
            addr & ((align - 1) as usize) == 0,
    ;
    assert(addr % 16 == 0) by (bit_vector)
        requires
            addr & 15 == 0,
    ;
}

} // verus!
