//! Sizes and alignments of memory blocks.

use vstd::arithmetic::power2::is_pow2;
use vstd::prelude::*;

verus! {

/// A nonzero word with a single bit set.
pub open spec fn is_power_of_two(align: usize) -> bool {
    align != 0 && align & ((align - 1) as usize) == 0
}

/// Whether `addr` is a multiple of the power of two `align`: none of the bits
/// below the alignment's single bit is set.
pub open spec fn is_aligned(addr: usize, align: usize) -> bool {
    addr & ((align - 1) as usize) == 0
}

/// Whether a block of `size` bytes aligned to `align` can be described at
/// all: the alignment is a power of two, and the size, rounded up to it, does
/// not exceed the largest signed word.
pub open spec fn valid_layout(size: usize, align: usize) -> bool {
    is_power_of_two(align) && size <= isize::MAX - (align - 1)
}

/// Checks that a block of `size` bytes aligned to `align` can be described.
pub fn check_layout(size: usize, align: usize) -> (ok: bool)
    ensures
        ok == valid_layout(size, align),
{
    if align == 0 {
        return false;
    }
    let limit = isize::MAX as usize;
    (align & (align - 1)) == 0 && size <= limit && align - 1 <= limit - size
}

/// For a power of two, the bit test and the division agree: an address has
/// none of the bits below the alignment set exactly when the alignment
/// divides it.
pub proof fn lemma_aligned_is_multiple(addr: usize, align: usize)
    requires
        is_power_of_two(align),
    ensures
        is_aligned(addr, align) <==> addr % align == 0,
    decreases align,
{
    if align > 1 {
        let half = align / 2;
        let rest = addr / 2;
        assert(align % 2 == 0 && half != 0 && half & ((half - 1) as usize) == 0) by (bit_vector)
            requires
                align > 1,
                align & ((align - 1) as usize) == 0,
                half == align / 2,
        ;
        lemma_aligned_is_multiple(rest, half);
        if is_aligned(addr, align) {
            assert(addr % 2 == 0 && rest & ((half - 1) as usize) == 0) by (bit_vector)
                requires
                    align > 1,
                    align & ((align - 1) as usize) == 0,
                    addr & ((align - 1) as usize) == 0,
                    half == align / 2,
                    rest == addr / 2,
            ;
            let k = rest as int / half as int;
            vstd::arithmetic::div_mod::lemma_fundamental_div_mod(rest as int, half as int);
            assert(addr as int == k * align + 0) by (nonlinear_arith)
                requires
                    rest as int == half * k,
                    addr as int == 2 * rest,
                    align as int == 2 * half,
            ;
            vstd::arithmetic::div_mod::lemma_fundamental_div_mod_converse(
                addr as int,
                align as int,
                k,
                0,
            );
        }
        if addr % align == 0 {
            let k = addr as int / align as int;
            vstd::arithmetic::div_mod::lemma_fundamental_div_mod(addr as int, align as int);
            assert(addr as int == 2 * (half * k) && rest as int == k * half + 0) by (nonlinear_arith)
                requires
                    addr as int == align * k,
                    align as int == 2 * half,
                    rest as int == addr as int / 2,
            ;
            vstd::arithmetic::div_mod::lemma_fundamental_div_mod_converse(
                rest as int,
                half as int,
                k,
                0,
            );
            assert(addr & ((align - 1) as usize) == 0) by (bit_vector)
                requires
                    align > 1,
                    align & ((align - 1) as usize) == 0,
                    addr % 2 == 0,
                    half == align / 2,
                    rest == addr / 2,
                    rest & ((half - 1) as usize) == 0,
            ;
        }
    } else {
        assert(addr & 0 == 0) by (bit_vector);
    }
}

/// The words with a single bit set are the powers of two.
pub proof fn lemma_power_of_two(align: usize)
    ensures
        is_power_of_two(align) <==> is_pow2(align as int),
    decreases align,
{
    reveal(is_pow2);
    if align > 1 {
        let half = align / 2;
        lemma_power_of_two(half);
        if is_power_of_two(align) {
            assert(align % 2 == 0 && half != 0 && half & ((half - 1) as usize) == 0)
                by (bit_vector)
                requires
                    align > 1,
                    align & ((align - 1) as usize) == 0,
                    half == align / 2,
            ;
        }
        if is_pow2(align as int) {
            assert(align & ((align - 1) as usize) == 0) by (bit_vector)
                requires
                    align % 2 == 0,
                    half == align / 2,
                    half != 0,
                    half & ((half - 1) as usize) == 0,
            ;
        }
    } else if align == 1 {
        assert(1usize & 0usize == 0) by (bit_vector);
    }
}

} // verus!
