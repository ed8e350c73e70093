//! The memory syscalls: `brk`, `mmap`, `munmap` and `mprotect`.
//!
//! Only private anonymous mappings are served, straight from the kernel
//! heap, in whole pages.

use vstd::prelude::*;

use crate::errno::Errno;
use crate::layout::{check_layout, valid_layout};

verus! {

/// The size of a page in bytes.
pub const PAGE_SIZE: usize = 4096;

/// The protection bits a mapping may ask for: none, read and write.
pub open spec fn allowed_prot() -> usize {
    3
}

/// The flag of a private mapping.
pub open spec fn map_private() -> usize {
    0x2
}

/// The flag of an anonymous mapping.
pub open spec fn map_anonymous() -> usize {
    0x20
}

/// The flags a mapping may carry: private, anonymous and stack.
pub open spec fn allowed_flags() -> usize {
    0x20022
}

/// `len` rounded up to whole pages.
pub open spec fn page_round(len: usize) -> int {
    (len / PAGE_SIZE + if len % PAGE_SIZE == 0 {
        0int
    } else {
        1int
    }) * PAGE_SIZE
}

/// Whether the arguments of an `mmap` describe a mapping this layer serves:
/// a private anonymous mapping of at least one byte, with no other
/// protection or flag bits than the allowed ones, placed by the kernel, and
/// backed by no file.
pub open spec fn mmap_served(
    addr: usize,
    len: usize,
    prot: usize,
    flags: usize,
    fd: usize,
    offset: usize,
) -> bool {
    &&& len != 0
    &&& prot & !allowed_prot() == 0
    &&& flags & !allowed_flags() == 0
    &&& flags & map_private() != 0
    &&& flags & map_anonymous() != 0
    &&& addr == 0
    &&& offset == 0
    &&& (fd == usize::MAX || fd == 0)
}

/// `libc::PROT_NONE`, which is 0 on every Linux target.
#[verifier::external_body]
fn prot_none() -> (bits: usize)
    ensures
        bits == 0,
{
    libc::PROT_NONE as usize
}

/// `libc::PROT_READ`, which is 1 on every Linux target.
#[verifier::external_body]
fn prot_read() -> (bits: usize)
    ensures
        bits == 1,
{
    libc::PROT_READ as usize
}

/// `libc::PROT_WRITE`, which is 2 on every Linux target.
#[verifier::external_body]
fn prot_write() -> (bits: usize)
    ensures
        bits == 2,
{
    libc::PROT_WRITE as usize
}

/// The protection bits a mapping may ask for.
fn prot_mask() -> (mask: usize)
    ensures
        mask == allowed_prot(),
{
    assert(0usize | 1usize | 2usize == 3usize) by (bit_vector);
    prot_none() | prot_read() | prot_write()
}

/// `libc::MAP_PRIVATE`, which is 2 on every Linux target.
#[verifier::external_body]
fn map_private_flag() -> (flag: usize)
    ensures
        flag == 0x2,
{
    libc::MAP_PRIVATE as usize
}

/// `libc::MAP_ANONYMOUS`, which is 0x20 on x86, Arm and RISC-V.
#[verifier::external_body]
fn map_anonymous_flag() -> (flag: usize)
    ensures
        flag == 0x20,
{
    libc::MAP_ANONYMOUS as usize
}

/// `libc::MAP_STACK`, which is 0x20000 on x86, Arm and RISC-V.
#[verifier::external_body]
fn map_stack_flag() -> (flag: usize)
    ensures
        flag == 0x20000,
{
    libc::MAP_STACK as usize
}

/// The number of bytes to allocate for `len` bytes in whole pages, or the
/// invalid-argument error if that many bytes cannot be described as one
/// page-aligned block.
fn page_block(len: usize) -> (size: Result<usize, Errno>)
    ensures
        match size {
            Ok(bytes) => bytes == page_round(len) && valid_layout(bytes, PAGE_SIZE),
            Err(e) => e == Errno::Inval && (page_round(len) > usize::MAX || !valid_layout(
                page_round(len) as usize,
                PAGE_SIZE,
            )),
        },
{
    let pages = if len % PAGE_SIZE == 0 {
        len / PAGE_SIZE
    } else {
        len / PAGE_SIZE + 1
    };
    let size = match pages.checked_mul(PAGE_SIZE) {
        Some(size) => size,
        None => {
            return Err(Errno::Inval);
        },
    };
    if !check_layout(size, PAGE_SIZE) {
        return Err(Errno::Inval);
    }
    Ok(size)
}

/// `brk` is not served: the heap cannot be grown this way.
pub fn sys_brk(_brk: usize) -> (ret: isize)
    ensures
        ret == Errno::NoMem.neg(),
{
    Errno::NoMem.to_ret()
}

/// Checks the arguments of an `mmap` and gives the number of bytes to
/// allocate, page-aligned: `len` rounded up to whole pages. Arguments that
/// describe no mapping this layer serves, or a size that cannot be described
/// as one block, give the invalid-argument error.
pub fn mmap_size(
    addr: usize,
    len: usize,
    prot: usize,
    flags: usize,
    fd: usize,
    offset: usize,
) -> (size: Result<usize, Errno>)
    ensures
        size is Ok <==> mmap_served(addr, len, prot, flags, fd, offset) && page_round(len)
            <= usize::MAX && valid_layout(page_round(len) as usize, PAGE_SIZE),
        size is Ok ==> size.unwrap() == page_round(len),
        size is Err ==> size == Err::<usize, Errno>(Errno::Inval),
{
    if len == 0 {
        return Err(Errno::Inval);
    }
    let allowed_prot = prot_mask();
    if (prot & !allowed_prot) != 0 {
        return Err(Errno::Inval);
    }
    let private = map_private_flag();
    let anonymous = map_anonymous_flag();
    let allowed_flags = private | anonymous | map_stack_flag();
    assert(0x2usize | 0x20usize | 0x20000usize == 0x20022usize) by (bit_vector);
    if (flags & !allowed_flags) != 0 {
        return Err(Errno::Inval);
    }
    if (flags & private) == 0 || (flags & anonymous) == 0 {
        return Err(Errno::Inval);
    }
    if addr != 0 || offset != 0 {
        return Err(Errno::Inval);
    }
    if fd != usize::MAX && fd != 0 {
        return Err(Errno::Inval);
    }
    page_block(len)
}

/// The return value of an `mmap` whose block was allocated at `ptr`: the
/// address, or the out-of-memory error for a null `ptr`.
pub fn mmap_return(ptr: usize) -> (ret: isize)
    ensures
        ret == if ptr == 0 {
            Errno::NoMem.neg() as isize
        } else {
            ptr as isize
        },
{
    if ptr == 0 {
        return Errno::NoMem.to_ret();
    }
    ptr as isize
}

/// Whether `addr` and `len` name a range of pages: neither is zero and
/// `addr` lies on a page boundary.
pub open spec fn page_range(addr: usize, len: usize) -> bool {
    addr != 0 && len != 0 && addr % PAGE_SIZE == 0
}

/// Checks the arguments of a `munmap` and gives the number of bytes to
/// free at `addr`: `len` rounded up to whole pages. A null or unaligned
/// address, a zero length, or a size that cannot be described as one block
/// give the invalid-argument error.
pub fn munmap_size(addr: usize, len: usize) -> (size: Result<usize, Errno>)
    ensures
        size is Ok <==> page_range(addr, len) && page_round(len) <= usize::MAX && valid_layout(
            page_round(len) as usize,
            PAGE_SIZE,
        ),
        size is Ok ==> size.unwrap() == page_round(len),
        size is Err ==> size == Err::<usize, Errno>(Errno::Inval),
{
    if addr == 0 || len == 0 {
        return Err(Errno::Inval);
    }
    if addr % PAGE_SIZE != 0 {
        return Err(Errno::Inval);
    }
    page_block(len)
}

/// `mprotect` changes nothing, since every page is readable and writable,
/// but it checks its arguments: zero for a range of pages and protection
/// bits among the allowed ones, else the invalid-argument error.
pub fn sys_mprotect(addr: usize, len: usize, prot: usize) -> (ret: isize)
    ensures
        ret == if page_range(addr, len) && prot & !allowed_prot() == 0 {
            0
        } else {
            Errno::Inval.neg()
        },
{
    if addr == 0 || len == 0 {
        return Errno::Inval.to_ret();
    }
    if addr % PAGE_SIZE != 0 {
        return Errno::Inval.to_ret();
    }
    let allowed_prot = prot_mask();
    if (prot & !allowed_prot) != 0 {
        return Errno::Inval.to_ret();
    }
    0
}

} // verus!
