//! The argument checks of the Linux syscall handlers.
//!
//! A handler that ends in a device or in the allocator is split in two. The
//! part here looks at the arguments and either answers the call at once or
//! says what is to be done; the caller does it and reports back.

use vstd::prelude::*;

use crate::errno::Errno;

pub mod memory;
pub mod random;
pub mod thread;
pub mod vfs;

verus! {

/// What a handler decides from its arguments alone.
#[derive(Clone, Copy, Debug, PartialEq, Eq, Structural)]
pub enum Precheck {
    /// The call is answered: this is its return value.
    Done(isize),
    /// The arguments are in order: go on to the device.
    Proceed,
}

/// The check of a transfer of `count` bytes at `buf`: an empty transfer is
/// answered with zero, a null buffer with the bad-address error.
pub open spec fn buffer_checked(buf: usize, count: usize) -> Precheck {
    if count == 0 {
        Precheck::Done(0)
    } else if buf == 0 {
        Precheck::Done(Errno::Fault.neg() as isize)
    } else {
        Precheck::Proceed
    }
}

/// Checks the buffer of a transfer of `count` bytes at `buf`.
pub fn check_buffer(buf: usize, count: usize) -> (check: Precheck)
    ensures
        check == buffer_checked(buf, count),
{
    if count == 0 {
        return Precheck::Done(0);
    }
    if buf == 0 {
        return Precheck::Done(Errno::Fault.to_ret());
    }
    Precheck::Proceed
}

/// Checks a pointer argument that must not be null: a null pointer is
/// answered with the bad-address error.
pub fn check_pointer(ptr: usize) -> (check: Precheck)
    ensures
        check == if ptr == 0 {
            Precheck::Done(Errno::Fault.neg() as isize)
        } else {
            Precheck::Proceed
        },
{
    if ptr == 0 {
        return Precheck::Done(Errno::Fault.to_ret());
    }
    Precheck::Proceed
}

/// The answer to a syscall this layer does not implement: the negated
/// not-implemented error.
pub fn sys_unsupported() -> (ret: isize)
    ensures
        ret == Errno::NoSys.neg(),
{
    Errno::NoSys.to_ret()
}

} // verus!
