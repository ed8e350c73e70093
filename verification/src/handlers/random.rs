//! The `getrandom` syscall and the random device.

use vstd::prelude::*;

use crate::errno::Errno;
use crate::handlers::{buffer_checked, check_buffer, Precheck};

verus! {

/// Checks the arguments of a `getrandom`: an empty request is answered with
/// zero, a null buffer with the bad-address error. Otherwise the caller fills
/// `buflen` bytes at `buf` and returns what the generator reports.
pub fn sys_getrandom(buf: usize, buflen: usize, _flags: usize) -> (check: Precheck)
    ensures
        check == buffer_checked(buf, buflen),
{
    check_buffer(buf, buflen)
}

/// Checks a read of `count` bytes from the random device into `buf`: only a
/// null buffer for a read of at least one byte is refused, with the
/// bad-address error.
pub fn urandom_read(buf: usize, count: usize) -> (check: Precheck)
    ensures
        check == if count != 0 && buf == 0 {
            Precheck::Done(Errno::Fault.neg() as isize)
        } else {
            Precheck::Proceed
        },
{
    if count != 0 && buf == 0 {
        return Precheck::Done(Errno::Fault.to_ret());
    }
    Precheck::Proceed
}

/// The random device cannot be written: the bad-descriptor error.
pub fn urandom_write() -> (ret: isize)
    ensures
        ret == Errno::BadFd.neg(),
{
    Errno::BadFd.to_ret()
}

/// Closing the random device always succeeds.
pub fn urandom_close() -> (ret: isize)
    ensures
        ret == 0,
{
    0
}

/// The random device cannot seek: the illegal-seek error.
pub fn urandom_seek() -> (ret: isize)
    ensures
        ret == Errno::IllegalSeek.neg(),
{
    Errno::IllegalSeek.to_ret()
}

/// The random device takes no device requests: the not-a-terminal error.
pub fn urandom_ioctl() -> (ret: isize)
    ensures
        ret == Errno::NoTty.neg(),
{
    Errno::NoTty.to_ret()
}

} // verus!
