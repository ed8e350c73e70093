//! The file syscalls.
//!
//! The files themselves live behind the virtual file system. What is decided
//! here is which calls reach it, and how the results of a vectored transfer
//! add up.

use vstd::prelude::*;

use crate::errno::Errno;
use crate::handlers::Precheck;

verus! {

/// One buffer of a vectored transfer.
#[derive(Clone, Copy, Debug, PartialEq, Eq, Structural)]
pub struct IoVec {
    pub iov_base: usize,
    pub iov_len: usize,
}

/// The largest number of buffers a vectored transfer may name.
pub open spec fn max_iovecs() -> usize {
    1024
}

/// `libc::UIO_MAXIOV`, which is 1024 on every Linux target.
#[verifier::external_body]
fn uio_maxiov() -> (max: usize)
    ensures
        max == 1024,
{
    libc::UIO_MAXIOV as usize
}

/// The check of the buffer list of a vectored transfer: `iovcnt` buffers
/// described at `iov`, which has to be aligned to `align`.
pub open spec fn iovec_checked(iov: usize, iovcnt: usize, align: usize) -> Precheck {
    if iovcnt == 0 {
        Precheck::Done(Errno::Inval.neg() as isize)
    } else if iov == 0 {
        Precheck::Done(Errno::Fault.neg() as isize)
    } else if iovcnt > max_iovecs() || iov % align != 0 {
        Precheck::Done(Errno::Inval.neg() as isize)
    } else {
        Precheck::Proceed
    }
}

/// Checks the buffer list of a vectored transfer. An empty list, a list of
/// more than the largest number of buffers, and a list that is not aligned
/// as a buffer descriptor are refused with the invalid-argument error, a null
/// list with the bad-address error.
pub fn check_iovec(iov: usize, iovcnt: usize) -> (check: Precheck)
    ensures
        check == iovec_checked(iov, iovcnt, vstd::layout::align_of::<IoVec>() as usize),
{
    if iovcnt == 0 {
        return Precheck::Done(Errno::Inval.to_ret());
    }
    if iov == 0 {
        return Precheck::Done(Errno::Fault.to_ret());
    }
    if iovcnt > uio_maxiov() {
        return Precheck::Done(Errno::Inval.to_ret());
    }
    vstd::layout::layout_for_type_is_valid::<IoVec>();
    if iov % core::mem::align_of::<IoVec>() != 0 {
        return Precheck::Done(Errno::Inval.to_ret());
    }
    Precheck::Proceed
}

/// What a vectored transfer does with its next buffer.
#[derive(Clone, Copy, Debug, PartialEq, Eq, Structural)]
pub enum VecStep {
    /// The buffer is empty: go on to the next one.
    Skip,
    /// Transfer into or out of the buffer.
    Transfer,
    /// End the transfer with this return value.
    Stop(isize),
}

/// What a vectored transfer that has moved `total` bytes does with the
/// buffer `v`: it skips an empty buffer, and stops at a null one, with the
/// bytes moved so far or, if there are none, with the bad-address error.
pub fn iovec_before(total: isize, v: IoVec) -> (step: VecStep)
    ensures
        step == if v.iov_len == 0 {
            VecStep::Skip
        } else if v.iov_base != 0 {
            VecStep::Transfer
        } else if total > 0 {
            VecStep::Stop(total)
        } else {
            VecStep::Stop(Errno::Fault.neg() as isize)
        },
{
    if v.iov_len == 0 {
        return VecStep::Skip;
    }
    if v.iov_base == 0 {
        return if total > 0 {
            VecStep::Stop(total)
        } else {
            VecStep::Stop(Errno::Fault.to_ret())
        };
    }
    VecStep::Transfer
}

/// How a vectored transfer goes on after one buffer.
#[derive(Clone, Copy, Debug, PartialEq, Eq, Structural)]
pub enum VecNext {
    /// Go on to the next buffer, with this many bytes moved so far.
    Continue(isize),
    /// End the transfer with this return value.
    Stop(isize),
}

/// How a vectored transfer that had moved `total` bytes goes on after the
/// device answered `r` for a buffer of `len` bytes. An error ends the
/// transfer, with the bytes moved so far or, if there are none, with the
/// error. A short transfer ends it with the bytes moved. A full one adds to
/// the count.
pub fn iovec_after(total: isize, len: usize, r: isize) -> (next: VecNext)
    requires
        total + r <= isize::MAX,
    ensures
        next == if r < 0 {
            if total > 0 {
                VecNext::Stop(total)
            } else {
                VecNext::Stop(r)
            }
        } else if r < len {
            VecNext::Stop((total + r) as isize)
        } else {
            VecNext::Continue((total + r) as isize)
        },
{
    if r < 0 {
        return if total > 0 {
            VecNext::Stop(total)
        } else {
            VecNext::Stop(r)
        };
    }
    let sum = total + r;
    if (r as usize) < len {
        VecNext::Stop(sum)
    } else {
        VecNext::Continue(sum)
    }
}

} // verus!
