//! Error numbers reported to syscall callers.
//!
//! A failed operation returns the negated error number, as Linux does. The
//! numbers themselves come from `libc`; this module gives each one the library
//! uses a name and the value the verified code may rely on.

use vstd::prelude::*;

verus! {

/// The error conditions this layer reports.
#[derive(Clone, Copy, Debug, PartialEq, Eq, Structural)]
pub enum Errno {
    /// Operation not permitted: the thread table is full.
    Perm,
    /// Try again: a futex word did not hold the expected value.
    Again,
    /// Waiting would deadlock: no other thread exists to wake the caller.
    Deadlock,
    /// Bad file descriptor.
    BadFd,
    /// Out of memory.
    NoMem,
    /// Bad address: a null pointer where memory was expected.
    Fault,
    /// Invalid argument.
    Inval,
    /// The file does not take device requests.
    NoTty,
    /// The file cannot seek.
    IllegalSeek,
    /// Not implemented: a syscall or an operation this layer does not have.
    NoSys,
}

impl Errno {
    /// The positive error number, as the generic Linux table defines it.
    pub open spec fn code(self) -> int {
        match self {
            Errno::Perm => 1,
            Errno::Again => 11,
            Errno::Deadlock => 35,
            Errno::BadFd => 9,
            Errno::NoMem => 12,
            Errno::Fault => 14,
            Errno::Inval => 22,
            Errno::NoTty => 25,
            Errno::IllegalSeek => 29,
            Errno::NoSys => 38,
        }
    }

    /// What a failing call returns: the error number negated.
    pub open spec fn neg(self) -> int {
        -self.code()
    }

    /// What a failing call leaves in a thread's return-value register: the
    /// negated error number as a machine word.
    pub open spec fn word(self) -> usize {
        (self.neg() as isize) as usize
    }

    /// The positive error number.
    pub fn raw(self) -> (e: i32)
        ensures
            e == self.code(),
    {
        match self {
            Errno::Perm => eperm(),
            Errno::Again => eagain(),
            Errno::Deadlock => edeadlk(),
            Errno::BadFd => ebadf(),
            Errno::NoMem => enomem(),
            Errno::Fault => efault(),
            Errno::Inval => einval(),
            Errno::NoTty => enotty(),
            Errno::IllegalSeek => espipe(),
            Errno::NoSys => enosys(),
        }
    }

    /// The value a failing call returns.
    pub fn to_ret(self) -> (r: isize)
        ensures
            r == self.neg(),
            r < 0,
    {
        -(self.raw() as isize)
    }

    /// The failing return value as a register word.
    pub fn to_word(self) -> (w: usize)
        ensures
            w == self.word(),
    {
        self.to_ret() as usize
    }
}

/// `libc::EPERM`, which is 1 on every Linux target.
#[verifier::external_body]
fn eperm() -> (e: i32)
    ensures
        e == 1,
{
    libc::EPERM
}

/// `libc::EAGAIN`, which is 11 on every Linux target.
#[verifier::external_body]
fn eagain() -> (e: i32)
    ensures
        e == 11,
{
    libc::EAGAIN
}

/// `libc::EDEADLK`, which is 35 in the generic Linux error table (x86, Arm,
/// RISC-V).
#[verifier::external_body]
fn edeadlk() -> (e: i32)
    ensures
        e == 35,
{
    libc::EDEADLK
}

/// `libc::EBADF`, which is 9 on every Linux target.
#[verifier::external_body]
fn ebadf() -> (e: i32)
    ensures
        e == 9,
{
    libc::EBADF
}

/// `libc::ENOMEM`, which is 12 on every Linux target.
#[verifier::external_body]
fn enomem() -> (e: i32)
    ensures
        e == 12,
{
    libc::ENOMEM
}

/// `libc::EFAULT`, which is 14 on every Linux target.
#[verifier::external_body]
fn efault() -> (e: i32)
    ensures
        e == 14,
{
    libc::EFAULT
}

/// `libc::EINVAL`, which is 22 on every Linux target.
#[verifier::external_body]
fn einval() -> (e: i32)
    ensures
        e == 22,
{
    libc::EINVAL
}

/// `libc::ENOTTY`, which is 25 on every Linux target.
#[verifier::external_body]
fn enotty() -> (e: i32)
    ensures
        e == 25,
{
    libc::ENOTTY
}

/// `libc::ESPIPE`, which is 29 on every Linux target.
#[verifier::external_body]
fn espipe() -> (e: i32)
    ensures
        e == 29,
{
    libc::ESPIPE
}

/// `libc::ENOSYS`, which is 38 in the generic Linux error table (x86, Arm,
/// RISC-V).
#[verifier::external_body]
fn enosys() -> (e: i32)
    ensures
        e == 38,
{
    libc::ENOSYS
}

} // verus!
