//! Telling syscalls apart by their numbers.
//!
//! Syscall numbers differ from one architecture to the next, so the table of
//! numbers is a value: it is read from `libc` for the target at hand, and the
//! classification is stated for any table. The handlers come in four groups,
//! each of which a build may leave out; a syscall of a group that is left out
//! is not implemented.

use vstd::prelude::*;

use crate::arch::SyscallFrame;

verus! {

/// The numbers of the memory syscalls.
#[derive(Clone, Copy, Debug, PartialEq, Eq, Structural)]
pub struct MemoryNumbers {
    pub brk: i64,
    pub mmap: i64,
    pub munmap: i64,
    pub mprotect: i64,
    pub madvise: i64,
}

/// The numbers of the thread syscalls.
#[derive(Clone, Copy, Debug, PartialEq, Eq, Structural)]
pub struct SchedulerNumbers {
    pub clone: i64,
    pub futex: i64,
    pub sched_yield: i64,
    pub getpid: i64,
    pub gettid: i64,
    pub set_tid_address: i64,
}

/// The numbers of the file syscalls.
#[derive(Clone, Copy, Debug, PartialEq, Eq, Structural)]
pub struct VfsNumbers {
    pub openat: i64,
    pub close: i64,
    pub read: i64,
    pub write: i64,
    pub readv: i64,
    pub writev: i64,
    pub lseek: i64,
    pub ioctl: i64,
    pub fstat: i64,
}

/// The numbers of the syscalls every build has, and of `getrandom`.
#[derive(Clone, Copy, Debug, PartialEq, Eq, Structural)]
pub struct CoreNumbers {
    pub getrandom: i64,
    pub exit: i64,
    pub exit_group: i64,
}

/// The syscall numbers of one target.
#[derive(Clone, Copy, Debug, PartialEq, Eq, Structural)]
pub struct SyscallNumbers {
    pub memory: MemoryNumbers,
    pub scheduler: SchedulerNumbers,
    pub vfs: VfsNumbers,
    pub core: CoreNumbers,
}

/// The handler groups a build includes.
#[derive(Clone, Copy, Debug, PartialEq, Eq, Structural)]
pub struct Features {
    pub memory: bool,
    pub scheduler: bool,
    pub vfs: bool,
    pub random: bool,
}

/// A syscall as the dispatcher sees it.
#[derive(Clone, Copy, Debug, PartialEq, Eq, Structural)]
pub enum Syscall {
    Brk,
    Mmap,
    Munmap,
    Mprotect,
    /// Advice on memory use is accepted and ignored.
    Madvise,
    Clone,
    Futex,
    SchedYield,
    Getpid,
    Gettid,
    SetTidAddress,
    Openat,
    Close,
    Read,
    Write,
    Readv,
    Writev,
    Lseek,
    Ioctl,
    Fstat,
    Getrandom,
    Exit,
    ExitGroup,
    /// A number no included handler answers to.
    Unsupported,
}

/// The memory syscall with the number `nr`, if there is one.
pub open spec fn memory_call(nr: i64, n: MemoryNumbers) -> Option<Syscall> {
    if nr == n.brk {
        Some(Syscall::Brk)
    } else if nr == n.mmap {
        Some(Syscall::Mmap)
    } else if nr == n.munmap {
        Some(Syscall::Munmap)
    } else if nr == n.mprotect {
        Some(Syscall::Mprotect)
    } else if nr == n.madvise {
        Some(Syscall::Madvise)
    } else {
        None
    }
}

/// The thread syscall with the number `nr`, if there is one.
pub open spec fn scheduler_call(nr: i64, n: SchedulerNumbers) -> Option<Syscall> {
    if nr == n.clone {
        Some(Syscall::Clone)
    } else if nr == n.futex {
        Some(Syscall::Futex)
    } else if nr == n.sched_yield {
        Some(Syscall::SchedYield)
    } else if nr == n.getpid {
        Some(Syscall::Getpid)
    } else if nr == n.gettid {
        Some(Syscall::Gettid)
    } else if nr == n.set_tid_address {
        Some(Syscall::SetTidAddress)
    } else {
        None
    }
}

/// The file syscall with the number `nr`, if there is one.
pub open spec fn vfs_call(nr: i64, n: VfsNumbers) -> Option<Syscall> {
    if nr == n.openat {
        Some(Syscall::Openat)
    } else if nr == n.close {
        Some(Syscall::Close)
    } else if nr == n.read {
        Some(Syscall::Read)
    } else if nr == n.write {
        Some(Syscall::Write)
    } else if nr == n.readv {
        Some(Syscall::Readv)
    } else if nr == n.writev {
        Some(Syscall::Writev)
    } else if nr == n.lseek {
        Some(Syscall::Lseek)
    } else if nr == n.ioctl {
        Some(Syscall::Ioctl)
    } else if nr == n.fstat {
        Some(Syscall::Fstat)
    } else {
        None
    }
}

/// The syscall a number stands for. The groups are tried in the order
/// memory, threads, files, random numbers, each only if the build includes
/// it, and the exits come last; within a group the first match counts.
pub open spec fn classified(nr: usize, numbers: SyscallNumbers, features: Features) -> Syscall {
    let nr = nr as i64;
    if features.memory && memory_call(nr, numbers.memory) is Some {
        memory_call(nr, numbers.memory).unwrap()
    } else if features.scheduler && scheduler_call(nr, numbers.scheduler) is Some {
        scheduler_call(nr, numbers.scheduler).unwrap()
    } else if features.vfs && vfs_call(nr, numbers.vfs) is Some {
        vfs_call(nr, numbers.vfs).unwrap()
    } else if features.random && nr == numbers.core.getrandom {
        Syscall::Getrandom
    } else if nr == numbers.core.exit {
        Syscall::Exit
    } else if nr == numbers.core.exit_group {
        Syscall::ExitGroup
    } else {
        Syscall::Unsupported
    }
}

/// `libc::SYS_brk`, the number of `brk` on this target.
#[verifier::external_body]
fn number_of_brk() -> i64 {
    libc::SYS_brk as i64
}

/// `libc::SYS_mmap`, the number of `mmap` on this target.
#[verifier::external_body]
fn number_of_mmap() -> i64 {
    libc::SYS_mmap as i64
}

/// `libc::SYS_munmap`, the number of `munmap` on this target.
#[verifier::external_body]
fn number_of_munmap() -> i64 {
    libc::SYS_munmap as i64
}

/// `libc::SYS_mprotect`, the number of `mprotect` on this target.
#[verifier::external_body]
fn number_of_mprotect() -> i64 {
    libc::SYS_mprotect as i64
}

/// `libc::SYS_madvise`, the number of `madvise` on this target.
#[verifier::external_body]
fn number_of_madvise() -> i64 {
    libc::SYS_madvise as i64
}

/// `libc::SYS_clone`, the number of `clone` on this target.
#[verifier::external_body]
fn number_of_clone() -> i64 {
    libc::SYS_clone as i64
}

/// `libc::SYS_futex`, the number of `futex` on this target.
#[verifier::external_body]
fn number_of_futex() -> i64 {
    libc::SYS_futex as i64
}

/// `libc::SYS_sched_yield`, the number of `sched_yield` on this target.
#[verifier::external_body]
fn number_of_sched_yield() -> i64 {
    libc::SYS_sched_yield as i64
}

/// `libc::SYS_getpid`, the number of `getpid` on this target.
#[verifier::external_body]
fn number_of_getpid() -> i64 {
    libc::SYS_getpid as i64
}

/// `libc::SYS_gettid`, the number of `gettid` on this target.
#[verifier::external_body]
fn number_of_gettid() -> i64 {
    libc::SYS_gettid as i64
}

/// `libc::SYS_set_tid_address`, the number of `set_tid_address` on this target.
#[verifier::external_body]
fn number_of_set_tid_address() -> i64 {
    libc::SYS_set_tid_address as i64
}

/// `libc::SYS_openat`, the number of `openat` on this target.
#[verifier::external_body]
fn number_of_openat() -> i64 {
    libc::SYS_openat as i64
}

/// `libc::SYS_close`, the number of `close` on this target.
#[verifier::external_body]
fn number_of_close() -> i64 {
    libc::SYS_close as i64
}

/// `libc::SYS_read`, the number of `read` on this target.
#[verifier::external_body]
fn number_of_read() -> i64 {
    libc::SYS_read as i64
}

/// `libc::SYS_write`, the number of `write` on this target.
#[verifier::external_body]
fn number_of_write() -> i64 {
    libc::SYS_write as i64
}

/// `libc::SYS_readv`, the number of `readv` on this target.
#[verifier::external_body]
fn number_of_readv() -> i64 {
    libc::SYS_readv as i64
}

/// `libc::SYS_writev`, the number of `writev` on this target.
#[verifier::external_body]
fn number_of_writev() -> i64 {
    libc::SYS_writev as i64
}

/// `libc::SYS_lseek`, the number of `lseek` on this target.
#[verifier::external_body]
fn number_of_lseek() -> i64 {
    libc::SYS_lseek as i64
}

/// `libc::SYS_ioctl`, the number of `ioctl` on this target.
#[verifier::external_body]
fn number_of_ioctl() -> i64 {
    libc::SYS_ioctl as i64
}

/// `libc::SYS_fstat`, the number of `fstat` on this target.
#[verifier::external_body]
fn number_of_fstat() -> i64 {
    libc::SYS_fstat as i64
}

/// `libc::SYS_getrandom`, the number of `getrandom` on this target.
#[verifier::external_body]
fn number_of_getrandom() -> i64 {
    libc::SYS_getrandom as i64
}

/// `libc::SYS_exit`, the number of `exit` on this target.
#[verifier::external_body]
fn number_of_exit() -> i64 {
    libc::SYS_exit as i64
}

/// `libc::SYS_exit_group`, the number of `exit_group` on this target.
#[verifier::external_body]
fn number_of_exit_group() -> i64 {
    libc::SYS_exit_group as i64
}

/// The syscall numbers of the target the library is built for, as `libc`
/// has them.
pub fn syscall_numbers() -> SyscallNumbers {
    SyscallNumbers {
        memory: MemoryNumbers {
            brk: number_of_brk(),
            mmap: number_of_mmap(),
            munmap: number_of_munmap(),
            mprotect: number_of_mprotect(),
            madvise: number_of_madvise(),
        },
        scheduler: SchedulerNumbers {
            clone: number_of_clone(),
            futex: number_of_futex(),
            sched_yield: number_of_sched_yield(),
            getpid: number_of_getpid(),
            gettid: number_of_gettid(),
            set_tid_address: number_of_set_tid_address(),
        },
        vfs: VfsNumbers {
            openat: number_of_openat(),
            close: number_of_close(),
            read: number_of_read(),
            write: number_of_write(),
            readv: number_of_readv(),
            writev: number_of_writev(),
            lseek: number_of_lseek(),
            ioctl: number_of_ioctl(),
            fstat: number_of_fstat(),
        },
        core: CoreNumbers {
            getrandom: number_of_getrandom(),
            exit: number_of_exit(),
            exit_group: number_of_exit_group(),
        },
    }
}

/// Tells which syscall the number `nr` stands for under the table `numbers`
/// in a build with the handler groups `features`.
pub fn classify(nr: usize, numbers: &SyscallNumbers, features: Features) -> (call: Syscall)
    ensures
        call == classified(nr, *numbers, features),
{
    let nr = nr as i64;
    if features.memory {
        let n = &numbers.memory;
        if nr == n.brk {
            return Syscall::Brk;
        } else if nr == n.mmap {
            return Syscall::Mmap;
        } else if nr == n.munmap {
            return Syscall::Munmap;
        } else if nr == n.mprotect {
            return Syscall::Mprotect;
        } else if nr == n.madvise {
            return Syscall::Madvise;
        }
    }
    if features.scheduler {
        let n = &numbers.scheduler;
        if nr == n.clone {
            return Syscall::Clone;
        } else if nr == n.futex {
            return Syscall::Futex;
        } else if nr == n.sched_yield {
            return Syscall::SchedYield;
        } else if nr == n.getpid {
            return Syscall::Getpid;
        } else if nr == n.gettid {
            return Syscall::Gettid;
        } else if nr == n.set_tid_address {
            return Syscall::SetTidAddress;
        }
    }
    if features.vfs {
        let n = &numbers.vfs;
        if nr == n.openat {
            return Syscall::Openat;
        } else if nr == n.close {
            return Syscall::Close;
        } else if nr == n.read {
            return Syscall::Read;
        } else if nr == n.write {
            return Syscall::Write;
        } else if nr == n.readv {
            return Syscall::Readv;
        } else if nr == n.writev {
            return Syscall::Writev;
        } else if nr == n.lseek {
            return Syscall::Lseek;
        } else if nr == n.ioctl {
            return Syscall::Ioctl;
        } else if nr == n.fstat {
            return Syscall::Fstat;
        }
    }
    if features.random && nr == numbers.core.getrandom {
        return Syscall::Getrandom;
    }
    if nr == numbers.core.exit {
        return Syscall::Exit;
    }
    if nr == numbers.core.exit_group {
        return Syscall::ExitGroup;
    }
    Syscall::Unsupported
}

/// A syscall as it was trapped: which one, its six argument registers, and
/// the program counter it returns to. A handler reads as many arguments as it
/// takes, from the first on.
#[derive(Clone, Copy, Debug, PartialEq, Eq)]
pub struct SyscallRequest {
    pub call: Syscall,
    pub args: [usize; 6],
    pub pc: usize,
}

/// Reads the syscall a trapped frame asks for.
pub fn dispatch_syscall<Frame: SyscallFrame>(
    regs: &Frame,
    numbers: &SyscallNumbers,
    features: Features,
) -> (request: SyscallRequest)
    ensures
        request.call == classified(regs.spec_syscall_number(), *numbers, features),
        forall|i: int| 0 <= i < 6 ==> request.args@[i] == regs.spec_arg(i as usize),
        request.pc == regs.spec_pc(),
{
    SyscallRequest {
        call: classify(regs.syscall_number(), numbers, features),
        args: [regs.arg(0), regs.arg(1), regs.arg(2), regs.arg(3), regs.arg(4), regs.arg(5)],
        pc: regs.pc(),
    }
}

} // verus!
