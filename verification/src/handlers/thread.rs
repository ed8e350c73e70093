//! The thread syscalls that decide something before they reach the
//! scheduler.

use vstd::prelude::*;

use crate::errno::Errno;
use crate::frame::TrapFrame;
use crate::ops::{
    cell_spawned, spawn_outcome, spawn_thread, wait_on_addr, wake_on_addr, SchedulerCell,
    SpawnOutcome,
};
use crate::scheduler::wake_count;

verus! {

/// The futex operations this layer implements.
#[derive(Clone, Copy, Debug, PartialEq, Eq, Structural)]
pub enum FutexOp {
    Wait,
    Wake,
}

/// The operation a futex call asks for, if it is one this layer implements:
/// 0 is wait and 1 is wake.
pub open spec fn futex_op(op: usize) -> Option<FutexOp> {
    if op == 0 {
        Some(FutexOp::Wait)
    } else if op == 1 {
        Some(FutexOp::Wake)
    } else {
        None
    }
}

/// `libc::FUTEX_WAIT`, which is 0.
#[verifier::external_body]
fn futex_wait_op() -> (op: usize)
    ensures
        op == 0,
{
    libc::FUTEX_WAIT as usize
}

/// `libc::FUTEX_WAKE`, which is 1.
#[verifier::external_body]
fn futex_wake_op() -> (op: usize)
    ensures
        op == 1,
{
    libc::FUTEX_WAKE as usize
}

/// Decodes the operation of a futex call.
pub fn decode_futex_op(op: usize) -> (decoded: Option<FutexOp>)
    ensures
        decoded == futex_op(op),
{
    if op == futex_wait_op() {
        Some(FutexOp::Wait)
    } else if op == futex_wake_op() {
        Some(FutexOp::Wake)
    } else {
        None
    }
}

/// The `futex` syscall on the word at `addr`, which the caller has just read
/// as `actual`. A wait blocks the current thread while the word holds `val`;
/// a wake wakes at most `val` waiters and returns their number; any other
/// operation is answered with the not-implemented error and changes nothing.
pub fn sys_futex(cell: &mut SchedulerCell, addr: usize, op: usize, val: usize, actual: i32) -> (ret:
    isize)
    requires
        old(cell).wf(),
    ensures
        final(cell).wf(),
        match futex_op(op) {
            Some(FutexOp::Wait) => match old(cell)@ {
                Some(s) => final(cell)@ == Some(s.waited(addr, val as i32, actual)) && ret
                    == s.wait_result(val as i32, actual),
                None => final(cell)@ is None && ret == 0,
            },
            Some(FutexOp::Wake) => match old(cell)@ {
                Some(s) => final(cell)@ == Some(s.wake_called(addr, val)) && ret == wake_count(
                    s.threads,
                    addr,
                    val,
                ),
                None => final(cell)@ is None && ret == 0,
            },
            None => final(cell)@ == old(cell)@ && ret == Errno::NoSys.neg(),
        },
{
    match decode_futex_op(op) {
        Some(FutexOp::Wait) => wait_on_addr(cell, addr, val as i32, actual),
        Some(FutexOp::Wake) => {
            let woken = wake_on_addr(cell, addr, val);
            proof {
                match old(cell)@ {
                    Some(s) => {
                        crate::scheduler::lemma_woken_bounds(s.threads, addr, val);
                    },
                    None => {},
                }
            }
            woken as isize
        },
        None => Errno::NoSys.to_ret(),
    }
}

/// The flag of a `clone` that asks for the child's identifier word to be
/// cleared, and its waiters woken, when the child exits.
pub open spec fn clone_child_cleartid() -> usize {
    0x0020_0000
}

/// `libc::CLONE_CHILD_CLEARTID`, which is 0x200000.
#[verifier::external_body]
fn clone_child_cleartid_flag() -> (flag: usize)
    ensures
        flag == 0x0020_0000,
{
    libc::CLONE_CHILD_CLEARTID as usize
}

/// The clear-on-exit word of a cloned thread: the child's identifier word
/// if the flags ask for it to be cleared, else none.
pub open spec fn clear_word(flags: usize, child_tid: usize) -> usize {
    if flags & clone_child_cleartid() != 0 {
        child_tid
    } else {
        0
    }
}

/// The `clone` syscall, trapped at `mepc` with the live frame `frame`: spawns
/// a thread on `stack` with the thread pointer `tls`, and asks the caller to
/// store the new identifier at `parent_tid` and `child_tid`, where these are
/// not null, and in the live frame.
pub fn sys_clone(
    cell: &mut SchedulerCell,
    flags: usize,
    stack: usize,
    parent_tid: usize,
    tls: usize,
    child_tid: usize,
    mepc: usize,
    frame: Option<TrapFrame>,
) -> (out: SpawnOutcome)
    requires
        old(cell).wf(),
    ensures
        final(cell).wf(),
        final(cell)@ == cell_spawned(
            old(cell)@,
            stack,
            tls,
            clear_word(flags, child_tid),
            mepc,
            frame,
        ),
        out == spawn_outcome(old(cell)@, parent_tid, child_tid, frame),
{
    let clear = if (flags & clone_child_cleartid_flag()) != 0 {
        child_tid
    } else {
        0
    };
    spawn_thread(cell, stack, tls, parent_tid, child_tid, clear, mepc, frame)
}

} // verus!
