//! The scheduler as the kernel holds it: one process-wide cell that is empty
//! until the scheduler is initialised, and the operations the syscall layer
//! calls on it.
//!
//! Each operation falls back to a fixed answer while the cell is empty, so a
//! process that never starts a scheduler behaves as a single main thread.

use vstd::prelude::*;

use crate::arch::ArchContext;
use crate::errno::Errno;
use crate::frame::TrapFrame;
use crate::memory::WordStore;
use crate::scheduler::{
    exit_payload, exit_word, wake_count, ExitOutcome, Scheduler, SchedulerView, MAX_THREADS,
};

verus! {

/// The place of the process-wide scheduler.
pub struct SchedulerCell {
    pub(crate) scheduler: Option<Scheduler>,
}

impl View for SchedulerCell {
    type V = Option<SchedulerView>;

    open(crate) spec fn view(&self) -> Option<SchedulerView> {
        match self.scheduler {
            Some(s) => Some(s@),
            None => None,
        }
    }
}

/// What a spawn asks of its caller.
#[derive(Clone, Copy, Debug, PartialEq, Eq, Structural)]
pub struct SpawnOutcome {
    /// The new thread's identifier, or a negated error number.
    pub ret: isize,
    /// The store of the new identifier for the parent, if it asked for one.
    pub parent_tid_store: Option<WordStore>,
    /// The store of the new identifier for the child, if one was asked for.
    pub child_tid_store: Option<WordStore>,
    /// The trapped frame with the new identifier in its return-value
    /// register, to be written back over the live frame.
    pub frame: Option<TrapFrame>,
}

impl SpawnOutcome {
    /// The outcome of a spawn that failed with `errno`.
    pub open spec fn refused(errno: Errno) -> SpawnOutcome {
        SpawnOutcome {
            ret: errno.neg() as isize,
            parent_tid_store: None,
            child_tid_store: None,
            frame: None,
        }
    }

    /// The outcome of a spawn that created thread `tid`.
    pub open spec fn created(
        tid: int,
        parent_tid_ptr: usize,
        child_tid_ptr: usize,
        frame: Option<TrapFrame>,
    ) -> SpawnOutcome {
        SpawnOutcome {
            ret: tid as isize,
            parent_tid_store: if parent_tid_ptr != 0 {
                Some(WordStore { addr: parent_tid_ptr, value: tid as i32 })
            } else {
                None
            },
            child_tid_store: if child_tid_ptr != 0 {
                Some(WordStore { addr: child_tid_ptr, value: tid as i32 })
            } else {
                None
            },
            frame: match frame {
                Some(f) => Some(TrapFrame { a0: tid as usize, ..f }),
                None => None,
            },
        }
    }
}

impl SchedulerCell {
    /// The scheduler in the cell, if there is one, is well formed.
    pub open(crate) spec fn wf(&self) -> bool {
        match self.scheduler {
            Some(s) => s.wf(),
            None => true,
        }
    }

    /// An empty cell.
    pub fn new() -> (cell: Self)
        ensures
            cell.wf(),
            cell@ is None,
    {
        SchedulerCell { scheduler: None }
    }

    /// The scheduler in the cell, if it has been initialised.
    pub fn scheduler(&self) -> (s: Option<&Scheduler>)
        requires
            self.wf(),
        ensures
            s is Some <==> self@ is Some,
            s is Some ==> s.unwrap()@ == self@.unwrap() && s.unwrap().wf(),
    {
        self.scheduler.as_ref()
    }

    /// The frame a spawn copies for the new thread: the trapped frame if the
    /// caller has one, else the current thread's last saved frame.
    pub open spec fn parent_frame(s: SchedulerView, frame: Option<TrapFrame>) -> Option<
        TrapFrame,
    > {
        match frame {
            Some(f) => Some(f),
            None => if s.threads.len() > 0 {
                Some(s.current_tcb().trap_frame)
            } else {
                None
            },
        }
    }
}

/// The cell after a spawn: the scheduler in it, if there is one and a
/// parent frame is at hand, after the spawn; else the cell as it was.
pub open spec fn cell_spawned(
    view: Option<SchedulerView>,
    stack: usize,
    tls: usize,
    clear_child_tid_ptr: usize,
    mepc: usize,
    frame: Option<TrapFrame>,
) -> Option<SchedulerView> {
    match view {
        Some(s) => match SchedulerCell::parent_frame(s, frame) {
            Some(parent) => Some(s.spawned(parent, stack, tls, clear_child_tid_ptr, mepc)),
            None => view,
        },
        None => None,
    }
}

/// What a spawn hands back: the stores and the frame of a created thread,
/// or the negated permission error if there is no scheduler, no parent frame
/// or no room in the thread table.
pub open spec fn spawn_outcome(
    view: Option<SchedulerView>,
    parent_tid_ptr: usize,
    child_tid_ptr: usize,
    frame: Option<TrapFrame>,
) -> SpawnOutcome {
    match view {
        Some(s) => if SchedulerCell::parent_frame(s, frame) is Some && s.threads.len()
            < MAX_THREADS {
            SpawnOutcome::created(s.next_tid(), parent_tid_ptr, child_tid_ptr, frame)
        } else {
            SpawnOutcome::refused(Errno::Perm)
        },
        None => SpawnOutcome::refused(Errno::Perm),
    }
}

/// Puts a fresh scheduler, with no threads, in the cell.
pub fn init(cell: &mut SchedulerCell)
    ensures
        final(cell).wf(),
        final(cell)@ == Some(SchedulerView::empty()),
{
    cell.scheduler = Some(Scheduler::new());
}

/// Spawns a thread for the `clone` syscall.
///
/// The new thread starts from `frame`, the trapped frame, or from the current
/// thread's saved frame when the caller has none. Without a scheduler, or
/// without either frame, the spawn is refused with the negated permission
/// error, as it is when the thread table is full. On success the caller is
/// asked to store the new identifier at `parent_tid_ptr` and at
/// `child_tid_ptr`, where these are not null, and to put it in the return-value
/// register of the live frame.
pub fn spawn_thread(
    cell: &mut SchedulerCell,
    stack: usize,
    tls: usize,
    parent_tid_ptr: usize,
    child_tid_ptr: usize,
    clear_child_tid_ptr: usize,
    mepc: usize,
    frame: Option<TrapFrame>,
) -> (out: SpawnOutcome)
    requires
        old(cell).wf(),
    ensures
        final(cell).wf(),
        final(cell)@ == cell_spawned(old(cell)@, stack, tls, clear_child_tid_ptr, mepc, frame),
        out == spawn_outcome(old(cell)@, parent_tid_ptr, child_tid_ptr, frame),
{
    match &mut cell.scheduler {
        None => SpawnOutcome {
            ret: Errno::Perm.to_ret(),
            parent_tid_store: None,
            child_tid_store: None,
            frame: None,
        },
        Some(scheduler) => {
            let parent_context = match frame {
                Some(f) => f,
                None => match scheduler.current_thread() {
                    Some(tcb) => tcb.trap_frame,
                    None => {
                        return SpawnOutcome {
                            ret: Errno::Perm.to_ret(),
                            parent_tid_store: None,
                            child_tid_store: None,
                            frame: None,
                        };
                    },
                },
            };
            let tid = scheduler.spawn_thread(parent_context, stack, tls, clear_child_tid_ptr, mepc);
            let mut out = SpawnOutcome {
                ret: tid,
                parent_tid_store: None,
                child_tid_store: None,
                frame: None,
            };
            if tid > 0 {
                let tid = tid as i32;
                if parent_tid_ptr != 0 {
                    out.parent_tid_store = Some(WordStore { addr: parent_tid_ptr, value: tid });
                }
                if child_tid_ptr != 0 {
                    out.child_tid_store = Some(WordStore { addr: child_tid_ptr, value: tid });
                }
                match frame {
                    Some(f) => {
                        let mut live = f;
                        live.set_return_value(tid as usize);
                        out.frame = Some(live);
                    },
                    None => {},
                }
            }
            out
        },
    }
}

/// The current thread gives up the CPU. Always reports success.
pub fn yield_now(cell: &mut SchedulerCell) -> (ret: isize)
    requires
        old(cell).wf(),
    ensures
        final(cell).wf(),
        ret == 0,
        final(cell)@ == match old(cell)@ {
            Some(s) => Some(s.yielded()),
            None => None,
        },
{
    match &mut cell.scheduler {
        Some(scheduler) => scheduler.yield_now(),
        None => {},
    }
    0
}

/// The current thread exits with `code`. Without a scheduler the process
/// ends: the caller is asked to tell the host.
pub fn exit_current(cell: &mut SchedulerCell, code: i32) -> (out: ExitOutcome)
    requires
        old(cell).wf(),
    ensures
        final(cell).wf(),
        match old(cell)@ {
            Some(s) => final(cell)@ == Some(s.exited()) && out == s.exit_outcome(code),
            None => final(cell)@ is None && out == (ExitOutcome {
                ret: 0,
                clear_store: None,
                tohost: Some(exit_payload(code)),
            }),
        },
{
    match &mut cell.scheduler {
        Some(scheduler) => scheduler.exit_current_and_yield(code),
        None => ExitOutcome { ret: 0, clear_store: None, tohost: Some(exit_word(code)) },
    }
}

/// The identifier of the current thread; `1` without a scheduler or before
/// the first thread exists.
pub fn current_tid(cell: &SchedulerCell) -> (tid: usize)
    requires
        cell.wf(),
    ensures
        tid == match cell@ {
            Some(s) => if s.threads.len() == 0 {
                1
            } else {
                s.current + 1
            },
            None => 1,
        },
        tid >= 1,
{
    match &cell.scheduler {
        Some(scheduler) => scheduler.current_tid_or_1(),
        None => 1,
    }
}

/// The number of threads the scheduler has created; `1` without a scheduler.
pub fn thread_count(cell: &SchedulerCell) -> (n: usize)
    ensures
        n == match cell@ {
            Some(s) => s.threads.len(),
            None => 1,
        },
{
    match &cell.scheduler {
        Some(scheduler) => scheduler.thread_count(),
        None => 1,
    }
}

/// The current thread waits on the futex word at `addr`, which the caller has
/// just read as `actual`, for as long as it holds `val`. Without a scheduler
/// the call returns zero and does nothing.
pub fn wait_on_addr(cell: &mut SchedulerCell, addr: usize, val: i32, actual: i32) -> (ret: isize)
    requires
        old(cell).wf(),
    ensures
        final(cell).wf(),
        match old(cell)@ {
            Some(s) => final(cell)@ == Some(s.waited(addr, val, actual)) && ret == s.wait_result(
                val,
                actual,
            ),
            None => final(cell)@ is None && ret == 0,
        },
{
    match &mut cell.scheduler {
        Some(scheduler) => scheduler.wait_on_addr(addr, val, actual),
        None => 0,
    }
}

/// Wakes at most `count` threads that wait on the futex word at `addr` and
/// reports their number; zero without a scheduler.
pub fn wake_on_addr(cell: &mut SchedulerCell, addr: usize, count: usize) -> (ret: usize)
    requires
        old(cell).wf(),
    ensures
        final(cell).wf(),
        ret <= count,
        match old(cell)@ {
            Some(s) => final(cell)@ == Some(s.wake_called(addr, count)) && ret == wake_count(
                s.threads,
                addr,
                count,
            ),
            None => final(cell)@ is None && ret == 0,
        },
{
    match &mut cell.scheduler {
        Some(scheduler) => scheduler.wake_on_addr(addr, count),
        None => 0,
    }
}

/// Stores `tidptr` as the current thread's clear-on-exit word and returns the
/// thread's identifier; zero without a scheduler or a thread.
pub fn set_tid_address(cell: &mut SchedulerCell, tidptr: usize) -> (ret: isize)
    requires
        old(cell).wf(),
    ensures
        final(cell).wf(),
        match old(cell)@ {
            Some(s) => if s.threads.len() == 0 {
                ret == 0 && final(cell)@ == old(cell)@
            } else {
                ret == s.current + 1 && final(cell)@ == Some(
                    s.with_thread(
                        s.current,
                        crate::thread::ThreadControlBlock {
                            clear_child_tid: tidptr,
                            ..s.current_tcb()
                        },
                    ),
                )
            },
            None => ret == 0 && final(cell)@ is None,
        },
{
    match &mut cell.scheduler {
        Some(scheduler) => scheduler.set_tid_address(tidptr),
        None => 0,
    }
}

} // verus!
