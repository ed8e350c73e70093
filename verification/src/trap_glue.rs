//! Keeping the live register frame and the thread table in agreement across
//! a trap.
//!
//! A trap saves the registers of the thread that trapped, but the syscall it
//! carries may hand the CPU to another thread. `update_frame` runs before the
//! syscall: it copies the live frame into the current thread's control block
//! and remembers that thread. `finish_trap` runs after it: if another thread is
//! current by then, it hands back that thread's registers and resume address
//! for the caller to put in the live frame, so that the trap returns into the
//! thread the scheduler chose.

use vstd::prelude::*;

use crate::arch::ArchContext;
use crate::frame::TrapFrame;
use crate::ops::SchedulerCell;
use crate::scheduler::{Scheduler, SchedulerView};
use crate::thread::{
    apply_thread_ctx_to_frame, sync_thread_ctx_from_frame, ThreadControlBlock,
};

verus! {

/// What the end of a trap asks of its caller: the frame to write over the
/// live frame and the address to write over the trapped program counter.
/// Both are absent when the trap returns to the thread it came from.
#[derive(Clone, Copy, Debug, PartialEq, Eq, Structural)]
pub struct TrapExit {
    pub frame: Option<TrapFrame>,
    pub pc: Option<usize>,
}

impl TrapExit {
    /// Nothing to write back.
    pub open spec fn unchanged() -> TrapExit {
        TrapExit { frame: None, pc: None }
    }

    /// The live frame after the write-back.
    pub open spec fn live_frame(self, frame: TrapFrame) -> TrapFrame {
        match self.frame {
            Some(f) => f,
            None => frame,
        }
    }
}

/// The control block `tcb` after the live frame `frame` is saved in it: the
/// frame is kept whole and the scheduler's registers are read out of it.
pub open spec fn captured(tcb: ThreadControlBlock, frame: TrapFrame, pc: usize)
    -> ThreadControlBlock {
    ThreadControlBlock { trap_frame: frame, thread_ctx: frame.context(), saved_pc: pc, ..tcb }
}

impl SchedulerView {
    /// The scheduler after the live frame is saved in the current thread.
    /// Without a frame or a thread nothing changes.
    pub open spec fn frame_updated(self, frame: Option<TrapFrame>, pc: usize) -> Self {
        match frame {
            Some(f) => if self.threads.len() > 0 {
                self.with_thread(self.current, captured(self.current_tcb(), f, pc))
            } else {
                self
            },
            None => self,
        }
    }

    /// The scheduler after a trap is entered: the live frame is saved in the
    /// current thread, and that thread is remembered as the one that trapped.
    /// Before the first thread exists nothing changes.
    pub open spec fn trap_entered(self, frame: Option<TrapFrame>, pc: usize) -> Self {
        if self.threads.len() > 0 {
            SchedulerView { last_trap: Some(self.current), ..self.frame_updated(frame, pc) }
        } else {
            self
        }
    }

    /// A trap is in flight and the thread that entered it is no longer
    /// current.
    pub open spec fn switched(self) -> bool {
        match self.last_trap {
            Some(e) => e != self.current,
            None => false,
        }
    }

    /// The thread table once the thread that entered the trap has the live
    /// frame saved in it. Its resume address is replaced only if the caller
    /// has one.
    pub open spec fn entry_saved(self, frame: TrapFrame, pc: Option<usize>) -> Seq<
        ThreadControlBlock,
    > {
        match self.last_trap {
            Some(e) => self.threads.update(
                e,
                captured(
                    self.threads[e],
                    frame,
                    match pc {
                        Some(p) => p,
                        None => self.threads[e].saved_pc,
                    },
                ),
            ),
            None => self.threads,
        }
    }

    /// The frame the current thread resumes with: its saved frame, with the
    /// scheduler's registers taken from its context.
    pub open spec fn resume_frame(self) -> TrapFrame {
        self.current_tcb().trap_frame.with_context(self.current_tcb().thread_ctx)
    }

    /// What the end of a trap hands back. Without a live frame, or when the
    /// thread that entered the trap is still current, that is nothing.
    /// Otherwise it is the current thread's resume frame and, if the caller
    /// has a program counter to overwrite, the thread's resume address.
    pub open spec fn trap_exit(self, frame: Option<TrapFrame>, pc: Option<usize>) -> TrapExit {
        if frame is Some && self.switched() {
            TrapExit {
                frame: Some(self.resume_frame()),
                pc: match pc {
                    Some(_) => Some(self.current_tcb().saved_pc),
                    None => None,
                },
            }
        } else {
            TrapExit::unchanged()
        }
    }

    /// The scheduler after a trap ends. No trap is in flight any more,
    /// whatever the caller brings. With a live frame, the thread that entered
    /// the trap has the frame saved in it, and if another thread is current,
    /// that thread's saved frame takes the registers of its context. Without
    /// a live frame no thread changes.
    pub open spec fn trap_finished(self, frame: Option<TrapFrame>, pc: Option<usize>) -> Self {
        match frame {
            Some(f) => {
                let saved = self.entry_saved(f, pc);
                SchedulerView {
                    threads: if self.switched() {
                        saved.update(
                            self.current,
                            ThreadControlBlock {
                                trap_frame: self.resume_frame(),
                                ..saved[self.current]
                            },
                        )
                    } else {
                        saved
                    },
                    last_trap: None,
                    ..self
                }
            },
            None => SchedulerView { last_trap: None, ..self },
        }
    }
}

impl Scheduler {
    /// Saves the live frame `frame`, trapped at `mepc`, in the current
    /// thread's control block. Does nothing without a frame or a thread.
    pub fn update_current_from_frame(&mut self, frame: Option<TrapFrame>, mepc: usize)
        requires
            old(self).wf(),
        ensures
            final(self).wf(),
            final(self)@ == old(self)@.frame_updated(frame, mepc),
    {
        match frame {
            None => {},
            Some(f) => {
                if self.current_index < self.threads.len() {
                    let cur = self.current_index;
                    self.threads[cur].trap_frame = f;
                    sync_thread_ctx_from_frame(&mut self.threads[cur].thread_ctx, &f);
                    self.threads[cur].saved_pc = mepc;
                    assert(self@.threads =~= old(self)@.frame_updated(frame, mepc).threads);
                }
            },
        }
    }

    /// Enters a trap: saves the live frame `frame`, trapped at `mepc`, in
    /// the current thread and remembers that thread as the one that trapped.
    /// Does nothing before the first thread exists.
    pub fn update_frame(&mut self, frame: Option<TrapFrame>, mepc: usize)
        requires
            old(self).wf(),
        ensures
            final(self).wf(),
            final(self)@ == old(self)@.trap_entered(frame, mepc),
    {
        if self.thread_count() != 0 {
            self.update_current_from_frame(frame, mepc);
            self.last_trap_thread = Some(self.current_index);
        }
    }

    /// Ends a trap. `frame` is the live frame as the syscall left it and `pc`
    /// the trapped program counter, each absent if the caller has none.
    ///
    /// The thread that entered the trap has the live frame saved in it. If
    /// another thread is current, the result holds that thread's registers
    /// and resume address for the caller to write back; if the same thread is
    /// current, the result is empty and the live frame stays as it is.
    /// Without a live frame nothing is saved and nothing handed back. In
    /// every case no trap is in flight afterwards, so that one entry into a
    /// trap is matched by at most one end.
    pub fn finish_trap(
        &mut self,
        frame: Option<TrapFrame>,
        pc: Option<usize>,
        _mepc: usize,
    ) -> (exit: TrapExit)
        requires
            old(self).wf(),
        ensures
            final(self).wf(),
            final(self)@ == old(self)@.trap_finished(frame, pc),
            exit == old(self)@.trap_exit(frame, pc),
            !old(self)@.switched() ==> exit == TrapExit::unchanged(),
            final(self)@.last_trap is None,
            frame is None ==> final(self)@.threads == old(self)@.threads,
            final(self)@.current == old(self)@.current,
            final(self)@.threads.len() == old(self)@.threads.len(),
    {
        let entry = self.last_trap_thread;
        self.last_trap_thread = None;
        let f = match frame {
            None => {
                return TrapExit { frame: None, pc: None };
            },
            Some(f) => f,
        };
        let mut exit = TrapExit { frame: None, pc: None };
        let mut switched = false;
        match entry {
            Some(e) => {
                switched = e != self.current_index;
                self.threads[e].trap_frame = f;
                sync_thread_ctx_from_frame(&mut self.threads[e].thread_ctx, &f);
                match pc {
                    Some(p) => {
                        self.threads[e].saved_pc = p;
                    },
                    None => {},
                }
            },
            None => {},
        }
        if switched {
            let cur = self.current_index;
            let ctx = self.threads[cur].thread_ctx;
            apply_thread_ctx_to_frame(&mut self.threads[cur].trap_frame, &ctx);
            exit.frame = Some(self.threads[cur].trap_frame);
            match pc {
                Some(_) => {
                    exit.pc = Some(self.threads[cur].saved_pc);
                },
                None => {},
            }
        }
        assert(self@.threads =~= old(self)@.trap_finished(frame, pc).threads);
        exit
    }
}

/// Enters a trap: saves the live frame `frame`, trapped at `mepc`, in the
/// current thread and remembers that thread. Does nothing without a scheduler
/// or before the first thread exists.
pub fn update_frame(cell: &mut SchedulerCell, frame: Option<TrapFrame>, mepc: usize)
    requires
        old(cell).wf(),
    ensures
        final(cell).wf(),
        final(cell)@ == match old(cell)@ {
            Some(s) => Some(s.trap_entered(frame, mepc)),
            None => None,
        },
{
    match &mut cell.scheduler {
        Some(scheduler) => scheduler.update_frame(frame, mepc),
        None => {},
    }
}

/// Ends a trap; see [`Scheduler::finish_trap`]. No trap is in flight
/// afterwards, with or without a live frame. Without a scheduler nothing is
/// written back.
pub fn finish_trap(
    cell: &mut SchedulerCell,
    frame: Option<TrapFrame>,
    pc: Option<usize>,
    mepc: usize,
) -> (exit: TrapExit)
    requires
        old(cell).wf(),
    ensures
        final(cell).wf(),
        match old(cell)@ {
            Some(s) => final(cell)@ == Some(s.trap_finished(frame, pc)) && exit == s.trap_exit(
                frame,
                pc,
            ),
            None => final(cell)@ is None && exit == TrapExit::unchanged(),
        },
        final(cell)@ is Some ==> final(cell)@.unwrap().last_trap is None,
{
    match &mut cell.scheduler {
        Some(scheduler) => scheduler.finish_trap(frame, pc, mepc),
        None => TrapExit { frame: None, pc: None },
    }
}

} // verus!
