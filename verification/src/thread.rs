//! Thread control blocks and the reduced register context kept in them.

use vstd::prelude::*;

use crate::arch::ArchContext;
use crate::frame::TrapFrame;

verus! {

/// A thread identifier: positive, handed out in increasing order, with `1`
/// reserved for the main thread.
pub type Tid = usize;

/// The registers the scheduler preserves across a voluntary switch.
#[derive(Clone, Copy, Debug, PartialEq, Eq, Structural)]
pub struct ThreadContext {
    /// Stack pointer.
    pub sp: usize,
    /// Thread pointer.
    pub tp: usize,
    /// Return address.
    pub ra: usize,
    /// Global pointer.
    pub gp: usize,
    /// The value the pending syscall returns to the thread.
    pub retval: usize,
}

impl ThreadContext {
    /// The context with every register zero.
    pub open spec fn zeroed() -> ThreadContext {
        ThreadContext { sp: 0, tp: 0, ra: 0, gp: 0, retval: 0 }
    }
}

impl ArchContext for ThreadContext {
    open spec fn context(&self) -> ThreadContext {
        *self
    }

    open spec fn with_context(&self, ctx: ThreadContext) -> ThreadContext {
        ctx
    }

    proof fn lemma_with_context(&self, a: ThreadContext, b: ThreadContext) {
    }

    fn new() -> (ctx: ThreadContext) {
        ThreadContext { sp: 0, tp: 0, ra: 0, gp: 0, retval: 0 }
    }

    fn sp(&self) -> (v: usize) {
        self.sp
    }

    fn set_sp(&mut self, sp: usize) {
        self.sp = sp;
    }

    fn tp(&self) -> (v: usize) {
        self.tp
    }

    fn set_tp(&mut self, tp: usize) {
        self.tp = tp;
    }

    fn return_value(&self) -> (v: usize) {
        self.retval
    }

    fn set_return_value(&mut self, val: usize) {
        self.retval = val;
    }

    fn ra(&self) -> (v: usize) {
        self.ra
    }

    fn set_ra(&mut self, ra: usize) {
        self.ra = ra;
    }

    fn gp(&self) -> (v: usize) {
        self.gp
    }

    fn set_gp(&mut self, gp: usize) {
        self.gp = gp;
    }
}

/// Copies the scheduler's registers out of `frame` into `thread_ctx`.
pub fn sync_thread_ctx_from_frame<C: ArchContext>(thread_ctx: &mut ThreadContext, frame: &C)
    ensures
        *final(thread_ctx) == frame.context(),
{
    thread_ctx.set_sp(frame.sp());
    thread_ctx.set_tp(frame.tp());
    thread_ctx.set_ra(frame.ra());
    thread_ctx.set_gp(frame.gp());
    thread_ctx.set_return_value(frame.return_value());
}

/// Writes the scheduler's registers from `thread_ctx` into `frame` and leaves
/// every other register of `frame` as it was.
pub fn apply_thread_ctx_to_frame<C: ArchContext>(frame: &mut C, thread_ctx: &ThreadContext)
    ensures
        *final(frame) == old(frame).with_context(*thread_ctx),
{
    let ghost f0 = *frame;
    let ghost c0 = f0.context();
    let ghost c1 = ThreadContext { sp: thread_ctx.sp, ..c0 };
    let ghost c2 = ThreadContext { tp: thread_ctx.tp, ..c1 };
    let ghost c3 = ThreadContext { ra: thread_ctx.ra, ..c2 };
    let ghost c4 = ThreadContext { gp: thread_ctx.gp, ..c3 };
    proof {
        f0.lemma_with_context(c1, c2);
        f0.lemma_with_context(c2, c3);
        f0.lemma_with_context(c3, c4);
        f0.lemma_with_context(c4, *thread_ctx);
    }
    frame.set_sp(thread_ctx.sp());
    frame.set_tp(thread_ctx.tp());
    frame.set_ra(thread_ctx.ra());
    frame.set_gp(thread_ctx.gp());
    frame.set_return_value(thread_ctx.return_value());
}

/// Where a thread stands in its life.
///
/// A thread moves between `Ready` and `Running` as the scheduler picks it,
/// from `Running` to `Blocked` when it waits on a futex word, from `Blocked`
/// back to `Ready` when it is woken, and to `Exited` when it exits. `Exited`
/// is final.
#[derive(Clone, Copy, Debug, PartialEq, Eq, Structural)]
pub enum ThreadState {
    Ready,
    Running,
    Blocked,
    Exited,
}

/// The scheduler's record of one thread.
#[derive(Clone, Copy, Debug, PartialEq, Eq, Structural)]
pub struct ThreadControlBlock {
    /// The full register frame as last seen at a trap.
    pub trap_frame: TrapFrame,
    /// The registers the scheduler restores when the thread next runs.
    pub thread_ctx: ThreadContext,
    /// The thread's identifier; never changes.
    pub tid: Tid,
    pub state: ThreadState,
    /// The address the thread resumes at.
    pub saved_pc: usize,
    /// The futex word a blocked thread waits on.
    pub futex_wait_addr: usize,
    /// The word to zero, and to wake waiters on, when the thread exits; zero
    /// for none.
    pub clear_child_tid: usize,
}

impl ThreadControlBlock {
    /// A thread that has not run yet: `Ready`, with a zero frame but for its
    /// stack and thread pointers.
    pub open spec fn fresh(tid: Tid, initial_sp: usize, tls: usize, initial_pc: usize) -> Self {
        ThreadControlBlock {
            trap_frame: TrapFrame { sp: initial_sp, tp: tls, ..TrapFrame::zeroed() },
            thread_ctx: ThreadContext { sp: initial_sp, tp: tls, ..ThreadContext::zeroed() },
            tid,
            state: ThreadState::Ready,
            saved_pc: initial_pc,
            futex_wait_addr: 0,
            clear_child_tid: 0,
        }
    }

    /// Whether the thread is blocked waiting on the futex word at `addr`.
    pub open spec fn waits_on(self, addr: usize) -> bool {
        self.state == ThreadState::Blocked && self.futex_wait_addr == addr
    }

    /// The control block of a thread that starts at `initial_pc` on the
    /// stack `initial_sp` with the thread pointer `tls`.
    pub fn new(tid: Tid, initial_sp: usize, tls: usize, initial_pc: usize) -> (tcb: Self)
        ensures
            tcb == Self::fresh(tid, initial_sp, tls, initial_pc),
    {
        let mut trap_frame = TrapFrame::new();
        let mut thread_ctx = ThreadContext::new();
        thread_ctx.set_sp(initial_sp);
        thread_ctx.set_tp(tls);
        trap_frame.set_sp(thread_ctx.sp());
        trap_frame.set_tp(thread_ctx.tp());
        trap_frame.set_ra(thread_ctx.ra());
        trap_frame.set_gp(thread_ctx.gp());
        trap_frame.set_return_value(thread_ctx.return_value());
        ThreadControlBlock {
            trap_frame,
            thread_ctx,
            tid,
            state: ThreadState::Ready,
            saved_pc: initial_pc,
            futex_wait_addr: 0,
            clear_child_tid: 0,
        }
    }
}

} // verus!
