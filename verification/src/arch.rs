//! What the scheduler and the syscall layer need from a saved register set.
//!
//! The scheduler never looks at a whole register frame. It reads and writes
//! five registers through [`ArchContext`] and leaves the rest to the
//! architecture, so the same code serves the full trap frame and the reduced
//! per-thread context.

use vstd::prelude::*;

use crate::thread::ThreadContext;

verus! {

/// A saved register set that exposes the scheduler's five registers.
///
/// `context` is the projection onto those registers and `with_context` puts a
/// projection back, leaving every other register alone. Each setter is stated
/// through the two, so a caller knows the whole value after a call.
pub trait ArchContext: Copy + Sized {
    /// The scheduler's registers as this value holds them.
    spec fn context(&self) -> ThreadContext;

    /// This value with the scheduler's registers replaced by `ctx`.
    spec fn with_context(&self, ctx: ThreadContext) -> Self;

    /// Putting registers back and reading them again gives the same
    /// registers; a later write hides an earlier one; writing back what is
    /// already there changes nothing.
    proof fn lemma_with_context(&self, a: ThreadContext, b: ThreadContext)
        ensures
            self.with_context(a).context() == a,
            self.with_context(a).with_context(b) == self.with_context(b),
            self.with_context(self.context()) == *self,
    ;

    /// A register set with the scheduler's registers all zero.
    fn new() -> (ctx: Self)
        ensures
            ctx.context() == ThreadContext::zeroed(),
    ;

    fn sp(&self) -> (v: usize)
        ensures
            v == self.context().sp,
    ;

    fn set_sp(&mut self, sp: usize)
        ensures
            *final(self) == old(self).with_context(ThreadContext { sp, ..old(self).context() }),
    ;

    fn tp(&self) -> (v: usize)
        ensures
            v == self.context().tp,
    ;

    fn set_tp(&mut self, tp: usize)
        ensures
            *final(self) == old(self).with_context(ThreadContext { tp, ..old(self).context() }),
    ;

    fn return_value(&self) -> (v: usize)
        ensures
            v == self.context().retval,
    ;

    fn set_return_value(&mut self, val: usize)
        ensures
            *final(self) == old(self).with_context(
                ThreadContext { retval: val, ..old(self).context() },
            ),
    ;

    fn ra(&self) -> (v: usize)
        ensures
            v == self.context().ra,
    ;

    fn set_ra(&mut self, ra: usize)
        ensures
            *final(self) == old(self).with_context(ThreadContext { ra, ..old(self).context() }),
    ;

    fn gp(&self) -> (v: usize)
        ensures
            v == self.context().gp,
    ;

    fn set_gp(&mut self, gp: usize)
        ensures
            *final(self) == old(self).with_context(ThreadContext { gp, ..old(self).context() }),
    ;
}

/// A trapped frame as the syscall layer reads it.
pub trait SyscallFrame: Sized {
    /// The program counter the frame resumes at.
    spec fn spec_pc(&self) -> usize;

    /// The number of the requested syscall.
    spec fn spec_syscall_number(&self) -> usize;

    /// Syscall argument `idx`; zero past the last argument register.
    spec fn spec_arg(&self, idx: usize) -> usize;

    /// The syscall result the frame carries back to the caller.
    spec fn spec_ret(&self) -> isize;

    fn pc(&self) -> (v: usize)
        ensures
            v == self.spec_pc(),
    ;

    fn syscall_number(&self) -> (v: usize)
        ensures
            v == self.spec_syscall_number(),
    ;

    fn arg(&self, idx: usize) -> (v: usize)
        ensures
            v == self.spec_arg(idx),
    ;

    /// Stores the syscall result. The result register may double as an
    /// argument register; the program counter and the syscall number are kept.
    fn set_ret(&mut self, ret: isize)
        ensures
            final(self).spec_ret() == ret,
            final(self).spec_pc() == old(self).spec_pc(),
            final(self).spec_syscall_number() == old(self).spec_syscall_number(),
    ;
}

/// A frame that holds a frame-pointer register.
pub trait FramePointerContext {
    /// The frame pointer the frame holds.
    spec fn frame_pointer(&self) -> usize;

    fn set_frame_pointer(&mut self, fp: usize)
        ensures
            final(self).frame_pointer() == fp,
    ;
}

} // verus!
