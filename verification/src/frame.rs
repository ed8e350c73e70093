//! The register frame saved on trap entry and restored on trap exit.
//!
//! The frame holds the 31 integer registers other than the zero register,
//! followed by the trapped program counter, the status register, the cause and
//! the trap value. It is a value: the scheduler copies it into and out of
//! thread control blocks.

use vstd::prelude::*;

use crate::arch::{ArchContext, FramePointerContext, SyscallFrame};
use crate::thread::ThreadContext;

verus! {

/// The registers captured when a trap is taken, in the order they are stored.
#[derive(Clone, Copy, Debug, PartialEq, Eq, Structural)]
pub struct TrapFrame {
    /// Return address (x1).
    pub ra: usize,
    /// Stack pointer (x2).
    pub sp: usize,
    /// Global pointer (x3).
    pub gp: usize,
    /// Thread pointer (x4).
    pub tp: usize,
    pub t0: usize,
    pub t1: usize,
    pub t2: usize,
    /// Saved register 0, the frame pointer (x8).
    pub s0: usize,
    pub s1: usize,
    /// Argument 0 and return value (x10).
    pub a0: usize,
    pub a1: usize,
    pub a2: usize,
    pub a3: usize,
    pub a4: usize,
    pub a5: usize,
    pub a6: usize,
    /// Argument 7, the syscall number (x17).
    pub a7: usize,
    pub s2: usize,
    pub s3: usize,
    pub s4: usize,
    pub s5: usize,
    pub s6: usize,
    pub s7: usize,
    pub s8: usize,
    pub s9: usize,
    pub s10: usize,
    pub s11: usize,
    pub t3: usize,
    pub t4: usize,
    pub t5: usize,
    pub t6: usize,
    /// The program counter the trap returns to.
    pub mepc: usize,
    /// The machine status register.
    pub mstatus: usize,
    /// The cause of the trap.
    pub mcause: usize,
    /// The trap value.
    pub mtval: usize,
}

/// The name the register frame goes by under Linux.
pub type PtRegs = TrapFrame;

impl TrapFrame {
    /// The frame with every register zero.
    pub open spec fn zeroed() -> TrapFrame {
        TrapFrame {
            ra: 0,
            sp: 0,
            gp: 0,
            tp: 0,
            t0: 0,
            t1: 0,
            t2: 0,
            s0: 0,
            s1: 0,
            a0: 0,
            a1: 0,
            a2: 0,
            a3: 0,
            a4: 0,
            a5: 0,
            a6: 0,
            a7: 0,
            s2: 0,
            s3: 0,
            s4: 0,
            s5: 0,
            s6: 0,
            s7: 0,
            s8: 0,
            s9: 0,
            s10: 0,
            s11: 0,
            t3: 0,
            t4: 0,
            t5: 0,
            t6: 0,
            mepc: 0,
            mstatus: 0,
            mcause: 0,
            mtval: 0,
        }
    }
}

impl ArchContext for TrapFrame {
    open spec fn context(&self) -> ThreadContext {
        ThreadContext { sp: self.sp, tp: self.tp, ra: self.ra, gp: self.gp, retval: self.a0 }
    }

    open spec fn with_context(&self, ctx: ThreadContext) -> TrapFrame {
        TrapFrame { sp: ctx.sp, tp: ctx.tp, ra: ctx.ra, gp: ctx.gp, a0: ctx.retval, ..*self }
    }

    proof fn lemma_with_context(&self, a: ThreadContext, b: ThreadContext) {
    }

    fn new() -> (frame: TrapFrame)
        ensures
            frame == TrapFrame::zeroed(),
    {
        TrapFrame {
            ra: 0,
            sp: 0,
            gp: 0,
            tp: 0,
            t0: 0,
            t1: 0,
            t2: 0,
            s0: 0,
            s1: 0,
            a0: 0,
            a1: 0,
            a2: 0,
            a3: 0,
            a4: 0,
            a5: 0,
            a6: 0,
            a7: 0,
            s2: 0,
            s3: 0,
            s4: 0,
            s5: 0,
            s6: 0,
            s7: 0,
            s8: 0,
            s9: 0,
            s10: 0,
            s11: 0,
            t3: 0,
            t4: 0,
            t5: 0,
            t6: 0,
            mepc: 0,
            mstatus: 0,
            mcause: 0,
            mtval: 0,
        }
    }

    fn sp(&self) -> (v: usize) {
        self.sp
    }

    fn set_sp(&mut self, sp: usize)
        ensures
            *final(self) == (TrapFrame { sp, ..*old(self) }),
    {
        self.sp = sp;
    }

    fn tp(&self) -> (v: usize) {
        self.tp
    }

    fn set_tp(&mut self, tp: usize)
        ensures
            *final(self) == (TrapFrame { tp, ..*old(self) }),
    {
        self.tp = tp;
    }

    fn return_value(&self) -> (v: usize) {
        self.a0
    }

    fn set_return_value(&mut self, val: usize)
        ensures
            *final(self) == (TrapFrame { a0: val, ..*old(self) }),
    {
        self.a0 = val;
    }

    fn ra(&self) -> (v: usize) {
        self.ra
    }

    fn set_ra(&mut self, ra: usize)
        ensures
            *final(self) == (TrapFrame { ra, ..*old(self) }),
    {
        self.ra = ra;
    }

    fn gp(&self) -> (v: usize) {
        self.gp
    }

    fn set_gp(&mut self, gp: usize)
        ensures
            *final(self) == (TrapFrame { gp, ..*old(self) }),
    {
        self.gp = gp;
    }
}

impl FramePointerContext for TrapFrame {
    open spec fn frame_pointer(&self) -> usize {
        self.s0
    }

    fn set_frame_pointer(&mut self, fp: usize)
        ensures
            *final(self) == (TrapFrame { s0: fp, ..*old(self) }),
    {
        self.s0 = fp;
    }
}

impl SyscallFrame for TrapFrame {
    open spec fn spec_pc(&self) -> usize {
        self.mepc
    }

    open spec fn spec_syscall_number(&self) -> usize {
        self.a7
    }

    open spec fn spec_arg(&self, idx: usize) -> usize {
        if idx == 0 {
            self.a0
        } else if idx == 1 {
            self.a1
        } else if idx == 2 {
            self.a2
        } else if idx == 3 {
            self.a3
        } else if idx == 4 {
            self.a4
        } else if idx == 5 {
            self.a5
        } else {
            0
        }
    }

    open spec fn spec_ret(&self) -> isize {
        self.a0 as isize
    }

    fn pc(&self) -> (v: usize) {
        self.mepc
    }

    fn syscall_number(&self) -> (v: usize) {
        self.a7
    }

    fn arg(&self, idx: usize) -> (v: usize) {
        match idx {
            0 => self.a0,
            1 => self.a1,
            2 => self.a2,
            3 => self.a3,
            4 => self.a4,
            5 => self.a5,
            _ => 0,
        }
    }

    fn set_ret(&mut self, ret: isize)
        ensures
            *final(self) == (TrapFrame { a0: ret as usize, ..*old(self) }),
    {
        proof {
            lemma_word_round_trip(ret);
        }
        self.a0 = ret as usize;
    }
}

/// A signed word survives the trip through its unsigned register image.
pub proof fn lemma_word_round_trip(v: isize)
    ensures
        (v as usize) as isize == v,
{
    assert((v as usize) as isize == v) by (bit_vector);
}

} // verus!
