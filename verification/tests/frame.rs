use zeroos::arch::{ArchContext, FramePointerContext, SyscallFrame};
use zeroos::frame::TrapFrame;
use zeroos::thread::{
    apply_thread_ctx_to_frame, sync_thread_ctx_from_frame, ThreadContext, ThreadControlBlock,
    ThreadState,
};

fn sample() -> TrapFrame {
    let mut f = TrapFrame::new();
    f.ra = 1;
    f.sp = 2;
    f.gp = 3;
    f.tp = 4;
    f.s0 = 8;
    f.a0 = 10;
    f.a1 = 11;
    f.a2 = 12;
    f.a3 = 13;
    f.a4 = 14;
    f.a5 = 15;
    f.a6 = 16;
    f.a7 = 17;
    f.mepc = 0x4000;
    f.mstatus = 0x1800;
    f.mcause = 8;
    f.mtval = 9;
    f
}

#[test]
fn new_frame_is_all_zero() {
    let f = TrapFrame::new();
    assert_eq!(f.sp(), 0);
    assert_eq!(f.tp(), 0);
    assert_eq!(f.ra(), 0);
    assert_eq!(f.gp(), 0);
    assert_eq!(f.return_value(), 0);
    assert_eq!(f.pc(), 0);
    assert_eq!(f.syscall_number(), 0);
    assert_eq!(f.mstatus, 0);
    assert_eq!(f.t6, 0);
    assert_eq!(f, TrapFrame { ..f });
}

#[test]
fn frame_getters_read_their_registers() {
    let f = sample();
    assert_eq!(f.ra(), 1);
    assert_eq!(f.sp(), 2);
    assert_eq!(f.gp(), 3);
    assert_eq!(f.tp(), 4);
    assert_eq!(f.return_value(), 10);
    assert_eq!(f.pc(), 0x4000);
    assert_eq!(f.syscall_number(), 17);
}

#[test]
fn frame_setters_change_one_register() {
    let mut f = sample();
    f.set_sp(0x100);
    assert_eq!(f, TrapFrame { sp: 0x100, ..sample() });
    f.set_tp(0x200);
    f.set_ra(0x300);
    f.set_gp(0x400);
    f.set_return_value(0x500);
    assert_eq!(
        f,
        TrapFrame { sp: 0x100, tp: 0x200, ra: 0x300, gp: 0x400, a0: 0x500, ..sample() }
    );
    f.set_frame_pointer(0x600);
    assert_eq!(f.s0, 0x600);
}

#[test]
fn syscall_arguments_come_from_a0_to_a5() {
    let f = sample();
    for idx in 0..6 {
        assert_eq!(f.arg(idx), 10 + idx);
    }
    assert_eq!(f.arg(6), 0);
    assert_eq!(f.arg(7), 0);
    assert_eq!(f.arg(usize::MAX), 0);
}

#[test]
fn set_ret_stores_the_result_in_a0() {
    let mut f = sample();
    f.set_ret(42);
    assert_eq!(f, TrapFrame { a0: 42, ..sample() });
    f.set_ret(-38);
    assert_eq!(f.a0, (-38isize) as usize);
    assert_eq!(f.return_value() as isize, -38);
}

#[test]
fn thread_context_accessors() {
    let mut c = ThreadContext::new();
    assert_eq!(c, ThreadContext { sp: 0, tp: 0, ra: 0, gp: 0, retval: 0 });
    c.set_sp(1);
    c.set_tp(2);
    c.set_ra(3);
    c.set_gp(4);
    c.set_return_value(5);
    assert_eq!(c, ThreadContext { sp: 1, tp: 2, ra: 3, gp: 4, retval: 5 });
    assert_eq!((c.sp(), c.tp(), c.ra(), c.gp(), c.return_value()), (1, 2, 3, 4, 5));
}

#[test]
fn sync_reads_the_five_registers() {
    let mut c = ThreadContext::new();
    sync_thread_ctx_from_frame(&mut c, &sample());
    assert_eq!(c, ThreadContext { sp: 2, tp: 4, ra: 1, gp: 3, retval: 10 });
}

#[test]
fn apply_writes_the_five_registers_and_no_other() {
    let mut f = sample();
    let c = ThreadContext { sp: 0x20, tp: 0x40, ra: 0x10, gp: 0x30, retval: 0xa0 };
    apply_thread_ctx_to_frame(&mut f, &c);
    assert_eq!(
        f,
        TrapFrame { sp: 0x20, tp: 0x40, ra: 0x10, gp: 0x30, a0: 0xa0, ..sample() }
    );
    let mut back = ThreadContext::new();
    sync_thread_ctx_from_frame(&mut back, &f);
    assert_eq!(back, c);
}

#[test]
fn apply_works_between_two_contexts() {
    let mut target = ThreadContext::new();
    let c = ThreadContext { sp: 1, tp: 2, ra: 3, gp: 4, retval: 5 };
    apply_thread_ctx_to_frame(&mut target, &c);
    assert_eq!(target, c);
}

#[test]
fn new_control_block_is_ready() {
    let tcb = ThreadControlBlock::new(7, 0x8000, 0x9000, 0x4000);
    assert_eq!(tcb.tid, 7);
    assert_eq!(tcb.state, ThreadState::Ready);
    assert_eq!(tcb.saved_pc, 0x4000);
    assert_eq!(tcb.futex_wait_addr, 0);
    assert_eq!(tcb.clear_child_tid, 0);
    assert_eq!(
        tcb.thread_ctx,
        ThreadContext { sp: 0x8000, tp: 0x9000, ra: 0, gp: 0, retval: 0 }
    );
    assert_eq!(tcb.trap_frame, TrapFrame { sp: 0x8000, tp: 0x9000, ..TrapFrame::new() });
}
