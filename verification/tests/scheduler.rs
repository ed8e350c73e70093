use zeroos::arch::ArchContext;
use zeroos::frame::TrapFrame;
use zeroos::memory::WordStore;
use zeroos::scheduler::{exit_word, ExitOutcome, Scheduler, MAX_THREADS};
use zeroos::thread::{ThreadContext, ThreadState};
use zeroos::trap_glue::TrapExit;

fn parent_frame() -> TrapFrame {
    let mut frame = TrapFrame::new();
    frame.ra = 0x100;
    frame.sp = 0x7000;
    frame.gp = 0x200;
    frame.tp = 0x300;
    frame.a0 = 0x55;
    frame.a1 = 0x66;
    frame.s0 = 0x6ff0;
    frame.mepc = 0x4000;
    frame
}

fn state_of(s: &Scheduler, slot: usize) -> ThreadState {
    s.thread(slot).unwrap().state
}

fn states(s: &Scheduler) -> Vec<ThreadState> {
    (0..s.thread_count()).map(|i| state_of(s, i)).collect()
}

fn running_count(s: &Scheduler) -> usize {
    states(s).iter().filter(|st| **st == ThreadState::Running).count()
}

fn with_threads(n: usize) -> Scheduler {
    let mut s = Scheduler::new();
    for _ in 1..n {
        assert!(s.spawn_thread(parent_frame(), 0x8000, 0x9000, 0, 0x4004) > 0);
    }
    s
}

#[test]
fn default_scheduler_is_empty() {
    let s = Scheduler::default();
    assert_eq!(s.thread_count(), 0);
    assert_eq!(s.current_tid_or_1(), 1);
}

#[test]
fn fresh_scheduler_is_empty() {
    let s = Scheduler::new();
    assert_eq!(s.thread_count(), 0);
    assert!(s.current_thread().is_none());
    assert_eq!(s.current_slot(), None);
    assert_eq!(s.current_tid_or_1(), 1);
}

#[test]
fn first_spawn_makes_main_and_child() {
    let mut s = Scheduler::new();
    let tid = s.spawn_thread(parent_frame(), 0x8000, 0x9000, 0, 0x4004);
    assert_eq!(tid, 2);
    assert_eq!(s.thread_count(), 2);
    assert_eq!(s.current_tid_or_1(), 1);

    let main = *s.thread(0).unwrap();
    assert_eq!(main.tid, 1);
    assert_eq!(main.state, ThreadState::Running);
    assert_eq!(main.trap_frame, parent_frame());
    assert_eq!(main.saved_pc, 0x4004);
    assert_eq!(
        main.thread_ctx,
        ThreadContext { sp: 0x7000, tp: 0x300, ra: 0x100, gp: 0x200, retval: 2 }
    );
    assert_eq!(main.futex_wait_addr, 0);
    assert_eq!(main.clear_child_tid, 0);

    let child = *s.thread(1).unwrap();
    assert_eq!(child.tid, 2);
    assert_eq!(child.state, ThreadState::Ready);
    assert_eq!(child.saved_pc, 0x4004);
    assert_eq!(
        child.thread_ctx,
        ThreadContext { sp: 0x8000, tp: 0x9000, ra: 0x100, gp: 0x200, retval: 0 }
    );
    let mut expected = parent_frame();
    expected.sp = 0x8000;
    expected.tp = 0x9000;
    expected.a0 = 0;
    expected.s0 = 0x8000;
    assert_eq!(child.trap_frame, expected);
}

#[test]
fn spawn_masks_the_stack_to_sixteen_bytes() {
    let mut s = Scheduler::new();
    s.spawn_thread(parent_frame(), 0x800f, 0, 0, 0);
    assert_eq!(s.thread(1).unwrap().thread_ctx.sp(), 0x8000);
    assert_eq!(s.thread(1).unwrap().trap_frame.sp, 0x8000);
    assert_eq!(s.thread(1).unwrap().trap_frame.s0, 0x8000);
    s.spawn_thread(parent_frame(), 0x8010, 0, 0, 0);
    assert_eq!(s.thread(2).unwrap().thread_ctx.sp(), 0x8010);
}

#[test]
fn spawn_numbers_rise_by_one() {
    let mut s = Scheduler::new();
    for expected in 2..=10 {
        assert_eq!(s.spawn_thread(parent_frame(), 0x8000, 0, 0, 0), expected);
        assert_eq!(s.thread_count(), expected as usize);
        assert_eq!(s.thread(expected as usize - 1).unwrap().tid, expected as usize);
        assert_eq!(s.thread(0).unwrap().thread_ctx.retval, expected as usize);
    }
}

#[test]
fn spawn_fails_when_the_table_is_full() {
    let mut s = with_threads(MAX_THREADS);
    assert_eq!(s.thread_count(), 64);
    s.yield_now();
    assert_eq!(s.current_tid_or_1(), 2);
    let before = *s.current_thread().unwrap();
    assert_eq!(s.spawn_thread(parent_frame(), 0x8000, 0, 0, 0), -1);
    assert_eq!(s.thread_count(), 64);
    assert_eq!(*s.current_thread().unwrap(), before);
    assert_eq!(s.spawn_thread(parent_frame(), 0x8000, 0, 0, 0), -1);
}

#[test]
fn spawn_records_the_clear_word() {
    let mut s = Scheduler::new();
    s.spawn_thread(parent_frame(), 0x8000, 0, 0xa000, 0);
    assert_eq!(s.thread(0).unwrap().clear_child_tid, 0);
    assert_eq!(s.thread(1).unwrap().clear_child_tid, 0xa000);
}

#[test]
fn yield_on_an_empty_scheduler_does_nothing() {
    let mut s = Scheduler::new();
    s.yield_now();
    assert_eq!(s.thread_count(), 0);
}

#[test]
fn yield_moves_to_the_next_ready_thread() {
    let mut s = with_threads(3);
    s.yield_now();
    assert_eq!(
        states(&s),
        vec![ThreadState::Ready, ThreadState::Running, ThreadState::Ready]
    );
    assert_eq!(s.current_slot(), Some(1));
    assert_eq!(s.thread(0).unwrap().thread_ctx.retval, 0);
    s.yield_now();
    assert_eq!(s.current_slot(), Some(2));
    s.yield_now();
    assert_eq!(s.current_slot(), Some(0));
    assert_eq!(
        states(&s),
        vec![ThreadState::Running, ThreadState::Ready, ThreadState::Ready]
    );
}

#[test]
fn yield_with_one_thread_keeps_it_running() {
    let mut s = with_threads(2);
    s.yield_now();
    assert_eq!(s.exit_current_and_yield(0).ret, 0);
    assert_eq!(s.current_slot(), Some(0));
    s.yield_now();
    assert_eq!(s.current_slot(), Some(0));
    assert_eq!(states(&s), vec![ThreadState::Running, ThreadState::Exited]);
}

#[test]
fn yield_skips_blocked_and_exited_threads() {
    let mut s = with_threads(4);
    s.yield_now();
    assert_eq!(s.wait_on_addr(0xb000, 7, 7), 0);
    assert_eq!(s.current_slot(), Some(2));
    s.exit_current_and_yield(0);
    assert_eq!(s.current_slot(), Some(3));
    s.yield_now();
    assert_eq!(s.current_slot(), Some(0));
    s.yield_now();
    assert_eq!(s.current_slot(), Some(3));
    assert_eq!(
        states(&s),
        vec![
            ThreadState::Ready,
            ThreadState::Blocked,
            ThreadState::Exited,
            ThreadState::Running
        ]
    );
}

#[test]
fn n_yields_in_a_table_of_n_return_to_the_first_thread() {
    for n in 2..=8usize {
        let mut s = with_threads(n);
        let before = states(&s);
        for k in 1..=n {
            s.yield_now();
            assert_eq!(s.current_slot(), Some(k % n));
            assert_eq!(running_count(&s), 1);
        }
        assert_eq!(s.current_tid_or_1(), 1);
        assert_eq!(states(&s), before);
    }
}

#[test]
fn wait_with_a_changed_word_returns_at_once() {
    let mut s = with_threads(3);
    let before = states(&s);
    assert_eq!(s.wait_on_addr(0xb000, 1, 2), -11);
    assert_eq!(states(&s), before);
    assert_eq!(s.current_slot(), Some(0));
    assert_eq!(s.thread(0).unwrap().thread_ctx.retval, (-11isize) as usize);
    assert_eq!(s.thread(0).unwrap().futex_wait_addr, 0);
}

#[test]
fn wait_with_one_thread_is_a_deadlock() {
    let mut s = with_threads(2);
    s.yield_now();
    s.exit_current_and_yield(0);
    assert_eq!(s.wait_on_addr(0xb000, 1, 1), 0);

    let mut single = Scheduler::new();
    assert_eq!(single.wait_on_addr(0xb000, 1, 1), -35);
    assert_eq!(single.wait_on_addr(0xb000, 1, 2), -11);
}

#[test]
fn wait_in_a_process_of_one_thread_never_blocks() {
    let mut s = Scheduler::new();
    s.spawn_thread(parent_frame(), 0x8000, 0, 0, 0);
    // Two threads exist, so the wait blocks; with the table still empty it
    // must not.
    let mut empty = Scheduler::new();
    assert_eq!(empty.wait_on_addr(0xb000, 3, 3), -35);
    assert_eq!(empty.thread_count(), 0);
    assert_eq!(s.wait_on_addr(0xb000, 3, 3), 0);
    assert_eq!(state_of(&s, 0), ThreadState::Blocked);
}

#[test]
fn wait_blocks_and_hands_over() {
    let mut s = with_threads(3);
    assert_eq!(s.wait_on_addr(0xb000, 5, 5), 0);
    assert_eq!(
        states(&s),
        vec![ThreadState::Blocked, ThreadState::Running, ThreadState::Ready]
    );
    assert_eq!(s.thread(0).unwrap().futex_wait_addr, 0xb000);
    assert_eq!(s.thread(0).unwrap().thread_ctx.retval, 0);
    assert_eq!(s.current_slot(), Some(1));
}

#[test]
fn wait_with_nobody_ready_leaves_the_caller_current() {
    let mut s = with_threads(2);
    assert_eq!(s.wait_on_addr(0xb000, 5, 5), 0);
    assert_eq!(s.wait_on_addr(0xc000, 5, 5), 0);
    assert_eq!(states(&s), vec![ThreadState::Blocked, ThreadState::Blocked]);
    assert_eq!(s.current_slot(), Some(1));
    assert_eq!(running_count(&s), 0);
}

#[test]
fn wake_reaches_waiters_in_slot_order() {
    let mut s = with_threads(5);
    // Threads 1, 2 and 3 block on the same word; thread 4 on another.
    assert_eq!(s.wait_on_addr(0xb000, 0, 0), 0);
    assert_eq!(s.wait_on_addr(0xb000, 0, 0), 0);
    assert_eq!(s.wait_on_addr(0xb000, 0, 0), 0);
    assert_eq!(s.wait_on_addr(0xc000, 0, 0), 0);
    assert_eq!(s.current_slot(), Some(4));

    assert_eq!(s.wake_on_addr(0xb000, 2), 2);
    assert_eq!(
        states(&s),
        vec![
            ThreadState::Ready,
            ThreadState::Ready,
            ThreadState::Blocked,
            ThreadState::Blocked,
            ThreadState::Running
        ]
    );
    assert_eq!(s.thread(0).unwrap().futex_wait_addr, 0);
    assert_eq!(s.thread(1).unwrap().futex_wait_addr, 0);
    assert_eq!(s.thread(2).unwrap().futex_wait_addr, 0xb000);
    assert_eq!(s.thread(4).unwrap().thread_ctx.retval, 2);

    assert_eq!(s.wake_on_addr(0xb000, 5), 1);
    assert_eq!(s.wake_on_addr(0xb000, 5), 0);
    assert_eq!(state_of(&s, 3), ThreadState::Blocked);
    assert_eq!(s.current_slot(), Some(4));
}

#[test]
fn wake_of_zero_wakes_none() {
    let mut s = with_threads(3);
    s.wait_on_addr(0xb000, 0, 0);
    let before = states(&s);
    assert_eq!(s.wake_on_addr(0xb000, 0), 0);
    assert_eq!(states(&s), before);
    assert_eq!(s.wake_futex(0xb000, 0), 0);
    assert_eq!(states(&s), before);
}

#[test]
fn wake_on_another_address_wakes_none() {
    let mut s = with_threads(3);
    s.wait_on_addr(0xb000, 0, 0);
    let before = states(&s);
    assert_eq!(s.wake_on_addr(0xb004, 10), 0);
    assert_eq!(states(&s), before);
}

#[test]
fn exit_of_a_child_wakes_its_joiner() {
    let mut s = Scheduler::new();
    assert_eq!(s.spawn_thread(parent_frame(), 0x8000, 0x9000, 0xa000, 0x4004), 2);
    // Main joins the child: it waits on the clear word, which still holds
    // the child's identifier.
    assert_eq!(s.wait_on_addr(0xa000, 2, 2), 0);
    assert_eq!(s.current_tid_or_1(), 2);
    let out = s.exit_current_and_yield(0);
    assert_eq!(
        out,
        ExitOutcome {
            ret: 0,
            clear_store: Some(WordStore { addr: 0xa000, value: 0 }),
            tohost: None
        }
    );
    assert_eq!(states(&s), vec![ThreadState::Running, ThreadState::Exited]);
    assert_eq!(s.thread(0).unwrap().futex_wait_addr, 0);
    assert_eq!(s.current_tid_or_1(), 1);
}

#[test]
fn exit_wakes_every_waiter_on_the_clear_word() {
    let mut s = Scheduler::new();
    s.spawn_thread(parent_frame(), 0x8000, 0, 0, 0);
    s.spawn_thread(parent_frame(), 0x8000, 0, 0, 0);
    s.spawn_thread(parent_frame(), 0x8000, 0, 0xa000, 0);
    s.wait_on_addr(0xa000, 4, 4);
    s.wait_on_addr(0xa000, 4, 4);
    s.wait_on_addr(0xd000, 4, 4);
    assert_eq!(s.current_tid_or_1(), 4);
    let out = s.exit_current_and_yield(9);
    assert_eq!(out.clear_store, Some(WordStore { addr: 0xa000, value: 0 }));
    assert_eq!(out.tohost, None);
    assert_eq!(
        states(&s),
        vec![
            ThreadState::Running,
            ThreadState::Ready,
            ThreadState::Blocked,
            ThreadState::Exited
        ]
    );
}

#[test]
fn exit_of_main_ends_the_process() {
    let mut s = with_threads(3);
    let out = s.exit_current_and_yield(5);
    assert_eq!(out, ExitOutcome { ret: 0, clear_store: None, tohost: Some(11) });
    assert_eq!(
        states(&s),
        vec![ThreadState::Exited, ThreadState::Ready, ThreadState::Ready]
    );
    assert_eq!(s.current_slot(), Some(0));
    assert_eq!(running_count(&s), 0);
}

#[test]
fn exit_payload_keeps_the_sign_bits_of_the_code() {
    let mut s = Scheduler::new();
    assert_eq!(s.exit_current_and_yield(0).tohost, Some(1));
    assert_eq!(s.exit_current_and_yield(1).tohost, Some(3));
    assert_eq!(s.exit_current_and_yield(-1).tohost, Some(u64::MAX));
    assert_eq!(s.exit_current_and_yield(i32::MIN).tohost, Some(0xffff_ffff_0000_0001));
}

#[test]
fn exit_with_nobody_ready_leaves_the_table_without_a_runner() {
    let mut s = with_threads(2);
    s.wait_on_addr(0xb000, 0, 0);
    let out = s.exit_current_and_yield(0);
    assert_eq!(out.tohost, None);
    assert_eq!(states(&s), vec![ThreadState::Blocked, ThreadState::Exited]);
    assert_eq!(s.current_slot(), Some(1));
}

#[test]
fn set_tid_address_replaces_the_clear_word() {
    let mut s = Scheduler::new();
    assert_eq!(s.set_tid_address(0xa000), 0);
    s.spawn_thread(parent_frame(), 0x8000, 0, 0, 0);
    assert_eq!(s.set_tid_address(0xa000), 1);
    assert_eq!(s.thread(0).unwrap().clear_child_tid, 0xa000);
    s.yield_now();
    assert_eq!(s.set_tid_address(0xa100), 2);
    assert_eq!(s.thread(1).unwrap().clear_child_tid, 0xa100);
}

#[test]
fn trap_on_one_thread_writes_nothing_back() {
    let mut s = with_threads(2);
    let mut live = parent_frame();
    live.a7 = 172;
    s.update_current_from_frame(Some(live), 0x4008);
    assert_eq!(s.thread(0).unwrap().trap_frame, live);
    assert_eq!(s.thread(0).unwrap().saved_pc, 0x4008);
    assert_eq!(
        s.thread(0).unwrap().thread_ctx,
        ThreadContext { sp: 0x7000, tp: 0x300, ra: 0x100, gp: 0x200, retval: 0x55 }
    );
    let exit = s.finish_trap(Some(live), Some(0x4008), 0x4008);
    assert_eq!(exit, TrapExit { frame: None, pc: None });
}

#[test]
fn update_without_a_frame_or_a_thread_does_nothing() {
    let mut s = Scheduler::new();
    s.update_current_from_frame(Some(parent_frame()), 0x4008);
    assert_eq!(s.thread_count(), 0);
    let mut t = with_threads(2);
    let before = *t.thread(0).unwrap();
    t.update_current_from_frame(None, 0x4008);
    assert_eq!(*t.thread(0).unwrap(), before);
}

#[test]
fn trap_across_a_yield_hands_back_the_next_thread() {
    let mut s = with_threads(2);
    let mut live = parent_frame();
    live.s1 = 0x99;
    s.update_frame(Some(live), 0x5004);
    s.yield_now();
    let exit = s.finish_trap(Some(live), Some(0x5004), 0x5004);
    let resumed = TrapFrame { sp: 0x8000, tp: 0x9000, a0: 0, s0: 0x8000, ..parent_frame() };
    assert_eq!(exit, TrapExit { frame: Some(resumed), pc: Some(0x4004) });
    assert_eq!(s.thread(0).unwrap().trap_frame, live);
    assert_eq!(s.thread(0).unwrap().saved_pc, 0x5004);
    assert_eq!(s.thread(1).unwrap().trap_frame, resumed);
    // The trap is over: a second finish writes nothing back.
    assert_eq!(
        s.finish_trap(Some(live), Some(0x5004), 0x5004),
        TrapExit { frame: None, pc: None }
    );
}

#[test]
fn update_frame_before_the_first_thread_marks_nothing() {
    let mut s = Scheduler::new();
    s.update_frame(Some(parent_frame()), 0x5004);
    s.spawn_thread(parent_frame(), 0x8000, 0x9000, 0, 0x4004);
    s.yield_now();
    assert_eq!(
        s.finish_trap(Some(parent_frame()), Some(0x5004), 0x5004),
        TrapExit { frame: None, pc: None }
    );
}

#[test]
fn exit_word_is_the_code_shifted_with_the_low_bit_set() {
    assert_eq!(exit_word(0), 1);
    assert_eq!(exit_word(5), 11);
    assert_eq!(exit_word(101), 203);
    assert_eq!(exit_word(i32::MAX), 0xffff_ffff);
    assert_eq!(exit_word(-2), u64::MAX - 2);
}

#[test]
fn finish_clears_the_trap_with_or_without_a_frame() {
    // Without a frame: the switch that happened under the trap is not
    // written back, and the next trap starts clean.
    let mut s = with_threads(2);
    s.update_frame(Some(parent_frame()), 0x5004);
    s.yield_now();
    assert_eq!(s.finish_trap(None, None, 0x5004), TrapExit { frame: None, pc: None });
    assert_eq!(
        s.finish_trap(Some(parent_frame()), Some(0x5004), 0x5004),
        TrapExit { frame: None, pc: None }
    );
    assert_eq!(s.current_slot(), Some(1));

    // With a frame: the first end switches, the second finds nothing.
    let mut s = with_threads(2);
    s.update_frame(Some(parent_frame()), 0x5004);
    s.yield_now();
    assert!(s.finish_trap(Some(parent_frame()), None, 0x5004).frame.is_some());
    assert_eq!(
        s.finish_trap(Some(parent_frame()), Some(0x5004), 0x5004),
        TrapExit { frame: None, pc: None }
    );
}
