//! What holds of the scheduler across calls.
//!
//! Each operation's own contract says what one call does. The lemmas here are
//! about the scheduler as a whole: what holds in every state it can reach, and
//! how calls combine.

use vstd::prelude::*;

use crate::errno::Errno;
use crate::frame::TrapFrame;
use crate::memory::{stored, WordMemory, WordStore};
use crate::scheduler::{
    exit_payload, lemma_next_ready, lemma_next_ready_some, lemma_woken_all, lemma_woken_bounds,
    wake_count, SchedulerView, MAX_THREADS,
};
use crate::thread::{ThreadControlBlock, ThreadState};
use crate::trap_glue::TrapExit;

verus! {

/// One call on the scheduler.
pub enum Op {
    Spawn { parent: TrapFrame, stack: usize, tls: usize, clear_child_tid: usize, pc: usize },
    Yield,
    Wait { addr: usize, expected: i32, actual: i32 },
    Wake { addr: usize, max: usize },
    Exit,
    SetTidAddress { tidptr: usize },
    TrapEnter { frame: Option<TrapFrame>, pc: usize },
    TrapFinish { frame: Option<TrapFrame>, pc_slot: Option<usize> },
}

/// The scheduler after one call.
pub open spec fn step(s: SchedulerView, op: Op) -> SchedulerView {
    match op {
        Op::Spawn { parent, stack, tls, clear_child_tid, pc } => s.spawned(
            parent,
            stack,
            tls,
            clear_child_tid,
            pc,
        ),
        Op::Yield => s.yielded(),
        Op::Wait { addr, expected, actual } => s.waited(addr, expected, actual),
        Op::Wake { addr, max } => s.wake_called(addr, max),
        Op::Exit => s.exited(),
        Op::SetTidAddress { tidptr } => if s.threads.len() == 0 {
            s
        } else {
            s.with_thread(
                s.current,
                ThreadControlBlock { clear_child_tid: tidptr, ..s.current_tcb() },
            )
        },
        Op::TrapEnter { frame, pc } => s.trap_entered(frame, pc),
        Op::TrapFinish { frame, pc_slot } => s.trap_finished(frame, pc_slot),
    }
}

/// The scheduler after a series of calls on a fresh one.
pub open spec fn run(ops: Seq<Op>) -> SchedulerView
    decreases ops.len(),
{
    if ops.len() == 0 {
        SchedulerView::empty()
    } else {
        step(run(ops.drop_last()), ops.last())
    }
}

/// Whether a call leaves a thread to run. Two calls can fail to: a wait that
/// blocks the caller while no thread is `Ready`, and an exit of the main
/// thread or of a thread that leaves no thread `Ready` behind.
pub open spec fn leaves_runner(s: SchedulerView, op: Op) -> bool {
    match op {
        Op::Wait { addr, expected, actual } => s.wait_result(expected, actual) != 0
            || s.some_ready(),
        Op::Exit => s.threads.len() > 0 && s.current_tcb().tid != 1 && s.released().some_ready(),
        _ => true,
    }
}

/// Every call in the series leaves a thread to run.
pub open spec fn never_starved(ops: Seq<Op>) -> bool {
    forall|k: int| 0 <= k < ops.len() ==> leaves_runner(run(#[trigger] ops.take(k)), ops[k])
}

/// Handing the CPU on, when no thread is `Running`, keeps the scheduler well
/// formed; it makes exactly one thread `Running` if any is `Ready`, and
/// changes nothing otherwise.
pub proof fn lemma_dispatched(s: SchedulerView)
    requires
        s.wf(),
        s.threads.len() > 0,
        forall|i: int|
            0 <= i < s.threads.len() ==> (#[trigger] s.threads[i]).state != ThreadState::Running,
    ensures
        s.dispatched().wf(),
        s.dispatched().threads.len() == s.threads.len(),
        s.some_ready() ==> s.dispatched().single_runner(),
        !s.some_ready() ==> s.dispatched() == s,
{
    lemma_next_ready(s.threads, s.successor());
}

/// A spawn keeps the scheduler well formed, and leaves exactly one thread
/// `Running` if the table was empty or had exactly one.
pub proof fn lemma_spawn_step(
    s: SchedulerView,
    parent: TrapFrame,
    stack: usize,
    tls: usize,
    clear_child_tid: usize,
    pc: usize,
)
    requires
        s.wf(),
    ensures
        s.spawned(parent, stack, tls, clear_child_tid, pc).wf(),
        s.threads.len() == 0 || s.single_runner() ==> s.spawned(
            parent,
            stack,
            tls,
            clear_child_tid,
            pc,
        ).single_runner(),
{
}

/// A yield keeps the scheduler well formed and keeps exactly one thread
/// `Running`.
pub proof fn lemma_yield_step(s: SchedulerView)
    requires
        s.wf(),
    ensures
        s.yielded().wf(),
        s.yielded().threads.len() == s.threads.len(),
        s.single_runner() ==> s.yielded().single_runner(),
{
    if s.threads.len() > 0 {
        let z = s.with_retval(0);
        let cur = z.current_tcb();
        let demoted = if cur.state == ThreadState::Running {
            z.with_thread(z.current, ThreadControlBlock { state: ThreadState::Ready, ..cur })
        } else {
            z
        };
        lemma_dispatched(demoted);
    }
}

/// A wait keeps the scheduler well formed. It keeps exactly one thread
/// `Running` if it is refused or some thread is `Ready` to take over.
pub proof fn lemma_wait_step(s: SchedulerView, addr: usize, expected: i32, actual: i32)
    requires
        s.wf(),
    ensures
        s.waited(addr, expected, actual).wf(),
        s.single_runner() && (s.wait_result(expected, actual) != 0 || s.some_ready())
            ==> s.waited(addr, expected, actual).single_runner(),
{
    if actual == expected && s.threads.len() > 1 {
        let z = s.with_retval(0);
        let blocked = z.with_thread(
            z.current,
            ThreadControlBlock {
                state: ThreadState::Blocked,
                futex_wait_addr: addr,
                ..z.current_tcb()
            },
        );
        lemma_dispatched(blocked);
        if s.single_runner() && s.some_ready() {
            let r = choose|i: int|
                0 <= i < s.threads.len() && (#[trigger] s.threads[i]).state == ThreadState::Ready;
            assert(blocked.threads[r].state == ThreadState::Ready);
        }
    }
}

/// A wake keeps the scheduler well formed and keeps exactly one thread
/// `Running`.
pub proof fn lemma_wake_step(s: SchedulerView, addr: usize, max: usize)
    requires
        s.wf(),
    ensures
        s.wake_called(addr, max).wf(),
        s.single_runner() ==> s.wake_called(addr, max).single_runner(),
{
}

/// An exit keeps the scheduler well formed. It leaves exactly one thread
/// `Running` if the exiting thread is not the main thread and some thread is
/// `Ready` once its waiters are released.
pub proof fn lemma_exit_step(s: SchedulerView)
    requires
        s.wf(),
    ensures
        s.exited().wf(),
        s.threads.len() > 0 && s.current_tcb().tid != 1 && s.released().some_ready()
            ==> s.exited().single_runner(),
{
    if s.threads.len() > 0 && s.current_tcb().tid != 1 {
        lemma_dispatched(s.released());
    }
}

/// Entering and leaving a trap keep the scheduler well formed and do not
/// change which thread is `Running`.
pub proof fn lemma_trap_steps(
    s: SchedulerView,
    frame: Option<TrapFrame>,
    pc: usize,
    pc_slot: Option<usize>,
)
    requires
        s.wf(),
    ensures
        s.trap_entered(frame, pc).wf(),
        s.trap_finished(frame, pc_slot).wf(),
        s.single_runner() ==> s.trap_entered(frame, pc).single_runner() && s.trap_finished(
            frame,
            pc_slot,
        ).single_runner(),
{
}

/// Single runner: every state the scheduler can reach is well formed, so no
/// two threads are ever `Running` and a `Running` thread is the current one.
/// As long as no call starves the scheduler, every reachable state with a
/// thread in it has exactly one thread `Running`.
pub proof fn lemma_single_runner(ops: Seq<Op>)
    ensures
        run(ops).wf(),
        never_starved(ops) && run(ops).threads.len() > 0 ==> run(ops).single_runner(),
    decreases ops.len(),
{
    if ops.len() > 0 {
        let before = ops.drop_last();
        let s = run(before);
        let op = ops.last();
        lemma_single_runner(before);
        if never_starved(ops) {
            assert forall|k: int| 0 <= k < before.len() implies leaves_runner(
                run(#[trigger] before.take(k)),
                before[k],
            ) by {
                assert(before.take(k) =~= ops.take(k));
            }
        }
        match op {
            Op::Yield => {
                lemma_yield_step(s);
            },
            Op::Wait { addr, expected, actual } => {
                lemma_wait_step(s, addr, expected, actual);
            },
            Op::Exit => {
                lemma_exit_step(s);
            },
            _ => {},
        }
    }
}

/// Whether a call keeps the futex record straight. Two calls can fail to: a
/// wait on the null address that blocks, and an exit of a thread that is
/// itself blocked.
pub open spec fn keeps_futex_record(s: SchedulerView, op: Op) -> bool {
    match op {
        Op::Wait { addr, expected, actual } => s.wait_result(expected, actual) != 0 || addr != 0,
        Op::Exit => s.threads.len() == 0 || s.current_tcb().state != ThreadState::Blocked,
        _ => true,
    }
}

/// Every call in the series keeps the futex record straight.
pub open spec fn futex_record_kept(ops: Seq<Op>) -> bool {
    forall|k: int| 0 <= k < ops.len() ==> keeps_futex_record(run(#[trigger] ops.take(k)), ops[k])
}

/// One call keeps the futex record straight if it is not one of the two that
/// cannot.
pub proof fn lemma_futex_record_step(s: SchedulerView, op: Op)
    requires
        s.wf(),
        s.futex_consistent(),
        keeps_futex_record(s, op),
    ensures
        step(s, op).futex_consistent(),
{
    match op {
        Op::Spawn { parent, stack, tls, clear_child_tid, pc } => {},
        Op::Yield => {
            if s.threads.len() > 0 {
                let z = s.with_retval(0);
                let cur = z.current_tcb();
                let demoted = if cur.state == ThreadState::Running {
                    z.with_thread(
                        z.current,
                        ThreadControlBlock { state: ThreadState::Ready, ..cur },
                    )
                } else {
                    z
                };
                lemma_next_ready(demoted.threads, demoted.successor());
            }
        },
        Op::Wait { addr, expected, actual } => {
            if actual == expected && s.threads.len() > 1 {
                let z = s.with_retval(0);
                let blocked = z.with_thread(
                    z.current,
                    ThreadControlBlock {
                        state: ThreadState::Blocked,
                        futex_wait_addr: addr,
                        ..z.current_tcb()
                    },
                );
                lemma_next_ready(blocked.threads, blocked.successor());
            }
        },
        Op::Wake { addr, max } => {
            lemma_woken_bounds(s.threads, addr, max);
        },
        Op::Exit => {
            if s.threads.len() > 0 {
                let cur = s.current_tcb();
                let marked = s.threads.update(
                    s.current,
                    ThreadControlBlock { state: ThreadState::Exited, ..cur },
                );
                lemma_woken_bounds(marked, cur.clear_child_tid, usize::MAX);
                lemma_next_ready(s.released().threads, s.released().successor());
            }
        },
        Op::SetTidAddress { tidptr } => {},
        Op::TrapEnter { frame, pc } => {},
        Op::TrapFinish { frame, pc_slot } => {},
    }
}

/// The futex record: as long as no thread blocks on the null address and no
/// blocked thread exits, in every state the scheduler can reach a thread is
/// `Blocked` exactly when it records a word to wait on.
pub proof fn lemma_futex_record(ops: Seq<Op>)
    requires
        futex_record_kept(ops),
    ensures
        run(ops).futex_consistent(),
    decreases ops.len(),
{
    if ops.len() > 0 {
        let before = ops.drop_last();
        assert forall|k: int| 0 <= k < before.len() implies keeps_futex_record(
            run(#[trigger] before.take(k)),
            before[k],
        ) by {
            assert(before.take(k) =~= ops.take(k));
        }
        lemma_futex_record(before);
        lemma_single_runner(before);
        lemma_futex_record_step(run(before), ops.last());
    }
}

/// Every thread can run: the current one is `Running` and all others are
/// `Ready`.
pub open spec fn all_runnable(s: SchedulerView) -> bool {
    &&& 0 <= s.current < s.threads.len()
    &&& forall|i: int|
        0 <= i < s.threads.len() ==> (#[trigger] s.threads[i]).state == if i == s.current {
            ThreadState::Running
        } else {
            ThreadState::Ready
        }
}

/// A spawn leaves every thread able to run if every thread was, or if there
/// was none: the table after any number of spawns on a fresh scheduler is one
/// in which every thread can run, with the main thread current.
pub proof fn lemma_spawn_keeps_runnable(
    s: SchedulerView,
    parent: TrapFrame,
    stack: usize,
    tls: usize,
    clear_child_tid: usize,
    pc: usize,
)
    requires
        s.wf(),
        s.threads.len() == 0 || all_runnable(s),
    ensures
        all_runnable(s.spawned(parent, stack, tls, clear_child_tid, pc)),
        s.threads.len() == 0 ==> s.spawned(parent, stack, tls, clear_child_tid, pc).current == 0,
        s.threads.len() > 0 ==> s.spawned(parent, stack, tls, clear_child_tid, pc).current
            == s.current,
{
}

/// The scheduler after `k` yields in a row.
pub open spec fn yield_times(s: SchedulerView, k: nat) -> SchedulerView
    decreases k,
{
    if k == 0 {
        s
    } else {
        yield_times(s, (k - 1) as nat).yielded()
    }
}

/// When every thread can run, a yield moves the CPU to the next slot.
pub proof fn lemma_yield_advances(s: SchedulerView)
    requires
        s.wf(),
        all_runnable(s),
    ensures
        s.yielded().wf(),
        all_runnable(s.yielded()),
        s.yielded().threads.len() == s.threads.len(),
        s.yielded().current == s.successor(),
{
    let z = s.with_retval(0);
    let demoted = z.with_thread(
        z.current,
        ThreadControlBlock { state: ThreadState::Ready, ..z.current_tcb() },
    );
    lemma_next_ready_some(demoted.threads, demoted.successor(), demoted.successor());
}

/// Round robin, step by step: when every thread can run, `k` yields move the
/// CPU `k` slots up the table, wrapping round.
pub proof fn lemma_round_robin(s: SchedulerView, k: nat)
    requires
        s.wf(),
        all_runnable(s),
    ensures
        yield_times(s, k).wf(),
        all_runnable(yield_times(s, k)),
        yield_times(s, k).threads.len() == s.threads.len(),
        yield_times(s, k).current == (s.current + k) % (s.threads.len() as int),
    decreases k,
{
    let n = s.threads.len() as int;
    if k == 0 {
        vstd::arithmetic::div_mod::lemma_small_mod(s.current as nat, n as nat);
    } else {
        let before = yield_times(s, (k - 1) as nat);
        lemma_round_robin(s, (k - 1) as nat);
        lemma_yield_advances(before);
        let a = s.current + k - 1;
        vstd::arithmetic::div_mod::lemma_fundamental_div_mod(a, n);
        let q = a / n;
        let r = a % n;
        if r + 1 < n {
            vstd::arithmetic::div_mod::lemma_fundamental_div_mod_converse(a + 1, n, q, r + 1);
        } else {
            assert(a + 1 == (q + 1) * n + 0) by (nonlinear_arith)
                requires
                    a == n * q + r,
                    r + 1 == n,
            ;
            vstd::arithmetic::div_mod::lemma_fundamental_div_mod_converse(a + 1, n, q + 1, 0);
        }
    }
}

/// Round-robin fairness: in a table of `n` threads that can all run, `n`
/// yields in a row bring the CPU back to the thread that had it, with every
/// thread in the state it started in.
pub proof fn lemma_round_robin_cycle(s: SchedulerView)
    requires
        s.wf(),
        all_runnable(s),
    ensures
        yield_times(s, s.threads.len()).current == s.current,
        yield_times(s, s.threads.len()).threads.len() == s.threads.len(),
        forall|i: int|
            0 <= i < s.threads.len() ==> (#[trigger] yield_times(
                s,
                s.threads.len(),
            ).threads[i]).state == s.threads[i].state,
{
    let n = s.threads.len() as int;
    lemma_round_robin(s, s.threads.len());
    vstd::arithmetic::div_mod::lemma_fundamental_div_mod_converse(s.current + n, n, 1, s.current);
}

/// The futex race check and the deadlock check: a wait on a word that does
/// not hold the expected value is refused with the try-again error, and a
/// wait in a process of at most one thread is refused too, with the deadlock
/// error if the word holds the expected value. A refused wait blocks no
/// thread and leaves the current thread current.
pub proof fn lemma_wait_refused(s: SchedulerView, addr: usize, expected: i32, actual: i32)
    requires
        s.wf(),
        actual != expected || s.threads.len() <= 1,
    ensures
        actual != expected ==> s.wait_result(expected, actual) == Errno::Again.neg(),
        actual == expected ==> s.wait_result(expected, actual) == Errno::Deadlock.neg(),
        s.wait_result(expected, actual) < 0,
        s.waited(addr, expected, actual).current == s.current,
        s.waited(addr, expected, actual).threads.len() == s.threads.len(),
        forall|i: int|
            0 <= i < s.threads.len() ==> (#[trigger] s.waited(
                addr,
                expected,
                actual,
            ).threads[i]).state == s.threads[i].state,
{
}

/// Wake bounds: a wake reaches at most `max` threads, changes the state only
/// of threads that are blocked on exactly `addr`, makes those `Ready`, and
/// with `max` zero reaches none.
pub proof fn lemma_wake_bounds(s: SchedulerView, addr: usize, max: usize)
    requires
        s.wf(),
    ensures
        wake_count(s.threads, addr, max) <= max,
        s.wake_called(addr, max).threads.len() == s.threads.len(),
        forall|i: int|
            0 <= i < s.threads.len() && (#[trigger] s.wake_called(addr, max).threads[i]).state
                != s.threads[i].state ==> s.threads[i].waits_on(addr) && s.wake_called(
                addr,
                max,
            ).threads[i].state == ThreadState::Ready,
        max == 0 ==> wake_count(s.threads, addr, max) == 0 && forall|i: int|
            0 <= i < s.threads.len() ==> (#[trigger] s.wake_called(addr, max).threads[i]).state
                == s.threads[i].state,
{
}

/// Spawn numbering: the first spawn on a fresh scheduler hands out the
/// identifier 2, every successful spawn hands out the identifier of the slot
/// it fills, and each successful spawn hands out one more than the one before
/// it.
pub proof fn lemma_spawn_numbering(
    s: SchedulerView,
    parent: TrapFrame,
    stack: usize,
    tls: usize,
    clear_child_tid: usize,
    pc: usize,
)
    requires
        s.wf(),
    ensures
        s.threads.len() == 0 ==> s.spawn_result() == 2,
        s.spawn_result() > 0 <==> s.threads.len() < MAX_THREADS,
        ({
            let next = s.spawned(parent, stack, tls, clear_child_tid, pc);
            &&& s.spawn_result() > 0 ==> next.threads.last().tid == s.spawn_result()
            &&& s.spawn_result() > 0 && next.spawn_result() > 0 ==> next.spawn_result()
                == s.spawn_result() + 1
        }),
{
}

/// Exit propagates join: when a thread with a clear-on-exit word exits, the
/// store it asks for leaves zero in that word, no thread is left waiting on
/// the word, and every thread that waited on it can run again.
pub proof fn lemma_exit_propagates_join(s: SchedulerView, code: i32, mem: WordMemory)
    requires
        s.wf(),
        s.threads.len() > 0,
        s.current_tcb().clear_child_tid != 0,
    ensures
        s.exit_outcome(code).clear_store == Some(
            WordStore { addr: s.current_tcb().clear_child_tid, value: 0 },
        ),
        stored(mem, s.exit_outcome(code).clear_store)[s.current_tcb().clear_child_tid] == 0,
        s.exited().threads.len() == s.threads.len(),
        forall|i: int|
            0 <= i < s.threads.len() ==> !(#[trigger] s.exited().threads[i]).waits_on(
                s.current_tcb().clear_child_tid,
            ),
        forall|i: int|
            0 <= i < s.threads.len() && i != s.current && s.threads[i].waits_on(
                s.current_tcb().clear_child_tid,
            ) ==> (#[trigger] s.exited().threads[i]).futex_wait_addr == 0 && (
            s.exited().threads[i].state == ThreadState::Ready
                || s.exited().threads[i].state == ThreadState::Running),
{
    let cur = s.current_tcb();
    let marked = s.threads.update(
        s.current,
        ThreadControlBlock { state: ThreadState::Exited, ..cur },
    );
    lemma_woken_all(marked, cur.clear_child_tid, usize::MAX);
}

/// A spawned thread carries the clear-on-exit word it was spawned with.
pub proof fn lemma_spawn_sets_clear_word(
    s: SchedulerView,
    parent: TrapFrame,
    stack: usize,
    tls: usize,
    clear_child_tid: usize,
    pc: usize,
)
    requires
        s.wf(),
        s.threads.len() < MAX_THREADS,
    ensures
        s.spawned(parent, stack, tls, clear_child_tid, pc).threads.last().clear_child_tid
            == clear_child_tid,
        s.spawned(parent, stack, tls, clear_child_tid, pc).threads.last().state
            == ThreadState::Ready,
{
}

/// Trap reconciliation: if the thread that entered a trap is still current
/// when the trap ends, nothing is written back and the live frame stays as
/// the syscall left it. `after` is any state the syscall may have left the
/// scheduler in without moving the CPU.
pub proof fn lemma_trap_same_thread(
    s: SchedulerView,
    frame: Option<TrapFrame>,
    pc: usize,
    after: SchedulerView,
    live: TrapFrame,
    pc_slot: Option<usize>,
)
    requires
        s.wf(),
        after.current == s.trap_entered(frame, pc).current,
        after.last_trap == s.trap_entered(frame, pc).last_trap || after.last_trap is None,
    ensures
        after.trap_exit(Some(live), pc_slot) == TrapExit::unchanged(),
        after.trap_exit(Some(live), pc_slot).live_frame(live) == live,
        after.trap_finished(Some(live), pc_slot).last_trap is None,
        after.trap_finished(Some(live), pc_slot).current == after.current,
{
}

/// A trap ends once: the end of a trap leaves no trap in flight, whether or
/// not the caller brings a live frame, so a second end, with whatever frame,
/// hands nothing back and changes no thread.
pub proof fn lemma_trap_ends_once(
    s: SchedulerView,
    frame: Option<TrapFrame>,
    pc_slot: Option<usize>,
    second_frame: Option<TrapFrame>,
    second_pc_slot: Option<usize>,
)
    requires
        s.wf(),
    ensures
        s.trap_finished(frame, pc_slot).last_trap is None,
        s.trap_finished(frame, pc_slot).current == s.current,
        frame is None ==> s.trap_finished(frame, pc_slot).threads == s.threads,
        s.trap_finished(frame, pc_slot).trap_exit(second_frame, second_pc_slot)
            == TrapExit::unchanged(),
        s.trap_finished(frame, pc_slot).trap_finished(second_frame, second_pc_slot).threads
            == s.trap_finished(frame, pc_slot).threads,
{
    let once = s.trap_finished(frame, pc_slot);
    assert(once.trap_finished(second_frame, second_pc_slot).threads =~= once.threads);
}

/// Main exit terminates: when thread 1 exits, no thread is made `Running`,
/// the CPU is handed to no one, and the host is told the exit code, shifted
/// left by one with the low bit set.
pub proof fn lemma_main_exit(s: SchedulerView, code: i32)
    requires
        s.wf(),
        s.threads.len() > 0,
        s.current_tcb().tid == 1,
    ensures
        s.exit_outcome(code).tohost == Some(exit_payload(code)),
        s.exited().current == s.current,
        s.exited().threads.len() == s.threads.len(),
        s.exited().threads[s.current].state == ThreadState::Exited,
        forall|i: int|
            0 <= i < s.threads.len() ==> (#[trigger] s.exited().threads[i]).state
                != ThreadState::Running,
{
}

} // verus!
