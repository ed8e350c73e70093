//! The cooperative scheduler: a table of thread control blocks, the thread
//! that currently owns the CPU, and the rules by which ownership moves.
//!
//! Threads are appended to the table and never removed, so a thread's slot and
//! its identifier are fixed for its lifetime: the thread in slot `i` has the
//! identifier `i + 1`. A thread gives up the CPU only by yielding, waiting on a
//! futex word or exiting; the next thread is the first `Ready` one met when
//! walking the table upward from the slot after the current one, wrapping
//! round once.
//!
//! The scheduler does not touch memory. A caller that waits on a futex word
//! passes in the word's value, and a thread's exit hands back the stores the
//! caller has to perform.

use vstd::prelude::*;

use crate::arch::{ArchContext, FramePointerContext};
use crate::errno::Errno;
use crate::frame::TrapFrame;
use crate::memory::WordStore;
use crate::thread::{
    apply_thread_ctx_to_frame, sync_thread_ctx_from_frame, ThreadContext, ThreadControlBlock,
    ThreadState, Tid,
};

verus! {

/// The capacity of the thread table.
pub const MAX_THREADS: usize = 64;

/// No thread in the slots from `lo` up to, not including, `hi` is `Ready`.
pub open spec fn none_ready(threads: Seq<ThreadControlBlock>, lo: int, hi: int) -> bool {
    forall|j: int| lo <= j < hi ==> (#[trigger] threads[j]).state != ThreadState::Ready
}

/// Slot `i` holds the first `Ready` thread met when walking the table upward
/// from `start` and wrapping round once.
pub open spec fn first_ready_from(threads: Seq<ThreadControlBlock>, start: int, i: int) -> bool {
    &&& 0 <= i < threads.len()
    &&& threads[i].state == ThreadState::Ready
    &&& if start <= i {
        none_ready(threads, start, i)
    } else {
        none_ready(threads, start, threads.len() as int) && none_ready(threads, 0, i)
    }
}

/// The slot the round-robin search from `start` settles on, if any thread is
/// `Ready`.
pub open spec fn next_ready(threads: Seq<ThreadControlBlock>, start: int) -> Option<int> {
    if exists|i: int| first_ready_from(threads, start, i) {
        Some(choose|i: int| first_ready_from(threads, start, i))
    } else {
        None
    }
}

/// The search finds slot `i` exactly when `i` is the first `Ready` slot.
pub proof fn lemma_next_ready_some(threads: Seq<ThreadControlBlock>, start: int, i: int)
    requires
        0 <= start <= threads.len(),
        first_ready_from(threads, start, i),
    ensures
        next_ready(threads, start) == Some(i),
{
}

/// Finds the first `Ready` slot from `lo` up to, not including, `hi`.
pub proof fn lemma_first_ready_in(threads: Seq<ThreadControlBlock>, lo: int, hi: int) -> (r:
    Option<int>)
    requires
        0 <= lo <= hi <= threads.len(),
    ensures
        match r {
            Some(i) => lo <= i < hi && threads[i].state == ThreadState::Ready && none_ready(
                threads,
                lo,
                i,
            ),
            None => none_ready(threads, lo, hi),
        },
    decreases hi - lo,
{
    if lo == hi {
        None
    } else if threads[lo].state == ThreadState::Ready {
        Some(lo)
    } else {
        lemma_first_ready_in(threads, lo + 1, hi)
    }
}

/// The search is total: it settles on the first `Ready` slot in round-robin
/// order, and comes back empty only if no thread is `Ready`.
pub proof fn lemma_next_ready(threads: Seq<ThreadControlBlock>, start: int)
    requires
        0 <= start <= threads.len(),
    ensures
        match next_ready(threads, start) {
            Some(i) => first_ready_from(threads, start, i),
            None => none_ready(threads, 0, threads.len() as int),
        },
{
    match lemma_first_ready_in(threads, start, threads.len() as int) {
        Some(i) => {
            lemma_next_ready_some(threads, start, i);
        },
        None => {
            match lemma_first_ready_in(threads, 0, start) {
                Some(i) => {
                    lemma_next_ready_some(threads, start, i);
                },
                None => {},
            }
        },
    }
}

/// The number of threads in slots below `i` that are blocked on `addr`.
pub open spec fn waiters_before(threads: Seq<ThreadControlBlock>, addr: usize, i: int) -> nat
    decreases i,
{
    if i <= 0 {
        0
    } else {
        waiters_before(threads, addr, i - 1) + if threads[i - 1].waits_on(addr) {
            1nat
        } else {
            0nat
        }
    }
}

/// Whether a wake of at most `max` waiters on `addr` reaches slot `i`: the
/// thread there waits on `addr`, and fewer than `max` waiters stand in lower
/// slots. Waiters are served in slot order, not in the order they blocked.
pub open spec fn wakes(threads: Seq<ThreadControlBlock>, addr: usize, max: usize, i: int) -> bool {
    threads[i].waits_on(addr) && waiters_before(threads, addr, i) < max
}

/// The table after at most `max` waiters on `addr` are woken: each becomes
/// `Ready` and forgets the word it waited on.
pub open spec fn woken(threads: Seq<ThreadControlBlock>, addr: usize, max: usize) -> Seq<
    ThreadControlBlock,
> {
    Seq::new(
        threads.len(),
        |i: int|
            if wakes(threads, addr, max, i) {
                ThreadControlBlock {
                    state: ThreadState::Ready,
                    futex_wait_addr: 0,
                    ..threads[i]
                }
            } else {
                threads[i]
            },
    )
}

/// How many threads a wake of at most `max` waiters on `addr` reaches.
pub open spec fn wake_count(threads: Seq<ThreadControlBlock>, addr: usize, max: usize) -> nat {
    let waiting = waiters_before(threads, addr, threads.len() as int);
    if waiting < max {
        waiting
    } else {
        max as nat
    }
}

/// Counting waiters further up the table never lowers the count, and slot
/// `i` has at most `i` waiters below it.
pub proof fn lemma_waiters_before(threads: Seq<ThreadControlBlock>, addr: usize, i: int, j: int)
    requires
        0 <= i <= j,
    ensures
        waiters_before(threads, addr, i) <= waiters_before(threads, addr, j),
        waiters_before(threads, addr, j) <= j,
    decreases j,
{
    if j > 0 {
        if i < j {
            lemma_waiters_before(threads, addr, i, j - 1);
        } else {
            lemma_waiters_before(threads, addr, i - 1, j - 1);
        }
    }
}

/// A wake touches only threads that wait on the address, leaves no more than
/// `max` of them changed, and with `max` zero changes nothing.
pub proof fn lemma_woken_bounds(threads: Seq<ThreadControlBlock>, addr: usize, max: usize)
    ensures
        woken(threads, addr, max).len() == threads.len(),
        wake_count(threads, addr, max) <= max,
        wake_count(threads, addr, max) <= threads.len(),
        forall|i: int|
            0 <= i < threads.len() && #[trigger] woken(threads, addr, max)[i] != threads[i]
                ==> threads[i].waits_on(addr),
        forall|i: int|
            0 <= i < threads.len() ==> (#[trigger] woken(threads, addr, max)[i]).tid
                == threads[i].tid,
        max == 0 ==> woken(threads, addr, max) == threads,
{
    lemma_waiters_before(threads, addr, 0, threads.len() as int);
}

/// A wake with room for every thread in the table leaves no thread waiting
/// on the address.
pub proof fn lemma_woken_all(threads: Seq<ThreadControlBlock>, addr: usize, max: usize)
    requires
        threads.len() <= max,
    ensures
        forall|i: int|
            0 <= i < threads.len() ==> !(#[trigger] woken(threads, addr, max)[i]).waits_on(addr),
        wake_count(threads, addr, max) == waiters_before(threads, addr, threads.len() as int),
{
    assert forall|i: int| 0 <= i < threads.len() implies !(#[trigger] woken(
        threads,
        addr,
        max,
    )[i]).waits_on(addr) by {
        lemma_waiters_before(threads, addr, 0, i);
    }
    lemma_waiters_before(threads, addr, 0, threads.len() as int);
}

/// The stack pointer a new thread starts with: `stack` rounded down to a
/// multiple of 16.
pub open spec fn align_stack(stack: usize) -> usize {
    (stack - stack % 16) as usize
}

/// Masking off the low four bits rounds down to a multiple of 16.
pub proof fn lemma_align_stack(stack: usize)
    ensures
        stack & !0xFusize == align_stack(stack),
        align_stack(stack) % 16 == 0,
        align_stack(stack) <= stack < align_stack(stack) + 16,
{
    assert(stack & !0xFusize == (stack - stack % 16) as usize) by (bit_vector);
}

/// The word a finished process leaves for its host: the exit code shifted
/// left by one, with the low bit set.
pub open spec fn exit_payload(code: i32) -> u64 {
    ((code as u64) << 1) | 1
}

/// The word that tells the host that the process has ended with `code`.
pub fn exit_word(code: i32) -> (word: u64)
    ensures
        word == exit_payload(code),
{
    ((code as u64) << 1) | 1
}

/// The scheduler as a mathematical value: the thread table, the slot of the
/// thread that owns the CPU, and the slot that was current when the trap in
/// flight was entered.
pub struct SchedulerView {
    pub threads: Seq<ThreadControlBlock>,
    pub current: int,
    pub last_trap: Option<int>,
}

impl SchedulerView {
    /// The scheduler before any thread exists.
    pub open spec fn empty() -> Self {
        SchedulerView { threads: Seq::empty(), current: 0, last_trap: None }
    }

    /// What holds of every scheduler: the table fits its capacity, the
    /// current slot is in it, the thread in slot `i` has the identifier
    /// `i + 1`, and no thread but the current one is `Running`.
    pub open spec fn wf(self) -> bool {
        &&& self.threads.len() <= MAX_THREADS
        &&& if self.threads.len() == 0 {
            self.current == 0 && self.last_trap is None
        } else {
            0 <= self.current < self.threads.len()
        }
        &&& forall|i: int|
            0 <= i < self.threads.len() ==> (#[trigger] self.threads[i]).tid == i + 1
        &&& forall|i: int|
            0 <= i < self.threads.len() && (#[trigger] self.threads[i]).state
                == ThreadState::Running ==> i == self.current
        &&& match self.last_trap {
            Some(e) => 0 <= e < self.threads.len(),
            None => true,
        }
    }

    /// The control block of the current thread.
    pub open spec fn current_tcb(self) -> ThreadControlBlock {
        self.threads[self.current]
    }

    /// The slot after the current one, wrapping to the first.
    pub open spec fn successor(self) -> int {
        if self.current + 1 >= self.threads.len() {
            0
        } else {
            self.current + 1
        }
    }

    /// Exactly one thread is `Running`, and it is the current one.
    pub open spec fn single_runner(self) -> bool {
        &&& 0 <= self.current < self.threads.len()
        &&& forall|i: int|
            0 <= i < self.threads.len() ==> ((#[trigger] self.threads[i]).state
                == ThreadState::Running <==> i == self.current)
    }

    /// Some thread is `Ready`.
    pub open spec fn some_ready(self) -> bool {
        exists|i: int|
            0 <= i < self.threads.len() && (#[trigger] self.threads[i]).state
                == ThreadState::Ready
    }

    /// A thread is blocked exactly when it records a futex word to wait on.
    pub open spec fn futex_consistent(self) -> bool {
        forall|i: int|
            0 <= i < self.threads.len() ==> ((#[trigger] self.threads[i]).state
                == ThreadState::Blocked <==> self.threads[i].futex_wait_addr != 0)
    }

    /// The scheduler with slot `i` replaced by `tcb`.
    pub open spec fn with_thread(self, i: int, tcb: ThreadControlBlock) -> Self {
        SchedulerView { threads: self.threads.update(i, tcb), ..self }
    }

    /// The scheduler with the current thread's pending return value set to
    /// `val`; unchanged when no thread exists.
    pub open spec fn with_retval(self, val: usize) -> Self {
        if self.threads.len() == 0 {
            self
        } else {
            let cur = self.current_tcb();
            self.with_thread(
                self.current,
                ThreadControlBlock {
                    thread_ctx: ThreadContext { retval: val, ..cur.thread_ctx },
                    ..cur
                },
            )
        }
    }

    /// The scheduler after the CPU is handed to the next `Ready` thread after
    /// the current one; unchanged when no thread is `Ready`.
    pub open spec fn dispatched(self) -> Self {
        match next_ready(self.threads, self.successor()) {
            Some(next) => SchedulerView {
                threads: self.threads.update(
                    next,
                    ThreadControlBlock { state: ThreadState::Running, ..self.threads[next] },
                ),
                current: next,
                ..self
            },
            None => self,
        }
    }

    /// The scheduler after the current thread yields: its pending return
    /// value is zero, it steps down from `Running` to `Ready`, and the next
    /// `Ready` thread in round-robin order, which is the yielding thread
    /// itself when no other is `Ready`, becomes `Running`.
    pub open spec fn yielded(self) -> Self {
        if self.threads.len() == 0 {
            self
        } else {
            let s = self.with_retval(0);
            let cur = s.current_tcb();
            let demoted = if cur.state == ThreadState::Running {
                s.with_thread(s.current, ThreadControlBlock { state: ThreadState::Ready, ..cur })
            } else {
                s
            };
            demoted.dispatched()
        }
    }

    /// The value a futex wait returns: try-again when the word does not hold
    /// the expected value, deadlock when no second thread exists, else zero.
    pub open spec fn wait_result(self, expected: i32, actual: i32) -> int {
        if actual != expected {
            Errno::Again.neg()
        } else if self.threads.len() <= 1 {
            Errno::Deadlock.neg()
        } else {
            0
        }
    }

    /// The scheduler after the current thread waits on the futex word at
    /// `addr`, which holds `actual`. On a refused wait only the pending return
    /// value changes. Otherwise the thread blocks on `addr` with a pending
    /// return value of zero, and the CPU goes to the next `Ready` thread.
    pub open spec fn waited(self, addr: usize, expected: i32, actual: i32) -> Self {
        if actual != expected {
            self.with_retval(Errno::Again.word())
        } else if self.threads.len() <= 1 {
            self.with_retval(Errno::Deadlock.word())
        } else {
            let s = self.with_retval(0);
            let cur = s.current_tcb();
            s.with_thread(
                s.current,
                ThreadControlBlock {
                    state: ThreadState::Blocked,
                    futex_wait_addr: addr,
                    ..cur
                },
            ).dispatched()
        }
    }

    /// The control block of the main thread, made from the frame of the
    /// first thread to trap.
    pub open spec fn main_thread(parent: TrapFrame, pc: usize) -> ThreadControlBlock {
        ThreadControlBlock {
            trap_frame: parent,
            thread_ctx: parent.context(),
            tid: 1,
            state: ThreadState::Running,
            saved_pc: pc,
            futex_wait_addr: 0,
            clear_child_tid: 0,
        }
    }

    /// The control block of a new thread: its parent's registers, but with
    /// its own stack, frame and thread pointers and a zero return value.
    pub open spec fn child_thread(
        tid: Tid,
        parent: TrapFrame,
        stack: usize,
        tls: usize,
        clear_child_tid: usize,
        pc: usize,
    ) -> ThreadControlBlock {
        let base = align_stack(stack);
        ThreadControlBlock {
            trap_frame: TrapFrame { sp: base, tp: tls, a0: 0, s0: base, ..parent },
            thread_ctx: ThreadContext {
                sp: base,
                tp: tls,
                ra: parent.ra,
                gp: parent.gp,
                retval: 0,
            },
            tid,
            state: ThreadState::Ready,
            saved_pc: pc,
            futex_wait_addr: 0,
            clear_child_tid,
        }
    }

    /// The scheduler with the main thread in place: on an empty table the
    /// trapping context becomes thread 1, `Running`.
    pub open spec fn with_main(self, parent: TrapFrame, pc: usize) -> Self {
        if self.threads.len() == 0 {
            SchedulerView {
                threads: seq![Self::main_thread(parent, pc)],
                current: 0,
                last_trap: self.last_trap,
            }
        } else {
            self
        }
    }

    /// The identifier the next spawn hands out.
    pub open spec fn next_tid(self) -> int {
        if self.threads.len() == 0 {
            2
        } else {
            self.threads.len() as int + 1
        }
    }

    /// The value a spawn returns: the new identifier, or permission denied
    /// when the table is full.
    pub open spec fn spawn_result(self) -> int {
        if self.threads.len() < MAX_THREADS {
            self.next_tid()
        } else {
            Errno::Perm.neg()
        }
    }

    /// The scheduler after a spawn. A full table is left as it is. Otherwise
    /// the main thread is put in place if no thread exists yet, the current
    /// thread's pending return value becomes the new identifier, and the new
    /// thread is appended, `Ready`.
    pub open spec fn spawned(
        self,
        parent: TrapFrame,
        stack: usize,
        tls: usize,
        clear_child_tid: usize,
        pc: usize,
    ) -> Self {
        if self.threads.len() >= MAX_THREADS {
            self
        } else {
            let tid = self.next_tid();
            let s = self.with_main(parent, pc).with_retval(tid as usize);
            SchedulerView {
                threads: s.threads.push(
                    Self::child_thread(tid as usize, parent, stack, tls, clear_child_tid, pc),
                ),
                ..s
            }
        }
    }

    /// The scheduler after at most `max` waiters on `addr` are woken and the
    /// current thread's pending return value is set to their number.
    pub open spec fn wake_called(self, addr: usize, max: usize) -> Self {
        SchedulerView { threads: woken(self.threads, addr, max), ..self }.with_retval(
            wake_count(self.threads, addr, max) as usize,
        )
    }

    /// What an exit asks of its caller.
    pub open spec fn exit_outcome(self, code: i32) -> ExitOutcome {
        if self.threads.len() == 0 {
            ExitOutcome { ret: 0, clear_store: None, tohost: Some(exit_payload(code)) }
        } else {
            let cur = self.current_tcb();
            ExitOutcome {
                ret: 0,
                clear_store: if cur.clear_child_tid != 0 {
                    Some(WordStore { addr: cur.clear_child_tid, value: 0 })
                } else {
                    None
                },
                tohost: if cur.tid == 1 {
                    Some(exit_payload(code))
                } else {
                    None
                },
            }
        }
    }

    /// The scheduler after the current thread exits: it is `Exited`, every
    /// thread that waited on its clear-on-exit word is `Ready`, and, unless
    /// it was the main thread, the CPU goes to the next `Ready` thread.
    pub open spec fn exited(self) -> Self {
        if self.threads.len() == 0 {
            self
        } else if self.current_tcb().tid == 1 {
            self.released()
        } else {
            self.released().dispatched()
        }
    }

    /// The scheduler once the current thread is marked `Exited` and the
    /// threads that waited on its clear-on-exit word are `Ready`, before the
    /// CPU is handed on.
    pub open spec fn released(self) -> Self {
        let cur = self.current_tcb();
        let marked = self.threads.update(
            self.current,
            ThreadControlBlock { state: ThreadState::Exited, ..cur },
        );
        SchedulerView {
            threads: if cur.clear_child_tid != 0 {
                woken(marked, cur.clear_child_tid, usize::MAX)
            } else {
                marked
            },
            ..self
        }
    }
}

/// What the caller of an exit has to do once the scheduler has recorded it.
#[derive(Clone, Copy, Debug, PartialEq, Eq, Structural)]
pub struct ExitOutcome {
    /// The value the exit syscall returns.
    pub ret: isize,
    /// The store of zero to the exiting thread's clear-on-exit word.
    pub clear_store: Option<WordStore>,
    /// The word to write to the host interface, which ends the process.
    pub tohost: Option<u64>,
}

/// The scheduler: the thread table and the bookkeeping around it.
pub struct Scheduler {
    pub(crate) threads: Vec<ThreadControlBlock>,
    pub(crate) current_index: usize,
    pub(crate) next_tid: Tid,
    pub(crate) last_trap_thread: Option<usize>,
}

impl View for Scheduler {
    type V = SchedulerView;

    open(crate) spec fn view(&self) -> SchedulerView {
        SchedulerView {
            threads: self.threads@,
            current: self.current_index as int,
            last_trap: match self.last_trap_thread {
                Some(e) => Some(e as int),
                None => None,
            },
        }
    }
}

impl Default for Scheduler {
    /// A scheduler with no threads.
    fn default() -> (s: Self)
        ensures
            s.wf(),
            s@ == SchedulerView::empty(),
    {
        Scheduler::new()
    }
}

impl Scheduler {
    /// The identifier counter runs one ahead of the table.
    pub open(crate) spec fn counter_in_step(&self) -> bool {
        self.next_tid == if self.threads@.len() == 0 {
            1
        } else {
            self.threads@.len() as int + 1
        }
    }

    /// The scheduler is well formed: its view is, and its identifier counter
    /// agrees with the table.
    pub open spec fn wf(&self) -> bool {
        self@.wf() && self.counter_in_step()
    }

    /// A scheduler with no threads.
    pub fn new() -> (s: Self)
        ensures
            s.wf(),
            s@ == SchedulerView::empty(),
    {
        let s = Scheduler {
            threads: Vec::new(),
            current_index: 0,
            next_tid: 1,
            last_trap_thread: None,
        };
        s
    }

    /// The control block of the thread that owns the CPU, if any thread
    /// exists.
    pub fn current_thread(&self) -> (tcb: Option<&ThreadControlBlock>)
        requires
            self.wf(),
        ensures
            tcb == if self@.threads.len() == 0 {
                None
            } else {
                Some(&self@.current_tcb())
            },
    {
        if self.current_index < self.threads.len() {
            Some(&self.threads[self.current_index])
        } else {
            None
        }
    }

    /// The control block in slot `slot`, if the table reaches that far.
    pub fn thread(&self, slot: usize) -> (tcb: Option<&ThreadControlBlock>)
        ensures
            tcb == if slot < self@.threads.len() {
                Some(&self@.threads[slot as int])
            } else {
                None
            },
    {
        if slot < self.threads.len() {
            Some(&self.threads[slot])
        } else {
            None
        }
    }

    /// The slot of the thread that owns the CPU, if any thread exists.
    pub fn current_slot(&self) -> (slot: Option<usize>)
        requires
            self.wf(),
        ensures
            slot == if self@.threads.len() == 0 {
                None
            } else {
                Some(self@.current as usize)
            },
    {
        if self.current_index < self.threads.len() {
            Some(self.current_index)
        } else {
            None
        }
    }

    /// The number of threads ever created, exited ones included.
    pub fn thread_count(&self) -> (n: usize)
        ensures
            n == self@.threads.len(),
    {
        self.threads.len()
    }

    /// The identifier of the current thread, or `1` when no thread exists
    /// yet: a process without threads counts as its own main thread.
    pub fn current_tid_or_1(&self) -> (tid: usize)
        requires
            self.wf(),
        ensures
            tid == if self@.threads.len() == 0 {
                1
            } else {
                self@.current_tcb().tid
            },
            tid == if self@.threads.len() == 0 {
                1
            } else {
                self@.current + 1
            },
    {
        match self.current_thread() {
            Some(tcb) => tcb.tid,
            None => 1,
        }
    }

    /// Creates a thread that starts from `parent_context` at `mepc`, on the
    /// stack `stack` rounded down to a multiple of 16 and with the thread
    /// pointer `tls`. The first spawn also records the caller as thread 1.
    ///
    /// Returns the new thread's identifier, which also becomes the current
    /// thread's pending return value, or the negated permission error when
    /// the table is full, in which case nothing changes.
    pub fn spawn_thread(
        &mut self,
        parent_context: TrapFrame,
        stack: usize,
        tls: usize,
        clear_child_tid_ptr: usize,
        mepc: usize,
    ) -> (ret: isize)
        requires
            old(self).wf(),
        ensures
            final(self).wf(),
            final(self)@ == old(self)@.spawned(
                parent_context,
                stack,
                tls,
                clear_child_tid_ptr,
                mepc,
            ),
            ret == old(self)@.spawn_result(),
            ret > 0 <==> old(self)@.threads.len() < MAX_THREADS,
            ret > 0 ==> ret == final(self)@.threads.len() && final(self)@.threads.last()
                == SchedulerView::child_thread(
                ret as usize,
                parent_context,
                stack,
                tls,
                clear_child_tid_ptr,
                mepc,
            ),
            old(self)@.threads.len() == 0 ==> ret == 2,
    {
        if self.threads.len() >= MAX_THREADS {
            return Errno::Perm.to_ret();
        }
        if self.threads.len() == 0 {
            let mut main_tcb = ThreadControlBlock::new(
                1,
                parent_context.sp(),
                parent_context.tp(),
                mepc,
            );
            main_tcb.trap_frame = parent_context;
            sync_thread_ctx_from_frame(&mut main_tcb.thread_ctx, &parent_context);
            main_tcb.saved_pc = mepc;
            main_tcb.state = ThreadState::Running;
            self.threads.push(main_tcb);
            self.current_index = 0;
            self.next_tid = 2;
            assert(self.threads@ =~= seq![SchedulerView::main_thread(parent_context, mepc)]);
        }
        let ghost based = self@;
        let new_tid = self.next_tid;
        self.next_tid += 1;
        let stack_base = stack & !0xF;
        proof {
            lemma_align_stack(stack);
        }

        let mut child_tcb = ThreadControlBlock::new(new_tid, stack_base, tls, mepc);
        child_tcb.trap_frame = parent_context;
        sync_thread_ctx_from_frame(&mut child_tcb.thread_ctx, &parent_context);
        child_tcb.thread_ctx.set_sp(stack_base);
        child_tcb.thread_ctx.set_tp(tls);
        child_tcb.thread_ctx.set_return_value(0);
        apply_thread_ctx_to_frame(&mut child_tcb.trap_frame, &child_tcb.thread_ctx);
        child_tcb.trap_frame.set_frame_pointer(stack_base);
        child_tcb.clear_child_tid = clear_child_tid_ptr;
        self.threads.push(child_tcb);
        let cur = self.current_index;
        self.threads[cur].thread_ctx.set_return_value(new_tid);
        assert(self@.threads =~= based.with_retval(new_tid).threads.push(child_tcb));
        new_tid as isize
    }

    /// Records that the current thread exits with `exit_code`.
    ///
    /// The thread becomes `Exited`. If it has a clear-on-exit word, every
    /// thread waiting on that word becomes `Ready`, and the caller is asked to
    /// zero the word. If the thread is the main thread, no other thread is
    /// scheduled: the caller is asked to tell the host that the process has
    /// ended. Otherwise the CPU goes to the next `Ready` thread, if there is
    /// one. With no thread at all the process simply ends.
    pub fn exit_current_and_yield(&mut self, exit_code: i32) -> (out: ExitOutcome)
        requires
            old(self).wf(),
        ensures
            final(self).wf(),
            final(self)@ == old(self)@.exited(),
            out == old(self)@.exit_outcome(exit_code),
            out.ret == 0,
            old(self)@.threads.len() > 0 ==> final(self)@.threads[old(self)@.current].state
                == ThreadState::Exited,
            old(self)@.threads.len() > 0 && old(self)@.current_tcb().clear_child_tid != 0 ==> {
                &&& out.clear_store == Some(
                    WordStore { addr: old(self)@.current_tcb().clear_child_tid, value: 0 },
                )
                &&& forall|i: int|
                    0 <= i < final(self)@.threads.len()
                        ==> !(#[trigger] final(self)@.threads[i]).waits_on(
                        old(self)@.current_tcb().clear_child_tid,
                    )
            },
            old(self)@.threads.len() > 0 && old(self)@.current_tcb().tid == 1 ==> {
                &&& out.tohost == Some(exit_payload(exit_code))
                &&& final(self)@.current == old(self)@.current
                &&& forall|i: int|
                    0 <= i < final(self)@.threads.len()
                        ==> (#[trigger] final(self)@.threads[i]).state != ThreadState::Running
            },
    {
        if self.current_index < self.threads.len() {
            let cur = self.current_index;
            let is_main_thread = self.threads[cur].tid == 1;
            self.threads[cur].state = ThreadState::Exited;
            let ghost marked = self@.threads;

            let clear = self.threads[cur].clear_child_tid;
            let mut clear_store: Option<WordStore> = None;
            if clear != 0 {
                clear_store = Some(WordStore { addr: clear, value: 0 });
                proof {
                    lemma_woken_all(marked, clear, usize::MAX);
                }
                self.wake_futex(clear, usize::MAX);
            }
            if is_main_thread {
                return ExitOutcome { ret: 0, clear_store, tohost: Some(exit_word(exit_code)) };
            }
            self.dispatch_next();
            ExitOutcome { ret: 0, clear_store, tohost: None }
        } else {
            ExitOutcome { ret: 0, clear_store: None, tohost: Some(exit_word(exit_code)) }
        }
    }

    /// The current thread gives up the CPU.
    ///
    /// Its pending return value becomes zero and, if it was `Running`, it
    /// becomes `Ready`. The first `Ready` thread after it in round-robin order
    /// becomes `Running` and current; with no other thread `Ready` that is the
    /// yielding thread itself. A thread that is blocked or has exited, and
    /// finds no thread `Ready`, stays current.
    pub fn yield_now(&mut self)
        requires
            old(self).wf(),
        ensures
            final(self).wf(),
            final(self)@ == old(self)@.yielded(),
            final(self)@.threads.len() == old(self)@.threads.len(),
            old(self)@.single_runner() ==> final(self)@.single_runner(),
    {
        if self.threads.len() == 0 {
            return ;
        }
        self.set_current_retval(0);
        let cur = self.current_index;
        if self.threads[cur].state == ThreadState::Running {
            self.threads[cur].state = ThreadState::Ready;
        }
        self.dispatch_next();
    }

    /// The current thread waits on the 32-bit futex word at `addr`, which the
    /// caller has just read as `actual`.
    ///
    /// If the word does not hold `expected` the wait is refused at once with
    /// the negated try-again error; if no second thread exists it is refused
    /// with the negated deadlock error. A refused wait changes nothing but the
    /// thread's pending return value, which carries the same error.
    /// Otherwise the thread blocks on `addr`, its pending return value is
    /// zero, the CPU goes to the next `Ready` thread, and the call returns
    /// zero.
    pub fn wait_on_addr(&mut self, addr: usize, expected: i32, actual: i32) -> (ret: isize)
        requires
            old(self).wf(),
        ensures
            final(self).wf(),
            final(self)@ == old(self)@.waited(addr, expected, actual),
            ret == old(self)@.wait_result(expected, actual),
            actual != expected ==> ret == Errno::Again.neg()
                && final(self)@ == old(self)@.with_retval(Errno::Again.word()),
            actual == expected && old(self)@.threads.len() <= 1 ==> ret == Errno::Deadlock.neg()
                && final(self)@ == old(self)@.with_retval(Errno::Deadlock.word()),
            actual != expected || old(self)@.threads.len() <= 1 ==> ret < 0
                && final(self)@.current == old(self)@.current
                && forall|i: int|
                    0 <= i < old(self)@.threads.len()
                        ==> (#[trigger] final(self)@.threads[i]).state
                        == old(self)@.threads[i].state,
            actual == expected && old(self)@.threads.len() > 1 ==> ret == 0
                && final(self)@.threads[old(self)@.current].waits_on(addr),
            old(self)@.single_runner() && (ret != 0 || old(self)@.some_ready())
                ==> final(self)@.single_runner(),
    {
        if actual != expected {
            self.set_current_retval(Errno::Again.to_word());
            return Errno::Again.to_ret();
        }
        if self.threads.len() <= 1 {
            self.set_current_retval(Errno::Deadlock.to_word());
            return Errno::Deadlock.to_ret();
        }
        self.set_current_retval(0);
        let cur = self.current_index;
        self.threads[cur].state = ThreadState::Blocked;
        self.threads[cur].futex_wait_addr = addr;
        let ghost blocked = self@;
        proof {
            let zeroed = old(self)@.with_retval(0);
            assert(blocked.threads =~= zeroed.with_thread(
                zeroed.current,
                ThreadControlBlock {
                    state: ThreadState::Blocked,
                    futex_wait_addr: addr,
                    ..zeroed.current_tcb()
                },
            ).threads);
            assert(blocked.with_retval(0).threads =~= blocked.threads);
            if old(self)@.single_runner() && old(self)@.some_ready() {
                let r = choose|i: int|
                    0 <= i < old(self)@.threads.len() && (#[trigger] old(self)@.threads[i]).state
                        == ThreadState::Ready;
                assert(blocked.threads[r].state == ThreadState::Ready);
            }
        }
        self.dispatch_next();
        0
    }

    /// Wakes at most `count` threads that wait on the futex word at `addr`
    /// and reports their number, which also becomes the current thread's
    /// pending return value.
    pub fn wake_on_addr(&mut self, addr: usize, count: usize) -> (ret: usize)
        requires
            old(self).wf(),
        ensures
            final(self).wf(),
            final(self)@ == old(self)@.wake_called(addr, count),
            ret == wake_count(old(self)@.threads, addr, count),
            ret <= count,
            final(self)@.current == old(self)@.current,
            forall|i: int|
                0 <= i < old(self)@.threads.len() && (#[trigger] final(self)@.threads[i]).state
                    != old(self)@.threads[i].state ==> old(self)@.threads[i].waits_on(addr)
                    && final(self)@.threads[i].state == ThreadState::Ready,
            count == 0 ==> ret == 0 && final(self)@ == old(self)@.with_retval(0),
            old(self)@.single_runner() ==> final(self)@.single_runner(),
    {
        let ret = self.wake_futex(addr, count);
        self.set_current_retval(ret);
        ret
    }

    /// Wakes at most `max_count` threads that wait on the futex word at
    /// `futex_addr`, lowest slot first, and reports their number. A woken
    /// thread becomes `Ready` and forgets the word it waited on; no other
    /// thread changes.
    pub fn wake_futex(&mut self, futex_addr: usize, max_count: usize) -> (woken_count: usize)
        requires
            old(self).wf(),
        ensures
            final(self).wf(),
            final(self)@ == (SchedulerView {
                threads: woken(old(self)@.threads, futex_addr, max_count),
                ..old(self)@
            }),
            woken_count == wake_count(old(self)@.threads, futex_addr, max_count),
            woken_count <= max_count,
            forall|i: int|
                0 <= i < old(self)@.threads.len() && (#[trigger] final(self)@.threads[i])
                    != old(self)@.threads[i] ==> old(self)@.threads[i].waits_on(futex_addr),
            max_count == 0 ==> final(self)@ == old(self)@,
    {
        let ghost before = self.threads@;
        let n = self.threads.len();
        let mut woken_count: usize = 0;
        let mut i: usize = 0;
        while i < n && woken_count < max_count
            invariant
                i <= n,
                n == before.len(),
                n <= MAX_THREADS,
                self.threads@.len() == n,
                self.current_index == old(self).current_index,
                self.next_tid == old(self).next_tid,
                self.last_trap_thread == old(self).last_trap_thread,
                woken_count <= max_count,
                woken_count == waiters_before(before, futex_addr, i as int),
                forall|j: int|
                    0 <= j < i ==> (#[trigger] self.threads@[j]) == woken(
                        before,
                        futex_addr,
                        max_count,
                    )[j],
                forall|j: int| i <= j < n ==> (#[trigger] self.threads@[j]) == before[j],
            decreases n - i,
        {
            if self.threads[i].state == ThreadState::Blocked && self.threads[i].futex_wait_addr
                == futex_addr {
                self.threads[i].state = ThreadState::Ready;
                self.threads[i].futex_wait_addr = 0;
                woken_count += 1;
            }
            i += 1;
        }
        proof {
            lemma_woken_bounds(before, futex_addr, max_count);
            lemma_waiters_before(before, futex_addr, i as int, n as int);
            assert forall|j: int| i <= j < n implies !wakes(before, futex_addr, max_count, j) by {
                lemma_waiters_before(before, futex_addr, i as int, j);
            }
            assert(self.threads@ =~= woken(before, futex_addr, max_count));
        }
        woken_count
    }

    /// Stores `tidptr` as the current thread's clear-on-exit word and returns
    /// the thread's identifier, or zero when no thread exists.
    pub fn set_tid_address(&mut self, tidptr: usize) -> (ret: isize)
        requires
            old(self).wf(),
        ensures
            final(self).wf(),
            old(self)@.threads.len() == 0 ==> ret == 0 && final(self)@ == old(self)@,
            old(self)@.threads.len() > 0 ==> ret == old(self)@.current_tcb().tid && final(self)@
                == old(self)@.with_thread(
                old(self)@.current,
                ThreadControlBlock { clear_child_tid: tidptr, ..old(self)@.current_tcb() },
            ),
    {
        if self.current_index < self.threads.len() {
            let cur = self.current_index;
            self.threads[cur].clear_child_tid = tidptr;
            self.threads[cur].tid as isize
        } else {
            0
        }
    }

    /// Sets the current thread's pending return value, if a thread exists.
    fn set_current_retval(&mut self, val: usize)
        requires
            old(self).wf(),
        ensures
            final(self).wf(),
            final(self)@ == old(self)@.with_retval(val),
    {
        if self.current_index < self.threads.len() {
            let cur = self.current_index;
            self.threads[cur].thread_ctx.set_return_value(val);
        }
    }

    /// Hands the CPU to the next `Ready` thread after the current one, if
    /// there is one. No thread may be `Running` when this is called.
    fn dispatch_next(&mut self)
        requires
            old(self).wf(),
            old(self)@.threads.len() > 0,
            forall|i: int|
                0 <= i < old(self)@.threads.len() ==> (#[trigger] old(self)@.threads[i]).state
                    != ThreadState::Running,
        ensures
            final(self).wf(),
            final(self)@ == old(self)@.dispatched(),
            old(self)@.some_ready() ==> final(self)@.single_runner(),
            !old(self)@.some_ready() ==> final(self)@ == old(self)@,
            final(self)@.threads.len() == old(self)@.threads.len(),
            forall|i: int|
                0 <= i < old(self)@.threads.len() && i != final(self)@.current ==> (
                #[trigger] final(self)@.threads[i]) == old(self)@.threads[i],
    {
        let start = (self.current_index + 1) % self.threads.len();
        proof {
            let next = self.current_index as int + 1;
            let n = self.threads@.len() as int;
            if next < n {
                vstd::arithmetic::div_mod::lemma_small_mod(next as nat, n as nat);
            } else {
                vstd::arithmetic::div_mod::lemma_mod_self_0(n);
            }
        }
        match self.find_next_ready(start) {
            Some(next_idx) => {
                self.threads[next_idx].state = ThreadState::Running;
                self.current_index = next_idx;
            },
            None => {},
        }
    }

    /// The first `Ready` slot met when walking the table upward from
    /// `start_from` and wrapping round once.
    fn find_next_ready(&self, start_from: usize) -> (found: Option<usize>)
        requires
            start_from <= self@.threads.len(),
        ensures
            match found {
                Some(i) => next_ready(self@.threads, start_from as int) == Some(i as int) && i
                    < self@.threads.len() && self@.threads[i as int].state == ThreadState::Ready,
                None => next_ready(self@.threads, start_from as int) is None && none_ready(
                    self@.threads,
                    0,
                    self@.threads.len() as int,
                ),
            },
    {
        let n = self.threads.len();
        let mut i: usize = start_from;
        while i < n
            invariant
                start_from <= i <= n,
                n == self.threads@.len(),
                none_ready(self.threads@, start_from as int, i as int),
            decreases n - i,
        {
            if self.threads[i].state == ThreadState::Ready {
                proof {
                    lemma_next_ready_some(self.threads@, start_from as int, i as int);
                }
                return Some(i);
            }
            i += 1;
        }
        let mut k: usize = 0;
        while k < start_from
            invariant
                k <= start_from <= n,
                n == self.threads@.len(),
                none_ready(self.threads@, start_from as int, n as int),
                none_ready(self.threads@, 0, k as int),
            decreases start_from - k,
        {
            if self.threads[k].state == ThreadState::Ready {
                proof {
                    lemma_next_ready_some(self.threads@, start_from as int, k as int);
                }
                return Some(k);
            }
            k += 1;
        }
        None
    }
}

} // verus!
