use zeroos::handlers::memory::{
    mmap_return, mmap_size, munmap_size, sys_brk, sys_mprotect, PAGE_SIZE,
};
use zeroos::handlers::random::{
    sys_getrandom, urandom_close, urandom_ioctl, urandom_read, urandom_seek, urandom_write,
};
use zeroos::handlers::thread::{decode_futex_op, sys_clone, sys_futex, FutexOp};
use zeroos::handlers::vfs::{check_iovec, iovec_after, iovec_before, IoVec, VecNext, VecStep};
use zeroos::handlers::{check_buffer, check_pointer, sys_unsupported, Precheck};
use zeroos::errno::Errno;
use zeroos::frame::TrapFrame;
use zeroos::arch::ArchContext;
use zeroos::memory::WordStore;
use zeroos::ops::{current_tid, init, spawn_thread, SchedulerCell};

const PRIVATE_ANON: usize = 0x22;

#[test]
fn errno_values_are_the_linux_ones() {
    assert_eq!(Errno::Perm.raw(), libc::EPERM);
    assert_eq!(Errno::Again.raw(), libc::EAGAIN);
    assert_eq!(Errno::Deadlock.raw(), libc::EDEADLK);
    assert_eq!(Errno::BadFd.raw(), libc::EBADF);
    assert_eq!(Errno::NoMem.raw(), libc::ENOMEM);
    assert_eq!(Errno::Fault.raw(), libc::EFAULT);
    assert_eq!(Errno::Inval.raw(), libc::EINVAL);
    assert_eq!(Errno::NoTty.raw(), libc::ENOTTY);
    assert_eq!(Errno::IllegalSeek.raw(), libc::ESPIPE);
    assert_eq!(Errno::NoSys.raw(), libc::ENOSYS);
}

#[test]
fn errno_returns_are_negated() {
    assert_eq!(Errno::Perm.to_ret(), -1);
    assert_eq!(Errno::BadFd.to_ret(), -9);
    assert_eq!(Errno::Again.to_ret(), -11);
    assert_eq!(Errno::NoMem.to_ret(), -12);
    assert_eq!(Errno::Fault.to_ret(), -14);
    assert_eq!(Errno::Inval.to_ret(), -22);
    assert_eq!(Errno::NoTty.to_ret(), -25);
    assert_eq!(Errno::IllegalSeek.to_ret(), -29);
    assert_eq!(Errno::Deadlock.to_ret(), -35);
    assert_eq!(Errno::NoSys.to_ret(), -38);
    assert_eq!(Errno::Again.to_word(), usize::MAX - 10);
}

#[test]
fn brk_is_out_of_memory() {
    assert_eq!(sys_brk(0), -12);
    assert_eq!(sys_brk(0x10000), -12);
}

#[test]
fn mmap_rounds_to_whole_pages() {
    assert_eq!(PAGE_SIZE, 4096);
    assert_eq!(mmap_size(0, 1, 3, PRIVATE_ANON, usize::MAX, 0), Ok(4096));
    assert_eq!(mmap_size(0, 4096, 3, PRIVATE_ANON, usize::MAX, 0), Ok(4096));
    assert_eq!(mmap_size(0, 4097, 3, PRIVATE_ANON, usize::MAX, 0), Ok(8192));
    assert_eq!(mmap_size(0, 10 * 4096, 0, PRIVATE_ANON | 0x20000, 0, 0), Ok(40960));
}

#[test]
fn mmap_refuses_what_it_does_not_serve() {
    let inval = Err(Errno::Inval);
    assert_eq!(mmap_size(0, 0, 3, PRIVATE_ANON, usize::MAX, 0), inval);
    assert_eq!(mmap_size(0, 4096, 4, PRIVATE_ANON, usize::MAX, 0), inval);
    assert_eq!(mmap_size(0, 4096, 7, PRIVATE_ANON, usize::MAX, 0), inval);
    assert_eq!(mmap_size(0, 4096, 3, PRIVATE_ANON | 0x10, usize::MAX, 0), inval);
    assert_eq!(mmap_size(0, 4096, 3, 0x20, usize::MAX, 0), inval);
    assert_eq!(mmap_size(0, 4096, 3, 0x02, usize::MAX, 0), inval);
    assert_eq!(mmap_size(0, 4096, 3, 0x21, usize::MAX, 0), inval);
    assert_eq!(mmap_size(0x1000, 4096, 3, PRIVATE_ANON, usize::MAX, 0), inval);
    assert_eq!(mmap_size(0, 4096, 3, PRIVATE_ANON, usize::MAX, 4096), inval);
    assert_eq!(mmap_size(0, 4096, 3, PRIVATE_ANON, 3, 0), inval);
}

#[test]
fn mmap_refuses_sizes_past_the_largest_block() {
    let inval = Err(Errno::Inval);
    assert_eq!(mmap_size(0, usize::MAX, 3, PRIVATE_ANON, usize::MAX, 0), inval);
    assert_eq!(mmap_size(0, isize::MAX as usize, 3, PRIVATE_ANON, usize::MAX, 0), inval);
    let largest = (isize::MAX as usize) - 4095;
    assert_eq!(mmap_size(0, largest, 3, PRIVATE_ANON, usize::MAX, 0), Ok(largest));
    assert_eq!(mmap_size(0, largest + 1, 3, PRIVATE_ANON, usize::MAX, 0), inval);
}

#[test]
fn mmap_return_is_the_address_or_out_of_memory() {
    assert_eq!(mmap_return(0), -12);
    assert_eq!(mmap_return(0x8000_0000), 0x8000_0000);
}

#[test]
fn munmap_checks_the_range() {
    assert_eq!(munmap_size(0x1000, 1), Ok(4096));
    assert_eq!(munmap_size(0x1000, 8192), Ok(8192));
    assert_eq!(munmap_size(0, 4096), Err(Errno::Inval));
    assert_eq!(munmap_size(0x1000, 0), Err(Errno::Inval));
    assert_eq!(munmap_size(0x1001, 4096), Err(Errno::Inval));
    assert_eq!(munmap_size(0x1000, usize::MAX), Err(Errno::Inval));
}

#[test]
fn mprotect_checks_its_arguments() {
    assert_eq!(sys_mprotect(0x1000, 4096, 3), 0);
    assert_eq!(sys_mprotect(0x1000, 1, 0), 0);
    assert_eq!(sys_mprotect(0, 4096, 3), -22);
    assert_eq!(sys_mprotect(0x1000, 0, 3), -22);
    assert_eq!(sys_mprotect(0x1800, 4096, 3), -22);
    assert_eq!(sys_mprotect(0x1000, 4096, 4), -22);
}

#[test]
fn buffer_checks() {
    assert_eq!(check_buffer(0x1000, 0), Precheck::Done(0));
    assert_eq!(check_buffer(0, 0), Precheck::Done(0));
    assert_eq!(check_buffer(0, 8), Precheck::Done(-14));
    assert_eq!(check_buffer(0x1000, 8), Precheck::Proceed);
    assert_eq!(check_pointer(0), Precheck::Done(-14));
    assert_eq!(check_pointer(0x1000), Precheck::Proceed);
    assert_eq!(sys_unsupported(), -38);
}

#[test]
fn getrandom_checks_its_buffer() {
    assert_eq!(sys_getrandom(0x1000, 0, 0), Precheck::Done(0));
    assert_eq!(sys_getrandom(0, 16, 0), Precheck::Done(-14));
    assert_eq!(sys_getrandom(0x1000, 16, 1), Precheck::Proceed);
}

#[test]
fn random_device_operations() {
    assert_eq!(urandom_read(0, 0), Precheck::Proceed);
    assert_eq!(urandom_read(0, 4), Precheck::Done(-14));
    assert_eq!(urandom_read(0x1000, 4), Precheck::Proceed);
    assert_eq!(urandom_write(), -9);
    assert_eq!(urandom_close(), 0);
    assert_eq!(urandom_seek(), -29);
    assert_eq!(urandom_ioctl(), -25);
}

#[test]
fn iovec_list_checks() {
    assert_eq!(check_iovec(0x1000, 0), Precheck::Done(-22));
    assert_eq!(check_iovec(0, 1), Precheck::Done(-14));
    assert_eq!(check_iovec(0x1000, 1025), Precheck::Done(-22));
    assert_eq!(check_iovec(0x1000, 1024), Precheck::Proceed);
    assert_eq!(check_iovec(0x1001, 1), Precheck::Done(-22));
    assert_eq!(check_iovec(0x1000 + std::mem::align_of::<usize>(), 1), Precheck::Proceed);
}

#[test]
fn iovec_walk_before_a_buffer() {
    let empty = IoVec { iov_base: 0x1000, iov_len: 0 };
    let null = IoVec { iov_base: 0, iov_len: 8 };
    let good = IoVec { iov_base: 0x1000, iov_len: 8 };
    assert_eq!(iovec_before(0, empty), VecStep::Skip);
    assert_eq!(iovec_before(0, IoVec { iov_base: 0, iov_len: 0 }), VecStep::Skip);
    assert_eq!(iovec_before(0, null), VecStep::Stop(-14));
    assert_eq!(iovec_before(24, null), VecStep::Stop(24));
    assert_eq!(iovec_before(24, good), VecStep::Transfer);
}

#[test]
fn iovec_walk_after_a_buffer() {
    assert_eq!(iovec_after(0, 8, 8), VecNext::Continue(8));
    assert_eq!(iovec_after(16, 8, 8), VecNext::Continue(24));
    assert_eq!(iovec_after(16, 8, 3), VecNext::Stop(19));
    assert_eq!(iovec_after(16, 8, 0), VecNext::Stop(16));
    assert_eq!(iovec_after(0, 8, -5), VecNext::Stop(-5));
    assert_eq!(iovec_after(16, 8, -5), VecNext::Stop(16));
}

#[test]
fn futex_operations_decode() {
    assert_eq!(decode_futex_op(0), Some(FutexOp::Wait));
    assert_eq!(decode_futex_op(1), Some(FutexOp::Wake));
    assert_eq!(decode_futex_op(2), None);
    assert_eq!(decode_futex_op(128), None);
}

#[test]
fn futex_waits_and_wakes() {
    let mut cell = SchedulerCell::new();
    init(&mut cell);
    spawn_thread(&mut cell, 0x8000, 0, 0, 0, 0, 0, Some(TrapFrame::new()));
    assert_eq!(sys_futex(&mut cell, 0x500, 0, 7, 8), -11);
    assert_eq!(sys_futex(&mut cell, 0x500, 0, 7, 7), 0);
    assert_eq!(current_tid(&cell), 2);
    assert_eq!(sys_futex(&mut cell, 0x500, 1, 0, 0), 0);
    assert_eq!(sys_futex(&mut cell, 0x500, 1, 5, 0), 1);
    assert_eq!(sys_futex(&mut cell, 0x500, 9, 5, 0), -38);
    assert_eq!(current_tid(&cell), 2);
}

#[test]
fn clone_takes_the_clear_word_from_the_flags() {
    let mut cell = SchedulerCell::new();
    init(&mut cell);
    let live = TrapFrame::new();
    let out = sys_clone(&mut cell, 0x0020_0000 | 0x100, 0x8000, 0x10, 0x9000, 0x20, 0x4004, Some(live));
    assert_eq!(out.ret, 2);
    assert_eq!(out.parent_tid_store, Some(WordStore { addr: 0x10, value: 2 }));
    assert_eq!(out.child_tid_store, Some(WordStore { addr: 0x20, value: 2 }));
    assert_eq!(out.frame.unwrap().return_value(), 2);
    let child = *cell.scheduler().unwrap().thread(1).unwrap();
    assert_eq!(child.clear_child_tid, 0x20);
    assert_eq!(child.thread_ctx.sp(), 0x8000);
    assert_eq!(child.thread_ctx.tp(), 0x9000);

    let out = sys_clone(&mut cell, 0x100, 0x8000, 0, 0x9000, 0x24, 0x4004, Some(live));
    assert_eq!(out.ret, 3);
    assert_eq!(out.parent_tid_store, None);
    assert_eq!(out.child_tid_store, Some(WordStore { addr: 0x24, value: 3 }));
    assert_eq!(cell.scheduler().unwrap().thread(2).unwrap().clear_child_tid, 0);
}

#[test]
fn clone_without_a_scheduler_is_refused() {
    let mut cell = SchedulerCell::new();
    let out = sys_clone(&mut cell, 0, 0x8000, 0x10, 0x9000, 0x20, 0x4004, Some(TrapFrame::new()));
    assert_eq!(out.ret, -1);
    assert_eq!(out.parent_tid_store, None);
    assert_eq!(out.child_tid_store, None);
    assert_eq!(out.frame, None);
}
