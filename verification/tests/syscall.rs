use zeroos::arch::ArchContext;
use zeroos::frame::TrapFrame;
use zeroos::syscall::{
    classify, dispatch_syscall, syscall_numbers, CoreNumbers, Features, MemoryNumbers,
    SchedulerNumbers, Syscall, SyscallNumbers, VfsNumbers,
};

const ALL: Features = Features { memory: true, scheduler: true, vfs: true, random: true };
const NONE: Features = Features { memory: false, scheduler: false, vfs: false, random: false };

fn riscv64() -> SyscallNumbers {
    SyscallNumbers {
        memory: MemoryNumbers { brk: 214, mmap: 222, munmap: 215, mprotect: 226, madvise: 233 },
        scheduler: SchedulerNumbers {
            clone: 220,
            futex: 98,
            sched_yield: 124,
            getpid: 172,
            gettid: 178,
            set_tid_address: 96,
        },
        vfs: VfsNumbers {
            openat: 56,
            close: 57,
            read: 63,
            write: 64,
            readv: 65,
            writev: 66,
            lseek: 62,
            ioctl: 29,
            fstat: 80,
        },
        core: CoreNumbers { getrandom: 278, exit: 93, exit_group: 94 },
    }
}

#[test]
fn every_number_of_the_table_classifies() {
    let table = riscv64();
    let expected = [
        (214, Syscall::Brk),
        (222, Syscall::Mmap),
        (215, Syscall::Munmap),
        (226, Syscall::Mprotect),
        (233, Syscall::Madvise),
        (220, Syscall::Clone),
        (98, Syscall::Futex),
        (124, Syscall::SchedYield),
        (172, Syscall::Getpid),
        (178, Syscall::Gettid),
        (96, Syscall::SetTidAddress),
        (56, Syscall::Openat),
        (57, Syscall::Close),
        (63, Syscall::Read),
        (64, Syscall::Write),
        (65, Syscall::Readv),
        (66, Syscall::Writev),
        (62, Syscall::Lseek),
        (29, Syscall::Ioctl),
        (80, Syscall::Fstat),
        (278, Syscall::Getrandom),
        (93, Syscall::Exit),
        (94, Syscall::ExitGroup),
    ];
    for (nr, call) in expected {
        assert_eq!(classify(nr, &table, ALL), call);
    }
}

#[test]
fn other_numbers_are_unsupported() {
    let table = riscv64();
    for nr in [0, 1, 95, 97, 1000, usize::MAX] {
        assert_eq!(classify(nr, &table, ALL), Syscall::Unsupported);
    }
}

#[test]
fn a_group_that_is_left_out_is_unsupported() {
    let table = riscv64();
    assert_eq!(classify(222, &table, Features { memory: false, ..ALL }), Syscall::Unsupported);
    assert_eq!(classify(220, &table, Features { scheduler: false, ..ALL }), Syscall::Unsupported);
    assert_eq!(classify(63, &table, Features { vfs: false, ..ALL }), Syscall::Unsupported);
    assert_eq!(classify(278, &table, Features { random: false, ..ALL }), Syscall::Unsupported);
    assert_eq!(classify(93, &table, NONE), Syscall::Exit);
    assert_eq!(classify(94, &table, NONE), Syscall::ExitGroup);
    assert_eq!(classify(222, &table, NONE), Syscall::Unsupported);
}

#[test]
fn an_earlier_group_wins_a_shared_number() {
    let mut table = riscv64();
    table.scheduler.clone = 222;
    table.vfs.read = 222;
    table.core.exit = 222;
    assert_eq!(classify(222, &table, ALL), Syscall::Mmap);
    assert_eq!(classify(222, &table, Features { memory: false, ..ALL }), Syscall::Clone);
    assert_eq!(
        classify(222, &table, Features { memory: false, scheduler: false, ..ALL }),
        Syscall::Read
    );
    assert_eq!(classify(222, &table, NONE), Syscall::Exit);
}

#[test]
fn the_table_of_this_target_comes_from_libc() {
    let table = syscall_numbers();
    assert_eq!(table.memory.brk, libc::SYS_brk as i64);
    assert_eq!(table.memory.mmap, libc::SYS_mmap as i64);
    assert_eq!(table.memory.munmap, libc::SYS_munmap as i64);
    assert_eq!(table.memory.mprotect, libc::SYS_mprotect as i64);
    assert_eq!(table.memory.madvise, libc::SYS_madvise as i64);
    assert_eq!(table.scheduler.clone, libc::SYS_clone as i64);
    assert_eq!(table.scheduler.futex, libc::SYS_futex as i64);
    assert_eq!(table.scheduler.sched_yield, libc::SYS_sched_yield as i64);
    assert_eq!(table.scheduler.getpid, libc::SYS_getpid as i64);
    assert_eq!(table.scheduler.gettid, libc::SYS_gettid as i64);
    assert_eq!(table.scheduler.set_tid_address, libc::SYS_set_tid_address as i64);
    assert_eq!(table.vfs.openat, libc::SYS_openat as i64);
    assert_eq!(table.vfs.close, libc::SYS_close as i64);
    assert_eq!(table.vfs.read, libc::SYS_read as i64);
    assert_eq!(table.vfs.write, libc::SYS_write as i64);
    assert_eq!(table.vfs.readv, libc::SYS_readv as i64);
    assert_eq!(table.vfs.writev, libc::SYS_writev as i64);
    assert_eq!(table.vfs.lseek, libc::SYS_lseek as i64);
    assert_eq!(table.vfs.ioctl, libc::SYS_ioctl as i64);
    assert_eq!(table.vfs.fstat, libc::SYS_fstat as i64);
    assert_eq!(table.core.getrandom, libc::SYS_getrandom as i64);
    assert_eq!(table.core.exit, libc::SYS_exit as i64);
    assert_eq!(table.core.exit_group, libc::SYS_exit_group as i64);
    assert_eq!(classify(libc::SYS_clone as usize, &table, ALL), Syscall::Clone);
}

#[test]
fn dispatch_reads_the_frame() {
    let mut regs = TrapFrame::new();
    regs.a7 = 98;
    regs.a0 = 0x500;
    regs.a1 = 1;
    regs.a2 = 3;
    regs.a3 = 4;
    regs.a4 = 5;
    regs.a5 = 6;
    regs.a6 = 7;
    regs.mepc = 0x4004;
    let request = dispatch_syscall(&regs, &riscv64(), ALL);
    assert_eq!(request.call, Syscall::Futex);
    assert_eq!(request.args, [0x500, 1, 3, 4, 5, 6]);
    assert_eq!(request.pc, 0x4004);
}
