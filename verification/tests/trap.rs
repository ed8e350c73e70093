use zeroos::arch::ArchContext;
use zeroos::frame::TrapFrame;
use zeroos::trap::{
    advance_mepc_for_breakpoint, advance_mepc_for_syscall, decode_trap, instr_len, trap_action,
    Exception, Interrupt, Trap, TrapAction,
};

const INTERRUPT: usize = 1 << (usize::BITS - 1);

#[test]
fn known_exceptions_decode() {
    let table = [
        (0, Exception::InstructionMisaligned),
        (1, Exception::InstructionFault),
        (2, Exception::IllegalInstruction),
        (3, Exception::Breakpoint),
        (4, Exception::LoadMisaligned),
        (5, Exception::LoadFault),
        (6, Exception::StoreMisaligned),
        (7, Exception::StoreFault),
        (8, Exception::UserEnvCall),
        (9, Exception::SupervisorEnvCall),
        (11, Exception::MachineEnvCall),
        (12, Exception::InstructionPageFault),
        (13, Exception::LoadPageFault),
        (15, Exception::StorePageFault),
    ];
    for (code, exception) in table {
        assert_eq!(decode_trap(code), Trap::Exception(exception));
        assert_eq!(exception.code() as usize, code);
    }
}

#[test]
fn known_interrupts_decode() {
    let table = [
        (1, Interrupt::SupervisorSoft),
        (3, Interrupt::MachineSoft),
        (5, Interrupt::SupervisorTimer),
        (7, Interrupt::MachineTimer),
        (9, Interrupt::SupervisorExternal),
        (11, Interrupt::MachineExternal),
    ];
    for (code, interrupt) in table {
        assert_eq!(decode_trap(INTERRUPT | code), Trap::Interrupt(interrupt));
    }
}

#[test]
fn unknown_codes_decode_to_unknown() {
    for code in [10, 14, 16, 17, 100, INTERRUPT - 1] {
        assert_eq!(decode_trap(code), Trap::Exception(Exception::Unknown));
    }
    for code in [0, 2, 4, 6, 8, 10, 12, 13, 100, INTERRUPT - 1] {
        assert_eq!(decode_trap(INTERRUPT | code), Trap::Interrupt(Interrupt::Unknown));
    }
    assert_eq!(decode_trap(usize::MAX), Trap::Interrupt(Interrupt::Unknown));
    assert_eq!(Exception::Unknown.code(), 16);
}

#[test]
fn the_top_bit_alone_selects_interrupts() {
    assert_eq!(decode_trap(INTERRUPT - 1), Trap::Exception(Exception::Unknown));
    assert_eq!(decode_trap(INTERRUPT), Trap::Interrupt(Interrupt::Unknown));
    assert_eq!(decode_trap(INTERRUPT >> 1 | 3), Trap::Exception(Exception::Unknown));
}

#[test]
fn env_calls_are_syscalls() {
    assert_eq!(trap_action(8), TrapAction::Syscall);
    assert_eq!(trap_action(9), TrapAction::Syscall);
    assert_eq!(trap_action(11), TrapAction::Syscall);
}

#[test]
fn other_traps_have_their_actions() {
    assert_eq!(trap_action(3), TrapAction::Breakpoint);
    assert_eq!(trap_action(2), TrapAction::Exit(2));
    assert_eq!(trap_action(13), TrapAction::Exit(13));
    assert_eq!(trap_action(10), TrapAction::Exit(16));
    assert_eq!(trap_action(INTERRUPT | 7), TrapAction::Resume);
    assert_eq!(trap_action(INTERRUPT | 8), TrapAction::Resume);
}

#[test]
fn instruction_length_follows_the_low_bits() {
    assert_eq!(instr_len(0x0003), 4);
    assert_eq!(instr_len(0x9002), 2);
    assert_eq!(instr_len(0x0000), 2);
    assert_eq!(instr_len(0x0001), 2);
    assert_eq!(instr_len(0xffff), 4);
    assert_eq!(instr_len(0x0073), 4);
}

#[test]
fn breakpoint_steps_past_the_instruction() {
    let mut regs = TrapFrame::new();
    regs.mepc = 0x1000;
    regs.a0 = 7;
    advance_mepc_for_breakpoint(&mut regs, 0x9002);
    assert_eq!(regs.mepc, 0x1002);
    advance_mepc_for_breakpoint(&mut regs, 0x0073);
    assert_eq!(regs.mepc, 0x1006);
    assert_eq!(regs.a0, 7);
    regs.mepc = usize::MAX - 1;
    advance_mepc_for_breakpoint(&mut regs, 0x0073);
    assert_eq!(regs.mepc, 2);
}

#[test]
fn syscall_steps_past_the_call() {
    let mut regs = TrapFrame::new();
    regs.mepc = 0x2000;
    advance_mepc_for_syscall(&mut regs);
    assert_eq!(regs.mepc, 0x2004);
}
