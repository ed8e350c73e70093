//! Decoding the cause of a trap and deciding what the trap handler does
//! about it.
//!
//! The cause register holds a code in its lower bits and, in its top bit,
//! whether the trap is an interrupt. Decoding is total: a code that names no
//! known cause decodes to `Unknown` in its category.

use vstd::prelude::*;

use crate::frame::TrapFrame;

verus! {

/// The interrupt classes of the machine.
#[derive(Clone, Copy, Debug, PartialEq, Eq, Structural)]
pub enum Interrupt {
    SupervisorSoft,
    MachineSoft,
    SupervisorTimer,
    MachineTimer,
    SupervisorExternal,
    MachineExternal,
    Unknown,
}

/// The synchronous exceptions of the machine.
#[derive(Clone, Copy, Debug, PartialEq, Eq, Structural)]
pub enum Exception {
    InstructionMisaligned,
    InstructionFault,
    IllegalInstruction,
    Breakpoint,
    LoadMisaligned,
    LoadFault,
    StoreMisaligned,
    StoreFault,
    UserEnvCall,
    SupervisorEnvCall,
    MachineEnvCall,
    InstructionPageFault,
    LoadPageFault,
    StorePageFault,
    Unknown,
}

/// A decoded trap cause.
#[derive(Clone, Copy, Debug, PartialEq, Eq, Structural)]
pub enum Trap {
    Interrupt(Interrupt),
    Exception(Exception),
}

/// Whether a cause has its top bit set, which marks an interrupt.
pub open spec fn is_interrupt(mcause: usize) -> bool {
    mcause > isize::MAX
}

/// A cause without its top bit.
pub open spec fn cause_code(mcause: usize) -> int {
    if is_interrupt(mcause) {
        mcause - isize::MAX - 1
    } else {
        mcause as int
    }
}

impl Interrupt {
    /// The interrupt with the given code.
    pub open spec fn from_code(code: int) -> Interrupt {
        if code == 1 {
            Interrupt::SupervisorSoft
        } else if code == 3 {
            Interrupt::MachineSoft
        } else if code == 5 {
            Interrupt::SupervisorTimer
        } else if code == 7 {
            Interrupt::MachineTimer
        } else if code == 9 {
            Interrupt::SupervisorExternal
        } else if code == 11 {
            Interrupt::MachineExternal
        } else {
            Interrupt::Unknown
        }
    }
}

impl Exception {
    /// The exception with the given code.
    pub open spec fn from_code(code: int) -> Exception {
        if code == 0 {
            Exception::InstructionMisaligned
        } else if code == 1 {
            Exception::InstructionFault
        } else if code == 2 {
            Exception::IllegalInstruction
        } else if code == 3 {
            Exception::Breakpoint
        } else if code == 4 {
            Exception::LoadMisaligned
        } else if code == 5 {
            Exception::LoadFault
        } else if code == 6 {
            Exception::StoreMisaligned
        } else if code == 7 {
            Exception::StoreFault
        } else if code == 8 {
            Exception::UserEnvCall
        } else if code == 9 {
            Exception::SupervisorEnvCall
        } else if code == 11 {
            Exception::MachineEnvCall
        } else if code == 12 {
            Exception::InstructionPageFault
        } else if code == 13 {
            Exception::LoadPageFault
        } else if code == 15 {
            Exception::StorePageFault
        } else {
            Exception::Unknown
        }
    }

    /// The number an exception is reported under: its cause code, and 16,
    /// the first number past the known codes, for `Unknown`.
    pub open spec fn spec_code(self) -> u32 {
        match self {
            Exception::InstructionMisaligned => 0,
            Exception::InstructionFault => 1,
            Exception::IllegalInstruction => 2,
            Exception::Breakpoint => 3,
            Exception::LoadMisaligned => 4,
            Exception::LoadFault => 5,
            Exception::StoreMisaligned => 6,
            Exception::StoreFault => 7,
            Exception::UserEnvCall => 8,
            Exception::SupervisorEnvCall => 9,
            Exception::MachineEnvCall => 11,
            Exception::InstructionPageFault => 12,
            Exception::LoadPageFault => 13,
            Exception::StorePageFault => 15,
            Exception::Unknown => 16,
        }
    }

    /// Whether the exception is an environment call, from any privilege
    /// level.
    pub open spec fn is_env_call(self) -> bool {
        self == Exception::UserEnvCall || self == Exception::SupervisorEnvCall || self
            == Exception::MachineEnvCall
    }

    /// The number the exception is reported under.
    pub fn code(self) -> (c: u32)
        ensures
            c == self.spec_code(),
            self != Exception::Unknown ==> Exception::from_code(c as int) == self,
    {
        match self {
            Exception::InstructionMisaligned => 0,
            Exception::InstructionFault => 1,
            Exception::IllegalInstruction => 2,
            Exception::Breakpoint => 3,
            Exception::LoadMisaligned => 4,
            Exception::LoadFault => 5,
            Exception::StoreMisaligned => 6,
            Exception::StoreFault => 7,
            Exception::UserEnvCall => 8,
            Exception::SupervisorEnvCall => 9,
            Exception::MachineEnvCall => 11,
            Exception::InstructionPageFault => 12,
            Exception::LoadPageFault => 13,
            Exception::StorePageFault => 15,
            Exception::Unknown => 16,
        }
    }
}

/// The trap a cause stands for.
pub open spec fn decoded(mcause: usize) -> Trap {
    if is_interrupt(mcause) {
        Trap::Interrupt(Interrupt::from_code(cause_code(mcause)))
    } else {
        Trap::Exception(Exception::from_code(cause_code(mcause)))
    }
}

/// Classifies a raw cause. Every value decodes.
pub fn decode_trap(mcause: usize) -> (trap: Trap)
    ensures
        trap == decoded(mcause),
        trap is Interrupt <==> is_interrupt(mcause),
{
    let top: usize = isize::MAX as usize;
    let is_int = mcause > top;
    let code = if is_int {
        mcause - top - 1
    } else {
        mcause
    };
    if is_int {
        match code {
            1 => Trap::Interrupt(Interrupt::SupervisorSoft),
            3 => Trap::Interrupt(Interrupt::MachineSoft),
            5 => Trap::Interrupt(Interrupt::SupervisorTimer),
            7 => Trap::Interrupt(Interrupt::MachineTimer),
            9 => Trap::Interrupt(Interrupt::SupervisorExternal),
            11 => Trap::Interrupt(Interrupt::MachineExternal),
            _ => Trap::Interrupt(Interrupt::Unknown),
        }
    } else {
        match code {
            0 => Trap::Exception(Exception::InstructionMisaligned),
            1 => Trap::Exception(Exception::InstructionFault),
            2 => Trap::Exception(Exception::IllegalInstruction),
            3 => Trap::Exception(Exception::Breakpoint),
            4 => Trap::Exception(Exception::LoadMisaligned),
            5 => Trap::Exception(Exception::LoadFault),
            6 => Trap::Exception(Exception::StoreMisaligned),
            7 => Trap::Exception(Exception::StoreFault),
            8 => Trap::Exception(Exception::UserEnvCall),
            9 => Trap::Exception(Exception::SupervisorEnvCall),
            11 => Trap::Exception(Exception::MachineEnvCall),
            12 => Trap::Exception(Exception::InstructionPageFault),
            13 => Trap::Exception(Exception::LoadPageFault),
            15 => Trap::Exception(Exception::StorePageFault),
            _ => Trap::Exception(Exception::Unknown),
        }
    }
}

/// What the trap handler does about a trap.
#[derive(Clone, Copy, Debug, PartialEq, Eq, Structural)]
pub enum TrapAction {
    /// An environment call: step past the call instruction and run the
    /// syscall between the two halves of the trap glue.
    Syscall,
    /// A breakpoint: step past the breakpoint instruction and resume.
    Breakpoint,
    /// Any other exception: end the process with this exit code.
    Exit(u32),
    /// An interrupt: resume where the trap was taken.
    Resume,
}

/// The action a decoded trap calls for.
pub open spec fn action_of(trap: Trap) -> TrapAction {
    match trap {
        Trap::Interrupt(_) => TrapAction::Resume,
        Trap::Exception(e) => if e.is_env_call() {
            TrapAction::Syscall
        } else if e == Exception::Breakpoint {
            TrapAction::Breakpoint
        } else {
            TrapAction::Exit(e.spec_code())
        },
    }
}

/// Decides what the trap handler does for the cause `mcause`.
pub fn trap_action(mcause: usize) -> (action: TrapAction)
    ensures
        action == action_of(decoded(mcause)),
{
    match decode_trap(mcause) {
        Trap::Exception(Exception::MachineEnvCall)
        | Trap::Exception(Exception::SupervisorEnvCall)
        | Trap::Exception(Exception::UserEnvCall) => TrapAction::Syscall,
        Trap::Exception(Exception::Breakpoint) => TrapAction::Breakpoint,
        Trap::Exception(e) => TrapAction::Exit(e.code()),
        Trap::Interrupt(_) => TrapAction::Resume,
    }
}

/// The length in bytes of the instruction that starts with `halfword`: four
/// when the two low bits are both set, two for a compressed instruction.
pub open spec fn spec_instr_len(halfword: u16) -> usize {
    if halfword % 4 == 3 {
        4
    } else {
        2
    }
}

/// The length in bytes of the instruction that starts with `halfword`.
pub fn instr_len(halfword: u16) -> (len: usize)
    ensures
        len == spec_instr_len(halfword),
{
    assert((halfword & 0b11 == 0b11) == (halfword % 4 == 3)) by (bit_vector);
    if (halfword & 0b11) == 0b11 {
        4
    } else {
        2
    }
}

/// Steps the trapped program counter past the breakpoint instruction, whose
/// first halfword is `halfword`. The counter wraps at the top of the address
/// space.
pub fn advance_mepc_for_breakpoint(regs: &mut TrapFrame, halfword: u16)
    ensures
        *final(regs) == (TrapFrame {
            mepc: if old(regs).mepc + spec_instr_len(halfword) > usize::MAX {
                (old(regs).mepc + spec_instr_len(halfword) - usize::MAX - 1) as usize
            } else {
                (old(regs).mepc + spec_instr_len(halfword)) as usize
            },
            ..*old(regs)
        }),
{
    regs.mepc = regs.mepc.wrapping_add(instr_len(halfword));
}

/// Steps the trapped program counter past the four-byte environment call
/// instruction.
pub fn advance_mepc_for_syscall(regs: &mut TrapFrame)
    requires
        old(regs).mepc <= usize::MAX - 4,
    ensures
        *final(regs) == (TrapFrame { mepc: (old(regs).mepc + 4) as usize, ..*old(regs) }),
{
    regs.mepc += 4;
}

} // verus!
