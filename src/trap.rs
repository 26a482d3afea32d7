use vstd::prelude::*;
use riscv::register::mcause::{Exception, Interrupt};

verus! {

/// riscv's `mcause::Exception`, a field-less enum whose variants verified
/// code matches on.
#[verifier::external_type_specification]
pub struct ExException(Exception);

/// riscv's `mcause::Interrupt`, a field-less enum whose variants verified
/// code matches on.
#[verifier::external_type_specification]
pub struct ExInterrupt(Interrupt);

/// The exception that riscv's `mcause::Exception::from` decodes from an
/// exception code.
pub open spec fn exception_of_code(code: usize) -> Exception {
    if code == 0 {
        Exception::InstructionMisaligned
    } else if code == 1 {
        Exception::InstructionFault
    } else if code == 2 {
        Exception::IllegalInstruction
    } else if code == 3 {
        Exception::Breakpoint
    } else if code == 4 {
        Exception::LoadMisaligned
    } else if code == 5 {
        Exception::LoadFault
    } else if code == 6 {
        Exception::StoreMisaligned
    } else if code == 7 {
        Exception::StoreFault
    } else if code == 8 {
        Exception::UserEnvCall
    } else if code == 9 {
        Exception::SupervisorEnvCall
    } else if code == 11 {
        Exception::MachineEnvCall
    } else if code == 12 {
        Exception::InstructionPageFault
    } else if code == 13 {
        Exception::LoadPageFault
    } else if code == 15 {
        Exception::StorePageFault
    } else {
        Exception::Unknown
    }
}

/// The interrupt that riscv's `mcause::Interrupt::from` decodes from an
/// interrupt code.
pub open spec fn interrupt_of_code(code: usize) -> Interrupt {
    if code == 0 {
        Interrupt::UserSoft
    } else if code == 1 {
        Interrupt::SupervisorSoft
    } else if code == 3 {
        Interrupt::MachineSoft
    } else if code == 4 {
        Interrupt::UserTimer
    } else if code == 5 {
        Interrupt::SupervisorTimer
    } else if code == 7 {
        Interrupt::MachineTimer
    } else if code == 8 {
        Interrupt::UserExternal
    } else if code == 9 {
        Interrupt::SupervisorExternal
    } else if code == 11 {
        Interrupt::MachineExternal
    } else {
        Interrupt::Unknown
    }
}

/// Relies on riscv's `mcause::Exception::from`: a fixed table from exception
/// codes to exceptions.
pub assume_specification[ Exception::from ](nr: usize) -> (r: Exception)
    ensures
        r == exception_of_code(nr),
;

/// Relies on riscv's `mcause::Interrupt::from`: a fixed table from interrupt
/// codes to interrupts.
pub assume_specification[ Interrupt::from ](nr: usize) -> (r: Interrupt)
    ensures
        r == interrupt_of_code(nr),
;

/// Why control came back from the supervisor to the monitor.
#[derive(Clone, Copy, Debug, PartialEq, Eq, Structural)]
pub enum MachineTrap {
    /// `ecall` from supervisor mode.
    SbiCall,
    /// Illegal-instruction exception.
    IllegalInstruction,
    /// M-mode external interrupt (from the interrupt controller).
    ExternalInterrupt,
    /// M-mode timer interrupt.
    MachineTimer,
    /// M-mode software interrupt.
    MachineSoft,
    /// Instruction access fault at the given address.
    InstructionFault(usize),
    /// Load access fault at the given address.
    LoadFault(usize),
    /// Store access fault at the given address.
    StoreFault(usize),
    /// Instruction page fault at the given address.
    InstructionPageFault(usize),
    /// Load page fault at the given address.
    LoadPageFault(usize),
    /// Store page fault at the given address.
    StorePageFault(usize),
}

/// Whether an `mcause` value reports an interrupt: its top bit is set.
pub open spec fn is_interrupt_cause(mcause: usize) -> bool {
    mcause > usize::MAX / 2
}

/// The cause code of an `mcause` value: the value without its top bit.
pub open spec fn cause_code(mcause: usize) -> usize {
    if is_interrupt_cause(mcause) {
        (mcause - (usize::MAX / 2 + 1)) as usize
    } else {
        mcause
    }
}

/// The trap that `mcause` and `mtval` describe, if the monitor handles it.
pub open spec fn trap_of(mcause: usize, mtval: usize) -> Option<MachineTrap> {
    let code = cause_code(mcause);
    if is_interrupt_cause(mcause) {
        if code == 11 {
            Some(MachineTrap::ExternalInterrupt)
        } else if code == 7 {
            Some(MachineTrap::MachineTimer)
        } else if code == 3 {
            Some(MachineTrap::MachineSoft)
        } else {
            None
        }
    } else if code == 9 {
        Some(MachineTrap::SbiCall)
    } else if code == 2 {
        Some(MachineTrap::IllegalInstruction)
    } else if code == 1 {
        Some(MachineTrap::InstructionFault(mtval))
    } else if code == 5 {
        Some(MachineTrap::LoadFault(mtval))
    } else if code == 7 {
        Some(MachineTrap::StoreFault(mtval))
    } else if code == 12 {
        Some(MachineTrap::InstructionPageFault(mtval))
    } else if code == 13 {
        Some(MachineTrap::LoadPageFault(mtval))
    } else if code == 15 {
        Some(MachineTrap::StorePageFault(mtval))
    } else {
        None
    }
}

/// Classifies a trap taken into M-mode from its `mcause` and `mtval`.
/// Returns `None` for a cause the monitor does not handle (an environment
/// call from U- or M-mode, a misaligned access, a breakpoint, an unknown
/// code, or an interrupt other than the M-level external, timer and
/// software interrupts).
pub fn classify_trap(mcause: usize, mtval: usize) -> (r: Option<MachineTrap>)
    ensures
        r == trap_of(mcause, mtval),
{
    if mcause > usize::MAX / 2 {
        let code = mcause - (usize::MAX / 2 + 1);
        match Interrupt::from(code) {
            Interrupt::MachineExternal => Some(MachineTrap::ExternalInterrupt),
            Interrupt::MachineTimer => Some(MachineTrap::MachineTimer),
            Interrupt::MachineSoft => Some(MachineTrap::MachineSoft),
            _ => None,
        }
    } else {
        match Exception::from(mcause) {
            Exception::SupervisorEnvCall => Some(MachineTrap::SbiCall),
            Exception::IllegalInstruction => Some(MachineTrap::IllegalInstruction),
            Exception::InstructionFault => Some(MachineTrap::InstructionFault(mtval)),
            Exception::LoadFault => Some(MachineTrap::LoadFault(mtval)),
            Exception::StoreFault => Some(MachineTrap::StoreFault(mtval)),
            Exception::InstructionPageFault => Some(MachineTrap::InstructionPageFault(mtval)),
            Exception::LoadPageFault => Some(MachineTrap::LoadPageFault(mtval)),
            Exception::StorePageFault => Some(MachineTrap::StorePageFault(mtval)),
            _ => None,
        }
    }
}

} // verus!
