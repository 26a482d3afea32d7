use vstd::prelude::*;
use crate::context::SupervisorContext;
use crate::csr::HartState;
use crate::emulate::{
    emulate_float, emulate_rdtime, emulate_sfence_vma, emulate_wfi, float_len, is_rdtime,
    is_rdtimeh, is_sfence_vma, rd_of, FS_DIRTY, WFI,
};
use crate::feature::{
    call_supervisor_interrupt, emulate_sbi_rustsbi_nezha_sext, forward_supervisor_soft,
    forward_supervisor_timer, is_sext_call, preprocess_supervisor_external, preprocessed,
    sext_registered, soft_forwarded, timer_forwarded, upcall_status, SupervisorUpcall,
};
use crate::csr::mpp_of;
use crate::transfer::{
    do_transfer_trap, should_transfer_trap, transferred_ctx, transferred_hart, transfers_trap,
    SupervisorException,
};
use crate::trap::MachineTrap;

verus! {

/// Joins the two half-words of an instruction, read at its address and two
/// bytes above it, into its 32-bit encoding (little-endian).
pub fn instruction_from_halves(lo: u16, hi: u16) -> (r: u32)
    ensures
        r == lo as int + 65536 * hi as int,
{
    let l = lo as u32;
    let h = hi as u32;
    assert(l <= 0xffff && h <= 0xffff ==> l | (h << 16u32) == l + h * 65536) by (bit_vector);
    l | (h << 16u32)
}

/// A standard SBI call for the dispatch library: extension id (`a7`),
/// function id (`a6`) and the arguments `a0..a5`.
#[derive(Clone, Copy, Debug)]
pub struct SbiRequest {
    pub extension: usize,
    pub function: usize,
    pub params: [usize; 6],
}

/// Whether `r` is the call that the supervisor's registers in `c` make.
pub open spec fn is_request_of(r: SbiRequest, c: SupervisorContext) -> bool {
    r.extension == c.a7 && r.function == c.a6 && r.params@ == seq![c.a0, c.a1, c.a2, c.a3, c.a4, c.a5]
}

/// Tries the calls that the monitor answers itself (the registration of the
/// external-interrupt handler). Returns whether the call was answered.
pub fn emulate_sbi_call(ctx: &mut SupervisorContext, hart: &mut HartState) -> (r: bool)
    ensures
        r == is_sext_call(*old(ctx)),
        r ==> *final(ctx) == old(ctx).with_sbi_ret(0, 0) && *final(hart) == sext_registered(
            *old(hart),
            old(ctx).a0,
        ),
        !r ==> *final(ctx) == *old(ctx) && *final(hart) == *old(hart),
{
    emulate_sbi_rustsbi_nezha_sext(ctx, hart)
}

/// Handles an `ecall` from the supervisor. The call of extension zero first
/// re-arms M-mode external interrupts where that is due. A call the monitor
/// answers itself is answered and the supervisor moves past the `ecall`;
/// any other is returned, untouched, for the dispatch library, and
/// [`finish_sbi_call`] completes it.
pub fn handle_sbi_call(ctx: &mut SupervisorContext, hart: &mut HartState) -> (r: Option<SbiRequest>)
    ensures
        is_sext_call(*old(ctx)) ==> r.is_none() && *final(ctx) == old(ctx).with_sbi_ret(
            0,
            0,
        ).advanced(4) && *final(hart) == sext_registered(
            preprocessed(*old(hart), old(ctx).a7),
            old(ctx).a0,
        ),
        !is_sext_call(*old(ctx)) ==> r.is_some() && is_request_of(r.unwrap(), *old(ctx))
            && *final(ctx) == *old(ctx) && *final(hart) == preprocessed(*old(hart), old(ctx).a7),
{
    preprocess_supervisor_external(ctx, hart);
    if emulate_sbi_call(ctx, hart) {
        ctx.advance(4);
        return None;
    }
    Some(
        SbiRequest {
            extension: ctx.a7,
            function: ctx.a6,
            params: [ctx.a0, ctx.a1, ctx.a2, ctx.a3, ctx.a4, ctx.a5],
        },
    )
}

/// Completes a standard SBI call with the dispatch library's answer: `a0`
/// receives the error, `a1` the value, and the supervisor moves past the
/// `ecall`.
pub fn finish_sbi_call(ctx: &mut SupervisorContext, error: usize, value: usize)
    ensures
        *final(ctx) == old(ctx).with_sbi_ret(error, value).advanced(4),
{
    ctx.a0 = error;
    ctx.a1 = value;
    ctx.advance(4);
}

/// An instruction the monitor emulated; the caller carries out what only
/// M-mode hardware can do for it (the fence for `SfenceVma`, the
/// floating-point access for `Float`).
#[derive(Clone, Copy, Debug, PartialEq, Eq, Structural)]
pub enum Emulation {
    Rdtime,
    SfenceVma,
    Wfi,
    Float,
}

/// Which emulation, tried in order, takes instruction `ins`.
pub open spec fn emulation_of(ins: usize) -> Option<Emulation> {
    if is_rdtime(ins) || is_rdtimeh(ins) {
        Some(Emulation::Rdtime)
    } else if is_sfence_vma(ins) {
        Some(Emulation::SfenceVma)
    } else if ins == WFI {
        Some(Emulation::Wfi)
    } else if float_len(ins) != 0 {
        Some(Emulation::Float)
    } else {
        None
    }
}

/// Encoded length of an instruction the monitor emulates.
pub open spec fn emulated_len(ins: usize) -> usize {
    if emulation_of(ins) == Some(Emulation::Float) {
        float_len(ins)
    } else {
        4
    }
}

/// The supervisor's context after instruction `ins` was emulated with the
/// timer reading `mtime` (unchanged if no emulation takes `ins`).
pub open spec fn emulated_ctx(c: SupervisorContext, ins: usize, mtime: u64) -> SupervisorContext {
    if is_rdtime(ins) {
        c.with_reg(rd_of(ins) as int, mtime as usize).advanced(4)
    } else if is_rdtimeh(ins) {
        c.with_reg(rd_of(ins) as int, (mtime >> 32u64) as usize).advanced(4)
    } else if emulation_of(ins).is_some() {
        c.advanced(emulated_len(ins))
    } else {
        c
    }
}

/// The hart after instruction `ins` was emulated: a floating-point
/// instruction marks the FPU state dirty.
pub open spec fn emulated_hart(h: HartState, ins: usize) -> HartState {
    if emulation_of(ins) == Some(Emulation::Float) {
        HartState { mstatus: h.mstatus | FS_DIRTY, ..h }
    } else {
        h
    }
}

/// Tries the emulations of an illegal instruction in order: `rdtime`,
/// `sfence.vma`, `wfi`, the floating-point table. Returns the one that took
/// `ins`, if any; `mtime` is the current timer value.
pub fn emulate_illegal_instruction(
    ctx: &mut SupervisorContext,
    hart: &mut HartState,
    ins: usize,
    mtime: u64,
) -> (r: Option<Emulation>)
    ensures
        r == emulation_of(ins),
        *final(ctx) == emulated_ctx(*old(ctx), ins, mtime),
        *final(hart) == emulated_hart(*old(hart), ins),
{
    if emulate_rdtime(ctx, ins, mtime) {
        return Some(Emulation::Rdtime);
    }
    if emulate_sfence_vma(ctx, ins) {
        return Some(Emulation::SfenceVma);
    }
    if emulate_wfi(ctx, ins) {
        return Some(Emulation::Wfi);
    }
    if emulate_float(ctx, ins, hart) {
        return Some(Emulation::Float);
    }
    None
}

/// An illegal instruction taken in M-mode itself: fatal to the monitor.
#[derive(Clone, Copy, Debug, PartialEq, Eq, Structural)]
pub struct IllegalInstructionFault {
    pub mepc: usize,
    pub instruction: usize,
    pub context: SupervisorContext,
}

/// Describes an illegal instruction that the monitor can neither emulate
/// nor hand to the supervisor; the caller stops with this report.
pub fn fail_illegal_instruction(ctx: &SupervisorContext, ins: usize) -> (r: IllegalInstructionFault)
    ensures
        r == (IllegalInstructionFault { mepc: ctx.mepc, instruction: ins, context: *ctx }),
{
    IllegalInstructionFault { mepc: ctx.mepc, instruction: ins, context: *ctx }
}

/// What became of an illegal instruction.
#[derive(Clone, Copy, Debug, PartialEq, Eq, Structural)]
pub enum IllegalOutcome {
    /// Emulated; the supervisor never sees the trap.
    Emulated(Emulation),
    /// Reflected into the supervisor as an illegal-instruction exception.
    Transferred,
    /// Taken in M-mode: fatal.
    Fatal(IllegalInstructionFault),
}

/// Handles an illegal-instruction trap on instruction `ins`: emulates it if
/// it can; otherwise reflects it into the supervisor (with `stval` = the
/// instruction) unless it was taken in M-mode, which is fatal.
pub fn handle_illegal_instruction(
    ctx: &mut SupervisorContext,
    hart: &mut HartState,
    ins: usize,
    mtime: u64,
) -> (r: IllegalOutcome)
    ensures
        emulation_of(ins).is_some() ==> r == IllegalOutcome::Emulated(emulation_of(ins).unwrap())
            && *final(ctx) == emulated_ctx(*old(ctx), ins, mtime) && *final(hart) == emulated_hart(
            *old(hart),
            ins,
        ),
        emulation_of(ins).is_none() && transfers_trap(*old(ctx)) ==> r
            == IllegalOutcome::Transferred && *final(hart) == transferred_hart(
            *old(hart),
            *old(ctx),
            SupervisorException::IllegalInstruction,
            ins,
        ) && *final(ctx) == transferred_ctx(*old(ctx), *old(hart)),
        emulation_of(ins).is_none() && !transfers_trap(*old(ctx)) ==> r == IllegalOutcome::Fatal(
            IllegalInstructionFault { mepc: old(ctx).mepc, instruction: ins, context: *old(ctx) },
        ) && *final(ctx) == *old(ctx) && *final(hart) == *old(hart),
{
    if let Some(e) = emulate_illegal_instruction(ctx, hart, ins, mtime) {
        return IllegalOutcome::Emulated(e);
    }
    if should_transfer_trap(ctx) {
        do_transfer_trap(ctx, hart, SupervisorException::IllegalInstruction, ins);
        IllegalOutcome::Transferred
    } else {
        IllegalOutcome::Fatal(fail_illegal_instruction(ctx, ins))
    }
}

/// The exception reflected into the supervisor for an access or page fault
/// taken at address `addr`, with `page_fault` the platform's verdict on
/// whether the fault is a page fault; `None` for the other traps.
pub open spec fn fault_injection(trap: MachineTrap, page_fault: bool) -> Option<
    (SupervisorException, usize),
> {
    match trap {
        MachineTrap::InstructionFault(a) => Some(
            (
                if page_fault {
                    SupervisorException::InstructionPageFault
                } else {
                    SupervisorException::InstructionFault
                },
                a,
            ),
        ),
        MachineTrap::LoadFault(a) => Some((SupervisorException::LoadFault, a)),
        MachineTrap::LoadPageFault(a) => Some((SupervisorException::LoadPageFault, a)),
        MachineTrap::StorePageFault(a) => Some(
            (
                if page_fault {
                    SupervisorException::LoadPageFault
                } else {
                    SupervisorException::LoadFault
                },
                a,
            ),
        ),
        MachineTrap::StoreFault(a) => Some(
            (
                if page_fault {
                    SupervisorException::StorePageFault
                } else {
                    SupervisorException::StoreFault
                },
                a,
            ),
        ),
        _ => None,
    }
}

/// Computes the exception reflected for a fault (see [`fault_injection`]).
pub fn fault_redirect(trap: MachineTrap, page_fault: bool) -> (r: Option<
    (SupervisorException, usize),
>)
    ensures
        r == fault_injection(trap, page_fault),
{
    match trap {
        MachineTrap::InstructionFault(a) => {
            if page_fault {
                Some((SupervisorException::InstructionPageFault, a))
            } else {
                Some((SupervisorException::InstructionFault, a))
            }
        },
        MachineTrap::LoadFault(a) => Some((SupervisorException::LoadFault, a)),
        MachineTrap::LoadPageFault(a) => Some((SupervisorException::LoadPageFault, a)),
        MachineTrap::StorePageFault(a) => {
            if page_fault {
                Some((SupervisorException::LoadPageFault, a))
            } else {
                Some((SupervisorException::LoadFault, a))
            }
        },
        MachineTrap::StoreFault(a) => {
            if page_fault {
                Some((SupervisorException::StorePageFault, a))
            } else {
                Some((SupervisorException::StoreFault, a))
            }
        },
        _ => None,
    }
}

/// What the monitor loop does after [`handle_trap`].
#[derive(Clone, Copy, Debug)]
pub enum TrapAction {
    /// Resume the supervisor.
    Resume,
    /// Hand the call to the SBI dispatch library, then [`finish_sbi_call`].
    StandardCall(SbiRequest),
    /// Read the instruction at `mepc` through the supervisor's translation,
    /// then [`handle_illegal_instruction`].
    FetchInstruction,
    /// Call the supervisor's external-interrupt handler, then
    /// `finish_supervisor_interrupt`.
    UpCall(SupervisorUpcall),
    /// The monitor itself took an instruction page fault at this address:
    /// report it and stop the hart.
    Halt(usize),
}

/// One step of the monitor: handles the trap that brought control back from
/// the supervisor, as far as it can without the outside world, and says
/// what is left to do. `page_fault` is the platform's verdict on whether a
/// fault at the trap's address is a page fault.
pub fn handle_trap(
    ctx: &mut SupervisorContext,
    hart: &mut HartState,
    trap: MachineTrap,
    page_fault: bool,
) -> (r: TrapAction)
    ensures
        trap == MachineTrap::SbiCall && is_sext_call(*old(ctx)) ==> r is Resume && *final(ctx)
            == old(ctx).with_sbi_ret(0, 0).advanced(4) && *final(hart) == sext_registered(
            preprocessed(*old(hart), old(ctx).a7),
            old(ctx).a0,
        ),
        trap == MachineTrap::SbiCall && !is_sext_call(*old(ctx)) ==> r is StandardCall
            && is_request_of(r->StandardCall_0, *old(ctx)) && *final(ctx) == *old(ctx)
            && *final(hart) == preprocessed(*old(hart), old(ctx).a7),
        trap == MachineTrap::IllegalInstruction ==> r is FetchInstruction && *final(ctx) == *old(ctx) && *final(hart) == *old(hart),
        trap == MachineTrap::ExternalInterrupt && old(hart).devintr_entry == 0 ==> r is Resume
            && *final(ctx) == *old(ctx) && *final(hart) == *old(hart),
        trap == MachineTrap::ExternalInterrupt && old(hart).devintr_entry != 0 ==> r is UpCall
            && r->UpCall_0 == (SupervisorUpcall {
                entry: old(hart).devintr_entry,
                saved_mpp: mpp_of(old(hart).mstatus),
            }) && *final(ctx) == *old(ctx) && *final(hart) == (HartState {
                mstatus: upcall_status(old(hart).mstatus),
                ..*old(hart)
            }),
        trap == MachineTrap::MachineTimer ==> r is Resume && *final(ctx) == *old(ctx) && *final(hart) == timer_forwarded(*old(hart)),
        trap == MachineTrap::MachineSoft ==> r is Resume && *final(ctx) == *old(ctx) && *final(hart) == soft_forwarded(*old(hart)),
        fault_injection(trap, page_fault) is Some ==> r is Resume && *final(hart)
            == transferred_hart(
            *old(hart),
            *old(ctx),
            fault_injection(trap, page_fault).unwrap().0,
            fault_injection(trap, page_fault).unwrap().1,
        ) && *final(ctx) == transferred_ctx(*old(ctx), *old(hart)),
        trap is InstructionPageFault ==> r is Halt && r->Halt_0 == trap->InstructionPageFault_0
            && *final(ctx) == *old(ctx) && *final(hart) == *old(hart),
{
    match trap {
        MachineTrap::SbiCall => match handle_sbi_call(ctx, hart) {
            Some(req) => TrapAction::StandardCall(req),
            None => TrapAction::Resume,
        },
        MachineTrap::IllegalInstruction => TrapAction::FetchInstruction,
        MachineTrap::ExternalInterrupt => match call_supervisor_interrupt(hart) {
            Some(call) => TrapAction::UpCall(call),
            None => TrapAction::Resume,
        },
        MachineTrap::MachineTimer => {
            forward_supervisor_timer(hart);
            TrapAction::Resume
        },
        MachineTrap::MachineSoft => {
            forward_supervisor_soft(hart);
            TrapAction::Resume
        },
        MachineTrap::InstructionPageFault(addr) => TrapAction::Halt(addr),
        _ => {
            if let Some((e, addr)) = fault_redirect(trap, page_fault) {
                do_transfer_trap(ctx, hart, e, addr);
            }
            TrapAction::Resume
        },
    }
}

} // verus!
