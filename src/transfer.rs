use vstd::prelude::*;
use crate::context::SupervisorContext;
use crate::csr::{
    has_bits, mpp, mpp_of, set_mpp, with_mpp, HartState, MSTATUS_SIE, MSTATUS_SPIE, MSTATUS_SPP,
    PRV_M, PRV_S,
};

verus! {

/// An exception the monitor reflects into supervisor mode.
#[derive(Clone, Copy, Debug, PartialEq, Eq, Structural)]
pub enum SupervisorException {
    InstructionFault,
    IllegalInstruction,
    LoadFault,
    StoreFault,
    InstructionPageFault,
    LoadPageFault,
    StorePageFault,
}

/// The `scause` value of an exception (the interrupt bit is clear).
pub open spec fn exception_code(e: SupervisorException) -> usize {
    match e {
        SupervisorException::InstructionFault => 1,
        SupervisorException::IllegalInstruction => 2,
        SupervisorException::LoadFault => 5,
        SupervisorException::StoreFault => 7,
        SupervisorException::InstructionPageFault => 12,
        SupervisorException::LoadPageFault => 13,
        SupervisorException::StorePageFault => 15,
    }
}

/// Computes the `scause` value of an exception.
pub fn scause_of(e: SupervisorException) -> (r: usize)
    ensures
        r == exception_code(e),
{
    match e {
        SupervisorException::InstructionFault => 1,
        SupervisorException::IllegalInstruction => 2,
        SupervisorException::LoadFault => 5,
        SupervisorException::StoreFault => 7,
        SupervisorException::InstructionPageFault => 12,
        SupervisorException::LoadPageFault => 13,
        SupervisorException::StorePageFault => 15,
    }
}

/// The base address of a `stvec` value (its mode bits cleared).
pub open spec fn stvec_base(stvec: usize) -> usize {
    stvec & !3usize
}

/// `mstatus` after a trap into supervisor mode: `SPP` tells whether the trap
/// came from supervisor mode (`MPP` = S), `SPIE` takes `SIE`, `SIE` is
/// cleared, and `MPP` = S so that `mret` resumes in supervisor mode.
pub open spec fn injected_status(m: usize) -> usize {
    let spp = if mpp_of(m) == PRV_S {
        m | MSTATUS_SPP
    } else {
        m & !MSTATUS_SPP
    };
    let spie = if has_bits(m, MSTATUS_SIE) {
        spp | MSTATUS_SPIE
    } else {
        spp & !MSTATUS_SPIE
    };
    with_mpp(spie & !MSTATUS_SIE, PRV_S)
}

/// Whether a trap that the monitor cannot handle goes to the supervisor: it
/// does unless it was taken in M-mode itself.
pub open spec fn transfers_trap(c: SupervisorContext) -> bool {
    mpp_of(c.mstatus) != PRV_M
}

/// Decides whether a trap the monitor cannot handle is reflected into
/// supervisor mode (true unless the trap was taken from M-mode).
pub fn should_transfer_trap(ctx: &SupervisorContext) -> (r: bool)
    ensures
        r == transfers_trap(*ctx),
{
    mpp(ctx.mstatus) != PRV_M
}

/// The hart after exception `cause` with trap value `tval`, taken at the
/// supervisor's pc in `c`, was reflected into supervisor mode.
pub open spec fn transferred_hart(
    h: HartState,
    c: SupervisorContext,
    cause: SupervisorException,
    tval: usize,
) -> HartState {
    HartState { scause: exception_code(cause), stval: tval, sepc: c.mepc, ..h }
}

/// The supervisor's context after a trap was reflected into it: it resumes
/// at the base of its trap vector with the `mstatus` of a trap into S.
pub open spec fn transferred_ctx(c: SupervisorContext, h: HartState) -> SupervisorContext {
    SupervisorContext { mstatus: injected_status(c.mstatus), mepc: stvec_base(h.stvec), ..c }
}

/// Reflects exception `cause` with trap value `tval` into supervisor mode:
/// `scause`, `stval` and `sepc` (the interrupted pc) are written, `mstatus`
/// is updated as on a hardware trap into S, and the supervisor resumes at
/// its trap vector.
pub fn do_transfer_trap(
    ctx: &mut SupervisorContext,
    hart: &mut HartState,
    cause: SupervisorException,
    tval: usize,
)
    ensures
        *final(hart) == transferred_hart(*old(hart), *old(ctx), cause, tval),
        *final(ctx) == transferred_ctx(*old(ctx), *old(hart)),
{
    hart.scause = scause_of(cause);
    hart.stval = tval;
    hart.sepc = ctx.mepc;
    let m = ctx.mstatus;
    let spp = if mpp(m) == PRV_S {
        m | MSTATUS_SPP
    } else {
        m & !MSTATUS_SPP
    };
    let spie = if m & MSTATUS_SIE == MSTATUS_SIE {
        spp | MSTATUS_SPIE
    } else {
        spp & !MSTATUS_SPIE
    };
    ctx.mstatus = set_mpp(spie & !MSTATUS_SIE, PRV_S);
    ctx.mepc = hart.stvec & !3usize;
}

} // verus!
