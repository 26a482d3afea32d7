use vstd::prelude::*;
use crate::context::SupervisorContext;
use crate::csr::{
    has_bits, mpp, mpp_of, set_mpp, with_mpp, HartState, MIE_MEIE, MIE_MSIE, MIE_MTIE, MIP_MTIP,
    MIP_SSIP, MIP_STIP, MSTATUS_MPRV, PRV_S,
};

verus! {

/// Extension id of the monitor's own call that registers the supervisor's
/// external-interrupt handler.
pub const EID_RUSTSBI_NEZHA_SEXT: usize = 0x0A000004;
/// Function id of that call.
pub const FID_RUSTSBI_NEZHA_SEXT: usize = 0x210;

/// Whether the supervisor's `ecall` asks to register its external-interrupt
/// handler.
pub open spec fn is_sext_call(c: SupervisorContext) -> bool {
    c.a7 == EID_RUSTSBI_NEZHA_SEXT && c.a6 == FID_RUSTSBI_NEZHA_SEXT
}

/// The hart after the handler at `entry` was registered: the entry is kept,
/// and M-mode external interrupts are enabled if `entry` is a handler,
/// disabled if it is zero (no handler, nothing to deliver to).
pub open spec fn sext_registered(h: HartState, entry: usize) -> HartState {
    HartState {
        devintr_entry: entry,
        mie: if entry != 0 {
            h.mie | MIE_MEIE
        } else {
            h.mie & !MIE_MEIE
        },
        ..h
    }
}

/// Handles the call that registers the supervisor's external-interrupt
/// handler (`a0` holds its address). Returns whether the call was that one;
/// if so the handler is stored, M-mode external interrupts are enabled (or,
/// for a zero address, disabled) and
/// the call answers success with value zero in `a0` and `a1`.
pub fn emulate_sbi_rustsbi_nezha_sext(ctx: &mut SupervisorContext, hart: &mut HartState) -> (r:
    bool)
    ensures
        r == is_sext_call(*old(ctx)),
        r ==> *final(ctx) == old(ctx).with_sbi_ret(0, 0) && *final(hart) == sext_registered(
            *old(hart),
            old(ctx).a0,
        ),
        !r ==> *final(ctx) == *old(ctx) && *final(hart) == *old(hart),
{
    if ctx.a7 == EID_RUSTSBI_NEZHA_SEXT && ctx.a6 == FID_RUSTSBI_NEZHA_SEXT {
        hart.devintr_entry = ctx.a0;
        if ctx.a0 != 0 {
            hart.mie = hart.mie | MIE_MEIE;
        } else {
            hart.mie = hart.mie & !MIE_MEIE;
        }
        ctx.a0 = 0;
        ctx.a1 = 0;
        true
    } else {
        false
    }
}

/// The hart after the pre-processing of an `ecall` whose extension id is
/// `eid`: a call of extension zero (legacy `set_timer`) while the M-timer is
/// pending re-enables M-mode external interrupts, if a handler is registered.
pub open spec fn preprocessed(h: HartState, eid: usize) -> HartState {
    if eid == 0 && has_bits(h.mip, MIP_MTIP) && h.devintr_entry != 0 {
        HartState { mie: h.mie | MIE_MEIE, ..h }
    } else {
        h
    }
}

/// Re-arms M-mode external interrupts at the supervisor's `set_timer` call,
/// the point where the supervisor holds none of the locks that its
/// interrupt handler takes.
pub fn preprocess_supervisor_external(ctx: &mut SupervisorContext, hart: &mut HartState)
    ensures
        *final(ctx) == *old(ctx),
        *final(hart) == preprocessed(*old(hart), old(ctx).a7),
{
    if ctx.a7 == 0 && hart.mip & MIP_MTIP == MIP_MTIP && hart.devintr_entry != 0 {
        hart.mie = hart.mie | MIE_MEIE;
    }
}

/// The hart after an M-timer interrupt was forwarded to the supervisor.
pub open spec fn timer_forwarded(h: HartState) -> HartState {
    HartState { mip: h.mip | MIP_STIP, mie: h.mie & !MIE_MEIE & !MIE_MTIE, ..h }
}

/// The hart after an M-software interrupt was forwarded to the supervisor.
pub open spec fn soft_forwarded(h: HartState) -> HartState {
    HartState { mip: h.mip | MIP_SSIP, mie: h.mie & !MIE_MSIE, ..h }
}

/// Forwards an M-timer interrupt: raises the S-timer interrupt, and masks
/// the M-timer interrupt (until the supervisor sets a new timer) and the
/// M-external interrupt (until the supervisor's `set_timer` call).
pub fn forward_supervisor_timer(hart: &mut HartState)
    ensures
        *final(hart) == timer_forwarded(*old(hart)),
{
    hart.mip = hart.mip | MIP_STIP;
    hart.mie = hart.mie & !MIE_MEIE & !MIE_MTIE;
}

/// Forwards an M-software interrupt: raises the S-software interrupt and
/// masks the M-software interrupt.
pub fn forward_supervisor_soft(hart: &mut HartState)
    ensures
        *final(hart) == soft_forwarded(*old(hart)),
{
    hart.mip = hart.mip | MIP_SSIP;
    hart.mie = hart.mie & !MIE_MSIE;
}

/// A call of the supervisor's external-interrupt handler, due to be made in
/// M-mode with supervisor translation; `saved_mpp` is the `MPP` to restore
/// once it returns.
#[derive(Clone, Copy, Debug, PartialEq, Eq, Structural)]
pub struct SupervisorUpcall {
    pub entry: usize,
    pub saved_mpp: usize,
}

/// `mstatus` while the handler runs: `MPRV` set and `MPP` = S, so that its
/// loads and stores go through the supervisor's translation.
pub open spec fn upcall_status(mstatus: usize) -> usize {
    with_mpp(mstatus | MSTATUS_MPRV, PRV_S)
}

/// `mstatus` once the handler has returned: `MPP` set to (the two low bits
/// of) `mpp` and `MPRV` cleared.
pub open spec fn restored_status(mstatus: usize, mpp: usize) -> usize {
    with_mpp(mstatus, mpp) & !MSTATUS_MPRV
}

/// Prepares the up-call into the supervisor's external-interrupt handler.
/// With no handler registered nothing is to be called and the hart is left
/// as it is; otherwise `mstatus` is switched to supervisor translation and
/// the call to make is returned.
pub fn call_supervisor_interrupt(hart: &mut HartState) -> (r: Option<SupervisorUpcall>)
    ensures
        old(hart).devintr_entry == 0 ==> r.is_none() && *final(hart) == *old(hart),
        old(hart).devintr_entry != 0 ==> r == Some(
            SupervisorUpcall { entry: old(hart).devintr_entry, saved_mpp: mpp_of(old(hart).mstatus) },
        ) && *final(hart) == (HartState { mstatus: upcall_status(old(hart).mstatus), ..*old(hart) }),
{
    if hart.devintr_entry == 0 {
        return None;
    }
    let saved_mpp = mpp(hart.mstatus);
    hart.mstatus = set_mpp(hart.mstatus | MSTATUS_MPRV, PRV_S);
    Some(SupervisorUpcall { entry: hart.devintr_entry, saved_mpp })
}

/// Ends the up-call once the handler has returned: clears `MPRV`, restores
/// `MPP`, and lets the supervisor resume with the resulting `mstatus`.
pub fn finish_supervisor_interrupt(
    ctx: &mut SupervisorContext,
    hart: &mut HartState,
    call: SupervisorUpcall,
)
    ensures
        final(hart).mstatus == restored_status(old(hart).mstatus, call.saved_mpp),
        *final(hart) == (HartState { mstatus: final(hart).mstatus, ..*old(hart) }),
        *final(ctx) == (SupervisorContext { mstatus: final(hart).mstatus, ..*old(ctx) }),
{
    hart.mstatus = set_mpp(hart.mstatus, call.saved_mpp) & !MSTATUS_MPRV;
    ctx.mstatus = hart.mstatus;
}

/// `mstatus` for one M-mode load through the supervisor's translation.
pub open spec fn fetch_status(mstatus: usize) -> usize {
    mstatus | MSTATUS_MPRV
}

/// The `mstatus` value under which the monitor reads supervisor memory: the
/// current one with `MPRV` set. Writing back the current value ends the read.
pub fn supervisor_fetch_status(mstatus: usize) -> (r: usize)
    ensures
        r == fetch_status(mstatus),
{
    mstatus | MSTATUS_MPRV
}

} // verus!
