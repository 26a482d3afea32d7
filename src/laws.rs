use vstd::prelude::*;
use crate::context::{wrapping_add, SupervisorContext};
use crate::csr::{
    has_bits, meie, mpp_of, HartState, MIP_MTIP, MSTATUS_MPRV, MSTATUS_SIE,
    MSTATUS_SPIE, MSTATUS_SPP, PRV_S,
};
use crate::execute::{emulated_ctx, emulated_hart, emulated_len, emulation_of};
use crate::emulate::rd_of;
use crate::feature::{
    fetch_status, is_sext_call, preprocessed, restored_status, sext_registered, soft_forwarded,
    timer_forwarded, upcall_status,
};
use crate::transfer::{
    exception_code, injected_status, transferred_ctx, transferred_hart,
    SupervisorException,
};

verus! {

/// A trap reflected into the supervisor, whose trap vector is in direct
/// mode, is seen by the supervisor as a hardware trap into S-mode: `sepc`
/// holds the interrupted pc, `scause` and `stval` the cause and trap value,
/// `SPIE` the former `SIE`, `SIE` is clear, `SPP` tells whether the trap
/// came from S-mode, and execution resumes in S-mode at the vector's base.
pub proof fn lemma_transfer_observed(
    c: SupervisorContext,
    h: HartState,
    cause: SupervisorException,
    tval: usize,
)
    requires
        h.stvec & 3 == 0,
    ensures
        transferred_hart(h, c, cause, tval).sepc == c.mepc,
        transferred_hart(h, c, cause, tval).scause == exception_code(cause),
        transferred_hart(h, c, cause, tval).stval == tval,
        has_bits(transferred_ctx(c, h).mstatus, MSTATUS_SPIE) == has_bits(c.mstatus, MSTATUS_SIE),
        !has_bits(transferred_ctx(c, h).mstatus, MSTATUS_SIE),
        has_bits(transferred_ctx(c, h).mstatus, MSTATUS_SPP) == (mpp_of(c.mstatus) == PRV_S),
        mpp_of(transferred_ctx(c, h).mstatus) == PRV_S,
        transferred_ctx(c, h).mepc == h.stvec,
{
    let m = c.mstatus;
    let v = h.stvec;
    assert(v & 3 == 0 ==> v & !3usize == v) by (bit_vector);
    let spp = if (m >> 11usize) & 3 == 1 {
        m | 0x100
    } else {
        m & !0x100usize
    };
    let spie = if m & 2 == 2 {
        spp | 0x20
    } else {
        spp & !0x20usize
    };
    let r = ((spie & !2usize) & !0x1800usize) | ((1usize & 3) << 11usize);
    assert(r == injected_status(m));
    assert((((spie & !2usize) & !0x1800usize) | ((1usize & 3) << 11usize)) & 2 != 2) by (bit_vector);
    assert((((spie & !2usize) & !0x1800usize) | ((1usize & 3) << 11usize)) >> 11usize & 3 == 1)
        by (bit_vector);
    assert((((spie & !2usize) & !0x1800usize) | ((1usize & 3) << 11usize)) & 0x20 == spie & 0x20)
        by (bit_vector);
    assert((((spie & !2usize) & !0x1800usize) | ((1usize & 3) << 11usize)) & 0x100 == spie & 0x100)
        by (bit_vector);
    assert((spp | 0x20) & 0x20 == 0x20) by (bit_vector);
    assert((spp & !0x20usize) & 0x20 != 0x20) by (bit_vector);
    assert((spp | 0x20) & 0x100 == spp & 0x100) by (bit_vector);
    assert((spp & !0x20usize) & 0x100 == spp & 0x100) by (bit_vector);
    assert((m | 0x100) & 0x100 == 0x100) by (bit_vector);
    assert((m & !0x100usize) & 0x100 != 0x100) by (bit_vector);
}

/// Whatever answer `(error, value)` an `ecall` gets (from the dispatch
/// library, or `(0, 0)` from the monitor itself), the supervisor resumes
/// four bytes past the `ecall` with the answer in `a0` and `a1`, and every
/// other register as it was.
pub proof fn lemma_sbi_advance(c: SupervisorContext, error: usize, value: usize)
    ensures
        c.with_sbi_ret(error, value).advanced(4).mepc == wrapping_add(c.mepc, 4),
        c.with_sbi_ret(error, value).advanced(4).a0 == error,
        c.with_sbi_ret(error, value).advanced(4).a1 == value,
        c.with_sbi_ret(error, value).advanced(4).mstatus == c.mstatus,
        forall|i: int|
            1 <= i < 32 && i != 10 && i != 11 ==> #[trigger] c.with_sbi_ret(
                error,
                value,
            ).advanced(4).reg(i) == c.reg(i),
{
}

/// An emulated instruction of length two or four moves the supervisor's pc
/// past it, and no trap is delivered to the supervisor: `sepc`, `scause`,
/// `stval` and the supervisor's `mstatus` are left as they were.
pub proof fn lemma_emulation_advance(c: SupervisorContext, h: HartState, ins: usize, mtime: u64)
    requires
        emulation_of(ins).is_some(),
    ensures
        emulated_len(ins) == 2 || emulated_len(ins) == 4,
        emulated_ctx(c, ins, mtime).mepc == wrapping_add(c.mepc, emulated_len(ins)),
        emulated_ctx(c, ins, mtime).mstatus == c.mstatus,
        emulated_hart(h, ins).sepc == h.sepc,
        emulated_hart(h, ins).scause == h.scause,
        emulated_hart(h, ins).stval == h.stval,
        emulated_hart(h, ins).stvec == h.stvec,
{
    let rd = rd_of(ins) as int;
    assert(c.with_reg(rd, mtime as usize).mepc == c.mepc);
    assert(c.with_reg(rd, (mtime >> 32u64) as usize).mepc == c.mepc);
    assert(c.with_reg(rd, mtime as usize).mstatus == c.mstatus);
    assert(c.with_reg(rd, (mtime >> 32u64) as usize).mstatus == c.mstatus);
}

/// The two places where the monitor reaches supervisor memory through
/// `MPRV` leave `mstatus` as they found it but for `MPRV`, which ends
/// cleared: the up-call into the supervisor's interrupt handler runs with
/// `MPRV` set and `MPP` = S and ends with `MPP` restored; an instruction
/// fetch runs with `MPRV` set and `MPP` untouched, and ends by writing back
/// the value from before, in which the monitor keeps `MPRV` clear. (An
/// external interrupt with no handler registered takes no up-call and
/// leaves `mstatus` untouched, see `call_supervisor_interrupt`.)
pub proof fn lemma_mprv_bracket(m: usize)
    ensures
        has_bits(upcall_status(m), MSTATUS_MPRV),
        mpp_of(upcall_status(m)) == PRV_S,
        !has_bits(restored_status(upcall_status(m), mpp_of(m)), MSTATUS_MPRV),
        mpp_of(restored_status(upcall_status(m), mpp_of(m))) == mpp_of(m),
        restored_status(upcall_status(m), mpp_of(m)) == m & !MSTATUS_MPRV,
        has_bits(fetch_status(m), MSTATUS_MPRV),
        mpp_of(fetch_status(m)) == mpp_of(m),
        !has_bits(m, MSTATUS_MPRV) ==> fetch_status(m) & !MSTATUS_MPRV == m,
{
    let u = ((m | 0x20000) & !0x1800usize) | ((1usize & 3) << 11usize);
    assert(u == upcall_status(m));
    let p = (m >> 11usize) & 3;
    let r = ((u & !0x1800usize) | ((p & 3) << 11usize)) & !0x20000usize;
    assert(r == restored_status(u, mpp_of(m)));
    assert(u & 0x20000 == 0x20000) by (bit_vector)
        requires
            u == ((m | 0x20000) & !0x1800usize) | ((1usize & 3) << 11usize),
    ;
    assert((u >> 11usize) & 3 == 1) by (bit_vector)
        requires
            u == ((m | 0x20000) & !0x1800usize) | ((1usize & 3) << 11usize),
    ;
    assert(r == m & !0x20000usize) by (bit_vector)
        requires
            u == ((m | 0x20000) & !0x1800usize) | ((1usize & 3) << 11usize),
            p == (m >> 11usize) & 3,
            r == ((u & !0x1800usize) | ((p & 3) << 11usize)) & !0x20000usize,
    ;
    assert((m & !0x20000usize) & 0x20000 != 0x20000) by (bit_vector);
    assert((((m & !0x20000usize) >> 11usize) & 3) == (m >> 11usize) & 3) by (bit_vector);
    assert((m | 0x20000) & 0x20000 == 0x20000) by (bit_vector);
    assert((((m | 0x20000) >> 11usize) & 3) == (m >> 11usize) & 3) by (bit_vector);
    assert(m & 0x20000 != 0x20000 ==> (m | 0x20000) & !0x20000usize == m) by (bit_vector);
}

/// No handler registered means no M-mode external interrupt enabled.
pub open spec fn external_gated(h: HartState) -> bool {
    h.devintr_entry == 0 ==> !meie(h.mie)
}

/// Every way the monitor changes the hart keeps M-mode external interrupts
/// disabled while no handler is registered.
pub proof fn lemma_external_gating_kept(
    h: HartState,
    c: SupervisorContext,
    cause: SupervisorException,
    tval: usize,
    ins: usize,
)
    requires
        external_gated(h),
    ensures
        external_gated(preprocessed(h, c.a7)),
        external_gated(sext_registered(preprocessed(h, c.a7), c.a0)),
        external_gated(timer_forwarded(h)),
        external_gated(soft_forwarded(h)),
        external_gated(transferred_hart(h, c, cause, tval)),
        external_gated(emulated_hart(h, ins)),
        external_gated(HartState { mstatus: upcall_status(h.mstatus), ..h }),
        external_gated(HartState { mstatus: restored_status(h.mstatus, mpp_of(c.mstatus)), ..h }),
{
    let x = h.mie;
    assert((x & !0x800usize & !0x80usize) & 0x800 != 0x800) by (bit_vector);
    let y = preprocessed(h, c.a7).mie;
    assert((y & !0x800usize) & 0x800 != 0x800) by (bit_vector);
    assert((x & !0x8usize) & 0x800 == x & 0x800) by (bit_vector);
}

/// Registration of a non-zero handler enables M-mode external interrupts;
/// forwarding the M-timer interrupt disables them; the next `ecall` of
/// extension zero made while the M-timer interrupt is pending enables them
/// again (`pending` is `mip` at that moment).
pub proof fn lemma_external_interrupt_rearm(h: HartState, c: SupervisorContext, pending: usize)
    requires
        is_sext_call(c),
        c.a0 != 0,
        has_bits(pending, MIP_MTIP),
    ensures
        meie(sext_registered(preprocessed(h, c.a7), c.a0).mie),
        !meie(timer_forwarded(sext_registered(preprocessed(h, c.a7), c.a0)).mie),
        meie(
            preprocessed(
                HartState {
                    mip: pending,
                    ..timer_forwarded(sext_registered(preprocessed(h, c.a7), c.a0))
                },
                0,
            ).mie,
        ),
{
    let x = preprocessed(h, c.a7).mie;
    assert((x | 0x800) & 0x800 == 0x800) by (bit_vector);
    let y = (x | 0x800) & !0x800usize & !0x80usize;
    assert(y & 0x800 != 0x800) by (bit_vector)
        requires
            y == (x | 0x800) & !0x800usize & !0x80usize,
    ;
    assert((y | 0x800) & 0x800 == 0x800) by (bit_vector);
}

} // verus!
