use vstd::prelude::*;

verus! {

/// `mstatus.SIE`: supervisor interrupt enable.
pub const MSTATUS_SIE: usize = 0x2;
/// `mstatus.SPIE`: supervisor interrupt enable before the last trap into S.
pub const MSTATUS_SPIE: usize = 0x20;
/// `mstatus.SPP`: privilege before the last trap into S (set: supervisor).
pub const MSTATUS_SPP: usize = 0x100;
/// `mstatus.MPP`: privilege before the last trap into M.
pub const MSTATUS_MPP: usize = 0x1800;
/// `mstatus.FS`: floating-point unit state.
pub const MSTATUS_FS: usize = 0x6000;
/// `mstatus.MPRV`: M-mode loads and stores use the privilege in `MPP`.
pub const MSTATUS_MPRV: usize = 0x20000;

/// Privilege level encodings of `MPP`.
pub const PRV_S: usize = 1;
pub const PRV_M: usize = 3;

/// `mie.MSIE`, `mie.MTIE`, `mie.MEIE`.
pub const MIE_MSIE: usize = 0x8;
pub const MIE_MTIE: usize = 0x80;
pub const MIE_MEIE: usize = 0x800;

/// `mip.SSIP`, `mip.STIP`, `mip.MTIP`.
pub const MIP_SSIP: usize = 0x2;
pub const MIP_STIP: usize = 0x20;
pub const MIP_MTIP: usize = 0x80;

/// The machine-level state of one hart that the monitor reads and writes
/// while it handles a trap: the control and status registers it touches and
/// the entry point of the supervisor's external-interrupt handler (zero while
/// none is registered).
#[derive(Clone, Copy, Debug, PartialEq, Eq, Structural)]
pub struct HartState {
    pub mstatus: usize,
    pub mie: usize,
    pub mip: usize,
    pub stvec: usize,
    pub sepc: usize,
    pub scause: usize,
    pub stval: usize,
    pub devintr_entry: usize,
}

/// Whether bit(s) `mask` of `word` are set.
pub open spec fn has_bits(word: usize, mask: usize) -> bool {
    word & mask == mask
}

/// The `MPP` field of an `mstatus` value.
pub open spec fn mpp_of(mstatus: usize) -> usize {
    (mstatus >> 11usize) & 3
}

/// `mstatus` with the `MPP` field replaced by `mpp`.
pub open spec fn with_mpp(mstatus: usize, mpp: usize) -> usize {
    (mstatus & !MSTATUS_MPP) | ((mpp & 3) << 11usize)
}

/// Whether an `mie` value enables M-mode external interrupts.
pub open spec fn meie(mie: usize) -> bool {
    has_bits(mie, MIE_MEIE)
}

impl HartState {
    /// The state of a hart before any trap: the given register values and no
    /// external-interrupt handler.
    pub fn new(mstatus: usize, mie: usize, mip: usize, stvec: usize) -> (r: HartState)
        ensures
            r == (HartState {
                mstatus,
                mie,
                mip,
                stvec,
                sepc: 0,
                scause: 0,
                stval: 0,
                devintr_entry: 0,
            }),
    {
        HartState { mstatus, mie, mip, stvec, sepc: 0, scause: 0, stval: 0, devintr_entry: 0 }
    }
}

/// Reads the `MPP` field of an `mstatus` value.
pub fn mpp(mstatus: usize) -> (r: usize)
    ensures
        r == mpp_of(mstatus),
        r < 4,
{
    let r = (mstatus >> 11usize) & 3;
    assert((mstatus >> 11usize) & 3 < 4) by (bit_vector);
    r
}

/// Replaces the `MPP` field of an `mstatus` value by the two low bits of
/// `mpp`.
pub fn set_mpp(mstatus: usize, mpp: usize) -> (r: usize)
    ensures
        r == with_mpp(mstatus, mpp),
        mpp_of(r) == mpp & 3,
        r & !MSTATUS_MPP == mstatus & !MSTATUS_MPP,
{
    let r = (mstatus & !MSTATUS_MPP) | ((mpp & 3) << 11usize);
    assert(((((mstatus & !0x1800usize) | ((mpp & 3) << 11usize)) >> 11usize) & 3) == mpp & 3)
        by (bit_vector);
    assert((((mstatus & !0x1800usize) | ((mpp & 3) << 11usize)) & !0x1800usize) == mstatus
        & !0x1800usize) by (bit_vector);
    r
}

} // verus!
