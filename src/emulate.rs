use vstd::prelude::*;
use crate::context::SupervisorContext;
use crate::csr::{HartState, MSTATUS_FS};

verus! {

/// Whether `ins` is `rdtime rd` (`csrrs rd, time, x0`).
pub open spec fn is_rdtime(ins: usize) -> bool {
    ins & 0xFFFFF07F == 0xC0102073
}

/// Whether `ins` is `rdtimeh rd` (`csrrs rd, timeh, x0`).
pub open spec fn is_rdtimeh(ins: usize) -> bool {
    ins & 0xFFFFF07F == 0xC8102073
}

/// The destination register field of an instruction.
pub open spec fn rd_of(ins: usize) -> usize {
    (ins >> 7usize) & 31
}

/// Emulates `rdtime` and `rdtimeh`: the destination register receives
/// `mtime`, or its upper 32 bits, and the supervisor resumes after the
/// instruction. Returns whether `ins` was one of the two.
pub fn emulate_rdtime(ctx: &mut SupervisorContext, ins: usize, mtime: u64) -> (r: bool)
    ensures
        r == (is_rdtime(ins) || is_rdtimeh(ins)),
        is_rdtime(ins) ==> *final(ctx) == old(ctx).with_reg(rd_of(ins) as int, mtime as usize).advanced(4),
        !is_rdtime(ins) && is_rdtimeh(ins) ==> *final(ctx) == old(ctx).with_reg(
            rd_of(ins) as int,
            (mtime >> 32u64) as usize,
        ).advanced(4),
        !r ==> *final(ctx) == *old(ctx),
{
    let rd = (ins >> 7usize) & 31;
    assert((ins >> 7usize) & 31 < 32) by (bit_vector);
    if ins & 0xFFFFF07F == 0xC0102073 {
        ctx.set_reg(rd, mtime as usize);
        ctx.advance(4);
        true
    } else if ins & 0xFFFFF07F == 0xC8102073 {
        ctx.set_reg(rd, (mtime >> 32u64) as usize);
        ctx.advance(4);
        true
    } else {
        false
    }
}

/// Whether `ins` is `sfence.vma rs1, rs2`.
pub open spec fn is_sfence_vma(ins: usize) -> bool {
    ins & 0xFE007FFF == 0x12000073
}

/// Emulates `sfence.vma`: the supervisor resumes after the instruction, and
/// the caller executes the fence in M-mode. Returns whether `ins` was one.
pub fn emulate_sfence_vma(ctx: &mut SupervisorContext, ins: usize) -> (r: bool)
    ensures
        r == is_sfence_vma(ins),
        r ==> *final(ctx) == old(ctx).advanced(4),
        !r ==> *final(ctx) == *old(ctx),
{
    if ins & 0xFE007FFF == 0x12000073 {
        ctx.advance(4);
        true
    } else {
        false
    }
}

/// The encoding of `wfi`.
pub const WFI: usize = 0x10500073;

/// Emulates `wfi` as a no-op: the supervisor resumes after it. Returns
/// whether `ins` was `wfi`.
pub fn emulate_wfi(ctx: &mut SupervisorContext, ins: usize) -> (r: bool)
    ensures
        r == (ins == WFI),
        r ==> *final(ctx) == old(ctx).advanced(4),
        !r ==> *final(ctx) == *old(ctx),
{
    if ins == WFI {
        ctx.advance(4);
        true
    } else {
        false
    }
}

/// Whether `ins` is a compressed `c.fsd` handled by the floating-point
/// table (matched by its low 16 bits).
pub open spec fn is_table_compressed(ins: usize) -> bool {
    ins & 0xffff == 0xb920 || ins & 0xffff == 0xbd24
}

/// Whether `ins` is one of the floating-point loads and stores of the table.
pub open spec fn is_table_load_store(ins: usize) -> bool {
    ins == 0x09253027 ||
        ins == 0x09353427 ||
        ins == 0x09453827 ||
        ins == 0x09553c27 ||
        ins == 0x0b653027 ||
        ins == 0x0b753427 ||
        ins == 0x0b853827 ||
        ins == 0x0b953c27 ||
        ins == 0x0da53027 ||
        ins == 0x0db53427 ||
        ins == 0x04113027 ||
        ins == 0x0001a007 ||
        ins == 0x0001a027 ||
        ins == 0x0001b007 ||
        ins == 0x0001b027 ||
        ins == 0x0001a087 ||
        ins == 0x0001a0a7 ||
        ins == 0x0001b087 ||
        ins == 0x0001b0a7 ||
        ins == 0x0002a007 ||
        ins == 0x0002a027 ||
        ins == 0x0002b007 ||
        ins == 0x0002b027 ||
        ins == 0x00032007 ||
        ins == 0x00032027 ||
        ins == 0x00033007 ||
        ins == 0x00033027 ||
        ins == 0x0003a007 ||
        ins == 0x0003a027 ||
        ins == 0x0003b007 ||
        ins == 0x0003b027
}

/// Whether `ins` is one of the floating-point moves and compares of the
/// table.
pub open spec fn is_table_op(ins: usize) -> bool {
    ins == 0xf0018053 ||
        ins == 0xf2018053 ||
        ins == 0xf2030153 ||
        ins == 0xa2002353
}

/// Encoded length of a floating-point instruction of the table, or zero for
/// an instruction the table does not hold.
pub open spec fn float_len(ins: usize) -> usize {
    if is_table_compressed(ins) {
        2
    } else if ins & 0xf == 0x7 {
        if is_table_load_store(ins) {
            4
        } else {
            0
        }
    } else if ins & 0xff == 0x53 {
        if is_table_op(ins) {
            4
        } else {
            0
        }
    } else {
        0
    }
}

/// Looks `ins` up in the floating-point table: its encoded length, or zero
/// if the table does not hold it.
pub fn float_instruction_len(ins: usize) -> (r: usize)
    ensures
        r == float_len(ins),
{
    if ins & 0xffff == 0xb920 || ins & 0xffff == 0xbd24 {
        2
    } else if ins & 0xf == 0x7 {
        if ins == 0x09253027 ||
            ins == 0x09353427 ||
            ins == 0x09453827 ||
            ins == 0x09553c27 ||
            ins == 0x0b653027 ||
            ins == 0x0b753427 ||
            ins == 0x0b853827 ||
            ins == 0x0b953c27 ||
            ins == 0x0da53027 ||
            ins == 0x0db53427 ||
            ins == 0x04113027 ||
            ins == 0x0001a007 ||
            ins == 0x0001a027 ||
            ins == 0x0001b007 ||
            ins == 0x0001b027 ||
            ins == 0x0001a087 ||
            ins == 0x0001a0a7 ||
            ins == 0x0001b087 ||
            ins == 0x0001b0a7 ||
            ins == 0x0002a007 ||
            ins == 0x0002a027 ||
            ins == 0x0002b007 ||
            ins == 0x0002b027 ||
            ins == 0x00032007 ||
            ins == 0x00032027 ||
            ins == 0x00033007 ||
            ins == 0x00033027 ||
            ins == 0x0003a007 ||
            ins == 0x0003a027 ||
            ins == 0x0003b007 ||
            ins == 0x0003b027 {
            4
        } else {
            0
        }
    } else if ins & 0xff == 0x53 {
        if ins == 0xf0018053 ||
            ins == 0xf2018053 ||
            ins == 0xf2030153 ||
            ins == 0xa2002353 {
            4
        } else {
            0
        }
    } else {
        0
    }
}

/// `mstatus.FS` with the value `Dirty`.
pub const FS_DIRTY: usize = MSTATUS_FS;

/// Emulates a floating-point instruction of the table: the monitor's
/// `mstatus.FS` becomes `Dirty`, so that the caller can execute the
/// instruction in M-mode, and the supervisor resumes after the instruction.
/// Returns whether the table holds `ins`.
pub fn emulate_float(ctx: &mut SupervisorContext, ins: usize, hart: &mut HartState) -> (r: bool)
    ensures
        r == (float_len(ins) != 0),
        r ==> *final(ctx) == old(ctx).advanced(float_len(ins)) && *final(hart) == (HartState {
            mstatus: old(hart).mstatus | FS_DIRTY,
            ..*old(hart)
        }),
        !r ==> *final(ctx) == *old(ctx) && *final(hart) == *old(hart),
{
    let len = float_instruction_len(ins);
    if len == 0 {
        return false;
    }
    hart.mstatus = hart.mstatus | FS_DIRTY;
    ctx.advance(len);
    true
}

} // verus!
