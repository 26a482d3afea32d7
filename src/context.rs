use vstd::prelude::*;

verus! {

/// Saved register file of the interrupted supervisor: the integer registers
/// x1..x31 (x0 is constant zero), together with `mstatus` and `mepc`.
#[derive(Clone, Copy, Debug, PartialEq, Eq, Structural)]
pub struct SupervisorContext {
    pub ra: usize,  // x1
    pub sp: usize,  // x2
    pub gp: usize,  // x3
    pub tp: usize,  // x4
    pub t0: usize,  // x5
    pub t1: usize,  // x6
    pub t2: usize,  // x7
    pub s0: usize,  // x8
    pub s1: usize,  // x9
    pub a0: usize,  // x10
    pub a1: usize,  // x11
    pub a2: usize,  // x12
    pub a3: usize,  // x13
    pub a4: usize,  // x14
    pub a5: usize,  // x15
    pub a6: usize,  // x16
    pub a7: usize,  // x17
    pub s2: usize,  // x18
    pub s3: usize,  // x19
    pub s4: usize,  // x20
    pub s5: usize,  // x21
    pub s6: usize,  // x22
    pub s7: usize,  // x23
    pub s8: usize,  // x24
    pub s9: usize,  // x25
    pub s10: usize,  // x26
    pub s11: usize,  // x27
    pub t3: usize,  // x28
    pub t4: usize,  // x29
    pub t5: usize,  // x30
    pub t6: usize,  // x31
    pub mstatus: usize,
    pub mepc: usize,
}

impl SupervisorContext {
    /// A context with all registers zero, about to run at `mepc`.
    pub fn new(mepc: usize, mstatus: usize) -> (r: SupervisorContext)
        ensures
            r.mepc == mepc,
            r.mstatus == mstatus,
            forall|i: int| 0 <= i < 32 ==> #[trigger] r.reg(i) == 0,
    {
        SupervisorContext {
            ra: 0,
            sp: 0,
            gp: 0,
            tp: 0,
            t0: 0,
            t1: 0,
            t2: 0,
            s0: 0,
            s1: 0,
            a0: 0,
            a1: 0,
            a2: 0,
            a3: 0,
            a4: 0,
            a5: 0,
            a6: 0,
            a7: 0,
            s2: 0,
            s3: 0,
            s4: 0,
            s5: 0,
            s6: 0,
            s7: 0,
            s8: 0,
            s9: 0,
            s10: 0,
            s11: 0,
            t3: 0,
            t4: 0,
            t5: 0,
            t6: 0,
            mstatus,
            mepc,
        }
    }

    /// Value of integer register `x{i}`; `x0` reads as zero.
    pub open spec fn reg(self, i: int) -> usize {
        if i == 1 {
            self.ra
        } else if i == 2 {
            self.sp
        } else if i == 3 {
            self.gp
        } else if i == 4 {
            self.tp
        } else if i == 5 {
            self.t0
        } else if i == 6 {
            self.t1
        } else if i == 7 {
            self.t2
        } else if i == 8 {
            self.s0
        } else if i == 9 {
            self.s1
        } else if i == 10 {
            self.a0
        } else if i == 11 {
            self.a1
        } else if i == 12 {
            self.a2
        } else if i == 13 {
            self.a3
        } else if i == 14 {
            self.a4
        } else if i == 15 {
            self.a5
        } else if i == 16 {
            self.a6
        } else if i == 17 {
            self.a7
        } else if i == 18 {
            self.s2
        } else if i == 19 {
            self.s3
        } else if i == 20 {
            self.s4
        } else if i == 21 {
            self.s5
        } else if i == 22 {
            self.s6
        } else if i == 23 {
            self.s7
        } else if i == 24 {
            self.s8
        } else if i == 25 {
            self.s9
        } else if i == 26 {
            self.s10
        } else if i == 27 {
            self.s11
        } else if i == 28 {
            self.t3
        } else if i == 29 {
            self.t4
        } else if i == 30 {
            self.t5
        } else if i == 31 {
            self.t6
        } else {
            0
        }
    }

    /// The context with integer register `x{i}` set to `v`; a write to `x0`
    /// (or to no register at all) leaves the context as it is.
    pub open spec fn with_reg(self, i: int, v: usize) -> SupervisorContext {
        if i == 1 {
            SupervisorContext { ra: v, ..self }
        } else if i == 2 {
            SupervisorContext { sp: v, ..self }
        } else if i == 3 {
            SupervisorContext { gp: v, ..self }
        } else if i == 4 {
            SupervisorContext { tp: v, ..self }
        } else if i == 5 {
            SupervisorContext { t0: v, ..self }
        } else if i == 6 {
            SupervisorContext { t1: v, ..self }
        } else if i == 7 {
            SupervisorContext { t2: v, ..self }
        } else if i == 8 {
            SupervisorContext { s0: v, ..self }
        } else if i == 9 {
            SupervisorContext { s1: v, ..self }
        } else if i == 10 {
            SupervisorContext { a0: v, ..self }
        } else if i == 11 {
            SupervisorContext { a1: v, ..self }
        } else if i == 12 {
            SupervisorContext { a2: v, ..self }
        } else if i == 13 {
            SupervisorContext { a3: v, ..self }
        } else if i == 14 {
            SupervisorContext { a4: v, ..self }
        } else if i == 15 {
            SupervisorContext { a5: v, ..self }
        } else if i == 16 {
            SupervisorContext { a6: v, ..self }
        } else if i == 17 {
            SupervisorContext { a7: v, ..self }
        } else if i == 18 {
            SupervisorContext { s2: v, ..self }
        } else if i == 19 {
            SupervisorContext { s3: v, ..self }
        } else if i == 20 {
            SupervisorContext { s4: v, ..self }
        } else if i == 21 {
            SupervisorContext { s5: v, ..self }
        } else if i == 22 {
            SupervisorContext { s6: v, ..self }
        } else if i == 23 {
            SupervisorContext { s7: v, ..self }
        } else if i == 24 {
            SupervisorContext { s8: v, ..self }
        } else if i == 25 {
            SupervisorContext { s9: v, ..self }
        } else if i == 26 {
            SupervisorContext { s10: v, ..self }
        } else if i == 27 {
            SupervisorContext { s11: v, ..self }
        } else if i == 28 {
            SupervisorContext { t3: v, ..self }
        } else if i == 29 {
            SupervisorContext { t4: v, ..self }
        } else if i == 30 {
            SupervisorContext { t5: v, ..self }
        } else if i == 31 {
            SupervisorContext { t6: v, ..self }
        } else {
            self
        }
    }

    /// The context with `mepc` moved `len` bytes forward (modulo the word size).
    pub open spec fn advanced(self, len: usize) -> SupervisorContext {
        SupervisorContext { mepc: wrapping_add(self.mepc, len), ..self }
    }

    /// The context with the two SBI return registers `a0` and `a1` set.
    pub open spec fn with_sbi_ret(self, error: usize, value: usize) -> SupervisorContext {
        SupervisorContext { a0: error, a1: value, ..self }
    }

    /// Reads integer register `x{i}`.
    pub fn get_reg(&self, i: usize) -> (r: usize)
        requires
            i < 32,
        ensures
            r == self.reg(i as int),
    {
        match i {
            1 => self.ra,
            2 => self.sp,
            3 => self.gp,
            4 => self.tp,
            5 => self.t0,
            6 => self.t1,
            7 => self.t2,
            8 => self.s0,
            9 => self.s1,
            10 => self.a0,
            11 => self.a1,
            12 => self.a2,
            13 => self.a3,
            14 => self.a4,
            15 => self.a5,
            16 => self.a6,
            17 => self.a7,
            18 => self.s2,
            19 => self.s3,
            20 => self.s4,
            21 => self.s5,
            22 => self.s6,
            23 => self.s7,
            24 => self.s8,
            25 => self.s9,
            26 => self.s10,
            27 => self.s11,
            28 => self.t3,
            29 => self.t4,
            30 => self.t5,
            31 => self.t6,
            _ => 0,
        }
    }

    /// Writes integer register `x{i}`; a write to `x0` is discarded.
    pub fn set_reg(&mut self, i: usize, v: usize)
        requires
            i < 32,
        ensures
            *final(self) == old(self).with_reg(i as int, v),
    {
        match i {
            1 => self.ra = v,
            2 => self.sp = v,
            3 => self.gp = v,
            4 => self.tp = v,
            5 => self.t0 = v,
            6 => self.t1 = v,
            7 => self.t2 = v,
            8 => self.s0 = v,
            9 => self.s1 = v,
            10 => self.a0 = v,
            11 => self.a1 = v,
            12 => self.a2 = v,
            13 => self.a3 = v,
            14 => self.a4 = v,
            15 => self.a5 = v,
            16 => self.a6 = v,
            17 => self.a7 = v,
            18 => self.s2 = v,
            19 => self.s3 = v,
            20 => self.s4 = v,
            21 => self.s5 = v,
            22 => self.s6 = v,
            23 => self.s7 = v,
            24 => self.s8 = v,
            25 => self.s9 = v,
            26 => self.s10 = v,
            27 => self.s11 = v,
            28 => self.t3 = v,
            29 => self.t4 = v,
            30 => self.t5 = v,
            31 => self.t6 = v,
            _ => {},
        }
    }

    /// Moves `mepc` past an instruction of `len` bytes.
    pub fn advance(&mut self, len: usize)
        ensures
            *final(self) == old(self).advanced(len),
    {
        self.mepc = self.mepc.wrapping_add(len);
    }
}

/// `a + b` modulo 2^64, as `usize::wrapping_add` computes it.
pub open spec fn wrapping_add(a: usize, b: usize) -> usize {
    if a + b > usize::MAX {
        (a + b - usize::MAX - 1) as usize
    } else {
        (a + b) as usize
    }
}

} // verus!
