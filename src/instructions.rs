use vstd::prelude::*;
use crate::cpu::{Cpu, CpuView, cpu_wf, with_hl, wrap16};
use crate::registres::{CpuFlag, Registers, flag_c, flag_h, flag_n, flag_z, flags_byte, make_flags};

verus! {

/// The carry flag of `f` as a number.
pub open spec fn carry_in(f: u8) -> int {
    if flag_c(f) { 1 } else { 0 }
}

/// Addition with carry-in `cin`: result and flags. Half-carry is a carry out of the
/// low nibble, carry one out of the byte.
pub open spec fn add_spec(a: u8, v: u8, cin: int) -> (u8, u8) {
    let sum = a + v + cin;
    let r = (sum % 256) as u8;
    (r, flags_byte(r == 0, false, a % 16 + v % 16 + cin > 15, sum > 255))
}

/// Subtraction with borrow-in `cin`: result and flags. Half-carry is a borrow into the
/// low nibble, carry a borrow into the byte.
pub open spec fn sub_spec(a: u8, v: u8, cin: int) -> (u8, u8) {
    let d = a - v - cin;
    let r = ((d + 256) % 256) as u8;
    (r, flags_byte(r == 0, true, a % 16 < v % 16 + cin, d < 0))
}

pub open spec fn and_spec(a: u8, v: u8) -> (u8, u8) {
    (a & v, flags_byte(a & v == 0, false, true, false))
}

pub open spec fn xor_spec(a: u8, v: u8) -> (u8, u8) {
    (a ^ v, flags_byte(a ^ v == 0, false, false, false))
}

pub open spec fn or_spec(a: u8, v: u8) -> (u8, u8) {
    (a | v, flags_byte(a | v == 0, false, false, false))
}

/// Increment: the carry flag is kept.
pub open spec fn inc_spec(v: u8, f: u8) -> (u8, u8) {
    let r = ((v + 1) % 256) as u8;
    (r, flags_byte(r == 0, false, v % 16 == 15, flag_c(f)))
}

/// Decrement: the carry flag is kept.
pub open spec fn dec_spec(v: u8, f: u8) -> (u8, u8) {
    let r = ((v + 255) % 256) as u8;
    (r, flags_byte(r == 0, true, v % 16 == 0, flag_c(f)))
}

/// The rotate, shift and swap operations of the extended table, by kind
/// (0 rlc, 1 rrc, 2 rl, 3 rr, 4 sla, 5 sra, 6 swap, 7 srl): result and flags.
pub open spec fn shift_spec(k: u8, v: u8, f: u8) -> (u8, u8) {
    let r: int = if k == 0 {
        (v * 2) % 256 + v / 128
    } else if k == 1 {
        v / 2 + (v % 2) * 128
    } else if k == 2 {
        (v * 2) % 256 + carry_in(f)
    } else if k == 3 {
        v / 2 + carry_in(f) * 128
    } else if k == 4 {
        (v * 2) % 256
    } else if k == 5 {
        v / 2 + (v / 128) * 128
    } else if k == 6 {
        (v % 16) * 16 + v / 16
    } else {
        (v / 2) as int
    };
    let c = if k == 0 || k == 2 || k == 4 {
        v >= 128
    } else if k == 6 {
        false
    } else {
        v % 2 == 1
    };
    (r as u8, flags_byte(r == 0, false, false, c))
}

/// Decimal adjust of the accumulator after a BCD addition or subtraction.
pub open spec fn daa_spec(a: u8, f: u8) -> (u8, u8) {
    let n = flag_n(f);
    let low: int = if flag_h(f) || (!n && a % 16 > 9) { 0x06 } else { 0 };
    let high: int = if flag_c(f) || (!n && a > 0x99) { 0x60 } else { 0 };
    let r = if n { ((a - low - high + 256) % 256) as u8 } else { ((a + low + high) % 256) as u8 };
    (r, flags_byte(r == 0, n, false, high != 0))
}

/// The flags after testing bit `b` of `v`: zero when the bit is clear; carry kept.
pub open spec fn bit_spec(v: u8, b: u8, f: u8) -> u8 {
    flags_byte(v & (1u8 << b) == 0, false, true, flag_c(f))
}

/// The flags of HL plus `value`: carries out of bit 11 and bit 15; zero kept.
pub open spec fn hl_add_flags(hl: u16, value: u16, f: u8) -> u8 {
    flags_byte(flag_z(f), false, hl % 4096 + value % 4096 > 4095, hl + value > 65535)
}

/// A signed byte as a number.
pub open spec fn signed(n: u8) -> int {
    if n < 128 { n as int } else { n - 256 }
}

/// The stack pointer plus a signed byte, and the flags of that addition
/// (carries out of the low nibble and the low byte).
pub open spec fn sp_offset_spec(sp: u16, n: u8) -> (u16, u8) {
    (wrap16(sp + signed(n)), flags_byte(false, false, sp % 16 + n % 16 > 15, sp % 256 + n > 255))
}

/// The CPU with A and the flags replaced.
pub open spec fn with_af(v: CpuView, a: u8, f: u8) -> CpuView {
    CpuView { regs: Registers { a, flags: f, ..v.regs }, ..v }
}

/// The CPU with the flags replaced.
pub open spec fn with_flags(v: CpuView, f: u8) -> CpuView {
    CpuView { regs: Registers { flags: f, ..v.regs }, ..v }
}

impl Cpu {
    pub fn inst_alu_inc(&mut self, value: u8) -> (r: u8)
        requires
            cpu_wf(old(self)@),
        ensures
            r == inc_spec(value, old(self).registres.flags).0,
            final(self)@ == with_flags(old(self)@, inc_spec(value, old(self).registres.flags).1),
            cpu_wf(final(self)@),
    {
        let c = self.registres.has_flag(CpuFlag::Carry);
        let result = value.wrapping_add(1);
        self.registres.flags = make_flags(result == 0, false, value % 16 == 15, c);
        result
    }

    pub fn inst_alu_dec(&mut self, value: u8) -> (r: u8)
        requires
            cpu_wf(old(self)@),
        ensures
            r == dec_spec(value, old(self).registres.flags).0,
            final(self)@ == with_flags(old(self)@, dec_spec(value, old(self).registres.flags).1),
            cpu_wf(final(self)@),
    {
        let c = self.registres.has_flag(CpuFlag::Carry);
        let result = value.wrapping_sub(1);
        self.registres.flags = make_flags(result == 0, true, value % 16 == 0, c);
        result
    }

    /// The rotate, shift or swap of kind `k` applied to `value`; sets the flags.
    pub fn inst_alu_shift(&mut self, k: u8, value: u8) -> (r: u8)
        requires
            cpu_wf(old(self)@),
            k < 8,
        ensures
            r == shift_spec(k, value, old(self).registres.flags).0,
            final(self)@ == with_flags(old(self)@, shift_spec(k, value, old(self).registres.flags).1),
            cpu_wf(final(self)@),
    {
        let cin: u16 = if self.registres.has_flag(CpuFlag::Carry) { 1 } else { 0 };
        let v = value as u16;
        let r: u16 = if k == 0 {
            (v * 2) % 256 + v / 128
        } else if k == 1 {
            v / 2 + (v % 2) * 128
        } else if k == 2 {
            (v * 2) % 256 + cin
        } else if k == 3 {
            v / 2 + cin * 128
        } else if k == 4 {
            (v * 2) % 256
        } else if k == 5 {
            v / 2 + (v / 128) * 128
        } else if k == 6 {
            (v % 16) * 16 + v / 16
        } else {
            v / 2
        };
        let c = if k == 0 || k == 2 || k == 4 {
            value >= 128
        } else if k == 6 {
            false
        } else {
            value % 2 == 1
        };
        self.registres.flags = make_flags(r == 0, false, false, c);
        r as u8
    }

    pub fn inst_alu_rlc(&mut self, value: u8) -> (r: u8)
        requires
            cpu_wf(old(self)@),
        ensures
            r == shift_spec(0, value, old(self).registres.flags).0,
            final(self)@ == with_flags(old(self)@, shift_spec(0, value, old(self).registres.flags).1),
            cpu_wf(final(self)@),
    {
        self.inst_alu_shift(0, value)
    }

    pub fn inst_alu_rrc(&mut self, value: u8) -> (r: u8)
        requires
            cpu_wf(old(self)@),
        ensures
            r == shift_spec(1, value, old(self).registres.flags).0,
            final(self)@ == with_flags(old(self)@, shift_spec(1, value, old(self).registres.flags).1),
            cpu_wf(final(self)@),
    {
        self.inst_alu_shift(1, value)
    }

    pub fn inst_alu_rl(&mut self, value: u8) -> (r: u8)
        requires
            cpu_wf(old(self)@),
        ensures
            r == shift_spec(2, value, old(self).registres.flags).0,
            final(self)@ == with_flags(old(self)@, shift_spec(2, value, old(self).registres.flags).1),
            cpu_wf(final(self)@),
    {
        self.inst_alu_shift(2, value)
    }

    pub fn inst_alu_rr(&mut self, value: u8) -> (r: u8)
        requires
            cpu_wf(old(self)@),
        ensures
            r == shift_spec(3, value, old(self).registres.flags).0,
            final(self)@ == with_flags(old(self)@, shift_spec(3, value, old(self).registres.flags).1),
            cpu_wf(final(self)@),
    {
        self.inst_alu_shift(3, value)
    }

    pub fn inst_alu_sla(&mut self, value: u8) -> (r: u8)
        requires
            cpu_wf(old(self)@),
        ensures
            r == shift_spec(4, value, old(self).registres.flags).0,
            final(self)@ == with_flags(old(self)@, shift_spec(4, value, old(self).registres.flags).1),
            cpu_wf(final(self)@),
    {
        self.inst_alu_shift(4, value)
    }

    pub fn inst_alu_sra(&mut self, value: u8) -> (r: u8)
        requires
            cpu_wf(old(self)@),
        ensures
            r == shift_spec(5, value, old(self).registres.flags).0,
            final(self)@ == with_flags(old(self)@, shift_spec(5, value, old(self).registres.flags).1),
            cpu_wf(final(self)@),
    {
        self.inst_alu_shift(5, value)
    }

    pub fn inst_alu_swap(&mut self, value: u8) -> (r: u8)
        requires
            cpu_wf(old(self)@),
        ensures
            r == shift_spec(6, value, old(self).registres.flags).0,
            final(self)@ == with_flags(old(self)@, shift_spec(6, value, old(self).registres.flags).1),
            cpu_wf(final(self)@),
    {
        self.inst_alu_shift(6, value)
    }

    pub fn inst_alu_srl(&mut self, value: u8) -> (r: u8)
        requires
            cpu_wf(old(self)@),
        ensures
            r == shift_spec(7, value, old(self).registres.flags).0,
            final(self)@ == with_flags(old(self)@, shift_spec(7, value, old(self).registres.flags).1),
            cpu_wf(final(self)@),
    {
        self.inst_alu_shift(7, value)
    }

    pub fn inst_alu_add(&mut self, value: u8)
        requires
            cpu_wf(old(self)@),
        ensures
            final(self)@ == with_af(
                old(self)@,
                add_spec(old(self).registres.a, value, 0).0,
                add_spec(old(self).registres.a, value, 0).1,
            ),
            cpu_wf(final(self)@),
    {
        let a = self.registres.a;
        let sum: u16 = a as u16 + value as u16;
        let r = (sum % 256) as u8;
        self.registres.flags = make_flags(r == 0, false, a % 16 + value % 16 > 15, sum > 255);
        self.registres.a = r;
    }

    pub fn inst_alu_adc(&mut self, value: u8)
        requires
            cpu_wf(old(self)@),
        ensures
            ({
                let s = add_spec(old(self).registres.a, value, carry_in(old(self).registres.flags));
                final(self)@ == with_af(old(self)@, s.0, s.1)
            }),
            cpu_wf(final(self)@),
    {
        let a = self.registres.a;
        let cin: u8 = if self.registres.has_flag(CpuFlag::Carry) { 1 } else { 0 };
        let sum: u16 = a as u16 + value as u16 + cin as u16;
        let r = (sum % 256) as u8;
        self.registres.flags = make_flags(r == 0, false, a % 16 + value % 16 + cin > 15, sum > 255);
        self.registres.a = r;
    }

    pub fn inst_alu_sub(&mut self, value: u8)
        requires
            cpu_wf(old(self)@),
        ensures
            final(self)@ == with_af(
                old(self)@,
                sub_spec(old(self).registres.a, value, 0).0,
                sub_spec(old(self).registres.a, value, 0).1,
            ),
            cpu_wf(final(self)@),
    {
        let a = self.registres.a;
        let r = a.wrapping_sub(value);
        self.registres.flags = make_flags(r == 0, true, a % 16 < value % 16, a < value);
        self.registres.a = r;
    }

    pub fn inst_alu_sbc(&mut self, value: u8)
        requires
            cpu_wf(old(self)@),
        ensures
            ({
                let s = sub_spec(old(self).registres.a, value, carry_in(old(self).registres.flags));
                final(self)@ == with_af(old(self)@, s.0, s.1)
            }),
            cpu_wf(final(self)@),
    {
        let a = self.registres.a;
        let cin: u8 = if self.registres.has_flag(CpuFlag::Carry) { 1 } else { 0 };
        let r = a.wrapping_sub(value).wrapping_sub(cin);
        self.registres.flags = make_flags(
            r == 0,
            true,
            a % 16 < value % 16 + cin,
            (a as u16) < value as u16 + cin as u16,
        );
        self.registres.a = r;
    }

    pub fn inst_alu_and(&mut self, value: u8)
        requires
            cpu_wf(old(self)@),
        ensures
            final(self)@ == with_af(
                old(self)@,
                and_spec(old(self).registres.a, value).0,
                and_spec(old(self).registres.a, value).1,
            ),
            cpu_wf(final(self)@),
    {
        let r = self.registres.a & value;
        self.registres.flags = make_flags(r == 0, false, true, false);
        self.registres.a = r;
    }

    pub fn inst_alu_xor(&mut self, value: u8)
        requires
            cpu_wf(old(self)@),
        ensures
            final(self)@ == with_af(
                old(self)@,
                xor_spec(old(self).registres.a, value).0,
                xor_spec(old(self).registres.a, value).1,
            ),
            cpu_wf(final(self)@),
    {
        let r = self.registres.a ^ value;
        self.registres.flags = make_flags(r == 0, false, false, false);
        self.registres.a = r;
    }

    pub fn inst_alu_or(&mut self, value: u8)
        requires
            cpu_wf(old(self)@),
        ensures
            final(self)@ == with_af(
                old(self)@,
                or_spec(old(self).registres.a, value).0,
                or_spec(old(self).registres.a, value).1,
            ),
            cpu_wf(final(self)@),
    {
        let r = self.registres.a | value;
        self.registres.flags = make_flags(r == 0, false, false, false);
        self.registres.a = r;
    }

    /// Compare: the flags of `A - value`, with A kept.
    pub fn inst_alu_cp(&mut self, value: u8)
        requires
            cpu_wf(old(self)@),
        ensures
            final(self)@ == with_flags(old(self)@, sub_spec(old(self).registres.a, value, 0).1),
            cpu_wf(final(self)@),
    {
        let curr = self.registres.a;
        self.inst_alu_sub(value);
        self.registres.a = curr;
    }

    /// HL plus `value`; the zero flag is kept.
    pub fn inst_alu_add_hl(&mut self, value: u16)
        requires
            cpu_wf(old(self)@),
        ensures
            final(self)@ == with_flags(with_hl(old(self)@, wrap16(old(self).registres.spec_hl() + value)),
                hl_add_flags(old(self).registres.spec_hl(), value, old(self).registres.flags)),
            cpu_wf(final(self)@),
    {
        let curr = self.registres.hl();
        let z = self.registres.has_flag(CpuFlag::Zero);
        let result = curr.wrapping_add(value);
        self.registres.set_hl(result);
        self.registres.flags = make_flags(
            z,
            false,
            curr % 4096 + value % 4096 > 4095,
            curr as u32 + value as u32 > 65535,
        );
    }

    /// Moves the program counter by the signed offset `n`.
    pub fn inst_alu_jr(&mut self, n: u8)
        requires
            cpu_wf(old(self)@),
        ensures
            final(self)@ == (CpuView {
                regs: Registers { pc: wrap16(old(self).registres.pc + signed(n)), ..old(self).registres },
                ..old(self)@
            }),
            cpu_wf(final(self)@),
    {
        let pc = self.registres.pc;
        self.registres.pc = if n < 128 {
            pc.wrapping_add(n as u16)
        } else {
            pc.wrapping_sub(256 - n as u16)
        };
    }

    /// The stack pointer plus the signed offset `value`, with its flags.
    pub fn sp_offset(&self, value: u8) -> (r: (u16, u8))
        ensures
            r == sp_offset_spec(self.registres.sp, value),
            r.1 & 0x0F == 0,
    {
        let sp = self.registres.sp;
        let s = if value < 128 { sp.wrapping_add(value as u16) } else { sp.wrapping_sub(256 - value as u16) };
        let f = make_flags(false, false, sp % 16 + value as u16 % 16 > 15, sp % 256 + value as u16 > 255);
        (s, f)
    }

    pub fn inst_alu_add_sp(&mut self, value: u8)
        requires
            cpu_wf(old(self)@),
        ensures
            ({
                let s = sp_offset_spec(old(self).registres.sp, value);
                final(self)@ == (CpuView {
                    regs: Registers { sp: s.0, flags: s.1, ..old(self).registres },
                    ..old(self)@
                })
            }),
            cpu_wf(final(self)@),
    {
        let r = self.sp_offset(value);
        self.registres.sp = r.0;
        self.registres.flags = r.1;
    }

    pub fn inst_alu_daa(&mut self)
        requires
            cpu_wf(old(self)@),
        ensures
            ({
                let s = daa_spec(old(self).registres.a, old(self).registres.flags);
                final(self)@ == with_af(old(self)@, s.0, s.1)
            }),
            cpu_wf(final(self)@),
    {
        let a = self.registres.a;
        let n = self.registres.has_flag(CpuFlag::Sub);
        let h = self.registres.has_flag(CpuFlag::HalfCarry);
        let c = self.registres.has_flag(CpuFlag::Carry);
        let low: u8 = if h || (!n && a % 16 > 9) { 0x06 } else { 0 };
        let high: u8 = if c || (!n && a > 0x99) { 0x60 } else { 0 };
        let r16: u16 = if n {
            (a as u16 + 256 - low as u16 - high as u16) % 256
        } else {
            (a as u16 + low as u16 + high as u16) % 256
        };
        let r = r16 as u8;
        self.registres.flags = make_flags(r == 0, n, false, high != 0);
        self.registres.a = r;
    }

    /// Complements A; zero and carry kept.
    pub fn inst_alu_cpl(&mut self)
        requires
            cpu_wf(old(self)@),
        ensures
            final(self)@ == with_af(
                old(self)@,
                (255 - old(self).registres.a) as u8,
                flags_byte(flag_z(old(self).registres.flags), true, true, flag_c(old(self).registres.flags)),
            ),
            cpu_wf(final(self)@),
    {
        let z = self.registres.has_flag(CpuFlag::Zero);
        let c = self.registres.has_flag(CpuFlag::Carry);
        self.registres.a = 255 - self.registres.a;
        self.registres.flags = make_flags(z, true, true, c);
    }

    /// Sets the carry flag; zero kept.
    pub fn inst_alu_scf(&mut self)
        requires
            cpu_wf(old(self)@),
        ensures
            final(self)@ == with_flags(old(self)@, flags_byte(flag_z(old(self).registres.flags), false, false, true)),
            cpu_wf(final(self)@),
    {
        let z = self.registres.has_flag(CpuFlag::Zero);
        self.registres.flags = make_flags(z, false, false, true);
    }

    /// Complements the carry flag; zero kept.
    pub fn inst_alu_ccf(&mut self)
        requires
            cpu_wf(old(self)@),
        ensures
            final(self)@ == with_flags(
                old(self)@,
                flags_byte(flag_z(old(self).registres.flags), false, false, !flag_c(old(self).registres.flags)),
            ),
            cpu_wf(final(self)@),
    {
        let z = self.registres.has_flag(CpuFlag::Zero);
        let c = self.registres.has_flag(CpuFlag::Carry);
        self.registres.flags = make_flags(z, false, false, !c);
    }

    /// Tests bit `bit` of `value`; carry kept.
    pub fn inst_alu_bit(&mut self, value: u8, bit: u8)
        requires
            cpu_wf(old(self)@),
            bit < 8,
        ensures
            final(self)@ == with_flags(old(self)@, bit_spec(value, bit, old(self).registres.flags)),
            cpu_wf(final(self)@),
    {
        let c = self.registres.has_flag(CpuFlag::Carry);
        self.registres.flags = make_flags(value & (1u8 << bit) == 0, false, true, c);
    }

    /// `value` with bit `bit` cleared.
    pub fn inst_alu_res(&self, value: u8, bit: u8) -> (r: u8)
        requires
            bit < 8,
        ensures
            r == value & !(1u8 << bit),
    {
        value & !(1u8 << bit)
    }

    /// `value` with bit `bit` set.
    pub fn inst_alu_set(&self, value: u8, bit: u8) -> (r: u8)
        requires
            bit < 8,
        ensures
            r == value | (1u8 << bit),
    {
        value | (1u8 << bit)
    }
}

} // verus!
