use vstd::prelude::*;
use crate::cb_codes::{cb_cycles, cb_spec, reg_get, reg_set};
use crate::cpu::{
    Cpu, CpuError, CpuView, adv_pc, cpu_wf, imm16, imm8, pop_spec, pop_value, push_spec, with_hl,
    with_pc, wrap16, write_word,
};
use crate::instructions::{
    add_spec, and_spec, carry_in, daa_spec, dec_spec, hl_add_flags, inc_spec, or_spec, shift_spec,
    signed, sp_offset_spec, sub_spec, with_af, with_flags, xor_spec,
};
use crate::mmu::{mmu_read, mmu_write};
use crate::registres::{CpuFlag, Registers, flag_c, flag_z, flags_byte, high_byte, low_byte, make_flags};

verus! {

/// Branch condition `cc` of a conditional jump, call or return: NZ, Z, NC, C.
pub open spec fn cond(f: u8, cc: u8) -> bool {
    if cc == 0 {
        !flag_z(f)
    } else if cc == 1 {
        flag_z(f)
    } else if cc == 2 {
        !flag_c(f)
    } else {
        flag_c(f)
    }
}

proof fn lemma_wrap16(x: int)
    requires
        0 <= x < 0x20000,
    ensures
        wrap16(x) as int == if x >= 0x10000 { x - 0x10000 } else { x },
{
}

/// Register pair `i` of the load and arithmetic opcodes: BC, DE, HL, SP.
pub open spec fn rr_get(v: CpuView, i: u8) -> u16 {
    if i == 0 {
        v.regs.spec_bc()
    } else if i == 1 {
        v.regs.spec_de()
    } else if i == 2 {
        v.regs.spec_hl()
    } else {
        v.regs.sp
    }
}

pub open spec fn rr_set(v: CpuView, i: u8, x: u16) -> CpuView {
    if i == 0 {
        CpuView { regs: Registers { b: high_byte(x), c: low_byte(x), ..v.regs }, ..v }
    } else if i == 1 {
        CpuView { regs: Registers { d: high_byte(x), e: low_byte(x), ..v.regs }, ..v }
    } else if i == 2 {
        with_hl(v, x)
    } else {
        CpuView { regs: Registers { sp: x, ..v.regs }, ..v }
    }
}

/// Register pair `i` of the stack opcodes: BC, DE, HL, AF.
pub open spec fn rr2_get(v: CpuView, i: u8) -> u16 {
    if i == 3 { v.regs.spec_af() } else { rr_get(v, i) }
}

pub open spec fn rr2_set(v: CpuView, i: u8, x: u16) -> CpuView {
    if i == 3 {
        CpuView { regs: Registers { a: high_byte(x), flags: low_byte(x) & 0xF0, ..v.regs }, ..v }
    } else {
        rr_set(v, i, x)
    }
}

/// Accumulator operation `k` with operand `x`: add, adc, sub, sbc, and, xor, or, cp.
pub open spec fn alu_spec(v: CpuView, k: u8, x: u8) -> CpuView {
    let a = v.regs.a;
    let f = v.regs.flags;
    if k == 0 {
        with_af(v, add_spec(a, x, 0).0, add_spec(a, x, 0).1)
    } else if k == 1 {
        with_af(v, add_spec(a, x, carry_in(f)).0, add_spec(a, x, carry_in(f)).1)
    } else if k == 2 {
        with_af(v, sub_spec(a, x, 0).0, sub_spec(a, x, 0).1)
    } else if k == 3 {
        with_af(v, sub_spec(a, x, carry_in(f)).0, sub_spec(a, x, carry_in(f)).1)
    } else if k == 4 {
        with_af(v, and_spec(a, x).0, and_spec(a, x).1)
    } else if k == 5 {
        with_af(v, xor_spec(a, x).0, xor_spec(a, x).1)
    } else if k == 6 {
        with_af(v, or_spec(a, x).0, or_spec(a, x).1)
    } else {
        with_flags(v, sub_spec(a, x, 0).1)
    }
}

/// The reserved opcodes.
pub open spec fn invalid_opcode(op: u8) -> bool {
    op == 0xD3 || op == 0xDB || op == 0xDD || op == 0xE3 || op == 0xE4 || op == 0xEB || op == 0xEC
        || op == 0xED || op == 0xF4 || op == 0xFC || op == 0xFD
}

/// A rotate of A by the accumulator opcodes: as the extended one, with zero cleared.
pub open spec fn rotate_a(v: CpuView, k: u8) -> CpuView {
    let s = shift_spec(k, v.regs.a, v.regs.flags);
    with_af(v, s.0, flags_byte(false, false, false, flag_c(s.1)))
}

/// The opcodes of 0x01 to 0x3F laid out by field: 16-bit loads, increments, decrements
/// and additions by register pair, and 8-bit increments, decrements and immediate loads
/// by operand.
pub open spec fn is_low_regular(op: u8) -> bool {
    op != 0 && (op % 16 == 1 || op % 16 == 3 || op % 16 == 0x0B || op % 16 == 9 || op % 8 == 4 || op % 8 == 5
        || op % 8 == 6)
}

/// The loads of 0x00 to 0x3F through BC, DE and HL.
pub open spec fn is_low_memory(op: u8) -> bool {
    op == 0x02 || op == 0x12 || op == 0x22 || op == 0x32 || op == 0x0A || op == 0x1A || op == 0x2A || op == 0x3A
}

pub open spec fn is_low_pair(op: u8) -> bool {
    op % 16 == 1 || op % 16 == 3 || op % 16 == 0x0B || op % 16 == 9
}

pub open spec fn low_regular_spec(v: CpuView, op: u8) -> (CpuView, u32) {
    if is_low_pair(op) { low_pair_spec(v, op) } else { low_operand_spec(v, op) }
}

/// 16-bit loads, increments, decrements and additions to HL, by register pair.
#[verifier::opaque]
pub open spec fn low_pair_spec(v: CpuView, op: u8) -> (CpuView, u32) {
    let rp = op / 16;
    let f = v.regs.flags;
    let hl = v.regs.spec_hl();
    if op % 16 == 1 {
        (rr_set(adv_pc(v, 2), rp, imm16(v)), 3)
    } else if op % 16 == 3 {
        (rr_set(v, rp, wrap16(rr_get(v, rp) + 1)), 2)
    } else if op % 16 == 0x0B {
        (rr_set(v, rp, wrap16(rr_get(v, rp) + 0xFFFF)), 2)
    } else {
        (with_flags(with_hl(v, wrap16(hl + rr_get(v, rp))), hl_add_flags(hl, rr_get(v, rp), f)), 2)
    }
}

/// 8-bit increments, decrements and immediate loads, by operand.
#[verifier::opaque]
pub open spec fn low_operand_spec(v: CpuView, op: u8) -> (CpuView, u32) {
    let row = op / 8;
    let f = v.regs.flags;
    if op % 8 == 4 {
        let s = inc_spec(reg_get(v, row), f);
        (reg_set(with_flags(v, s.1), row, s.0), if row == 6 { 3 } else { 1 })
    } else if op % 8 == 5 {
        let s = dec_spec(reg_get(v, row), f);
        (reg_set(with_flags(v, s.1), row, s.0), if row == 6 { 3 } else { 1 })
    } else {
        (reg_set(adv_pc(v, 1), row, imm8(v)), if row == 6 { 3 } else { 2 })
    }
}

#[verifier::opaque]
pub open spec fn low_memory_spec(v: CpuView, op: u8) -> (CpuView, u32) {
    let hl = v.regs.spec_hl();
    if op == 0x02 {
        (CpuView { mem: mmu_write(v.mem, v.regs.spec_bc(), v.regs.a), ..v }, 2)
    } else if op == 0x12 {
        (CpuView { mem: mmu_write(v.mem, v.regs.spec_de(), v.regs.a), ..v }, 2)
    } else if op == 0x22 {
        (with_hl(CpuView { mem: mmu_write(v.mem, hl, v.regs.a), ..v }, wrap16(hl + 1)), 2)
    } else if op == 0x32 {
        (with_hl(CpuView { mem: mmu_write(v.mem, hl, v.regs.a), ..v }, wrap16(hl + 0xFFFF)), 2)
    } else if op == 0x0A {
        (CpuView { regs: Registers { a: mmu_read(v.mem, v.regs.spec_bc()), ..v.regs }, ..v }, 2)
    } else if op == 0x1A {
        (CpuView { regs: Registers { a: mmu_read(v.mem, v.regs.spec_de()), ..v.regs }, ..v }, 2)
    } else if op == 0x2A {
        (with_hl(CpuView { regs: Registers { a: mmu_read(v.mem, hl), ..v.regs }, ..v }, wrap16(hl + 1)), 2)
    } else {
        (with_hl(CpuView { regs: Registers { a: mmu_read(v.mem, hl), ..v.regs }, ..v }, wrap16(hl + 0xFFFF)), 2)
    }
}

/// NOP, accumulator rotates, the stack-pointer store, STOP, relative jumps, and the
/// flag and BCD opcodes. STOP costs one machine cycle, its fetch: no step takes zero
/// cycles, so the timer and the display always move on with the CPU.
#[verifier::opaque]
pub open spec fn low_control_spec(v: CpuView, op: u8) -> (CpuView, u32) {
    let f = v.regs.flags;
    if op == 0x00 {
        (v, 1)
    } else if op == 0x07 {
        (rotate_a(v, 0), 1)
    } else if op == 0x0F {
        (rotate_a(v, 1), 1)
    } else if op == 0x17 {
        (rotate_a(v, 2), 1)
    } else if op == 0x1F {
        (rotate_a(v, 3), 1)
    } else if op == 0x08 {
        let w = adv_pc(v, 2);
        (CpuView { mem: write_word(w.mem, imm16(v), v.regs.sp), ..w }, 5)
    } else if op == 0x10 {
        (CpuView { stopped: true, ..v }, 1)
    } else if op == 0x18 {
        let w = adv_pc(v, 1);
        (with_pc(w, wrap16(w.regs.pc + signed(imm8(v)))), 3)
    } else if op == 0x20 || op == 0x28 || op == 0x30 || op == 0x38 {
        let w = adv_pc(v, 1);
        if cond(f, (op / 8) % 4) {
            (with_pc(w, wrap16(w.regs.pc + signed(imm8(v)))), 3)
        } else {
            (w, 2)
        }
    } else if op == 0x27 {
        (with_af(v, daa_spec(v.regs.a, f).0, daa_spec(v.regs.a, f).1), 1)
    } else if op == 0x2F {
        (with_af(v, (255 - v.regs.a) as u8, flags_byte(flag_z(f), true, true, flag_c(f))), 1)
    } else if op == 0x37 {
        (with_flags(v, flags_byte(flag_z(f), false, false, true)), 1)
    } else {
        (with_flags(v, flags_byte(flag_z(f), false, false, !flag_c(f))), 1)
    }
}

/// Opcodes 0x00 to 0x3F, fetched with the program counter past the opcode:
/// the state after and the machine cycles.
pub open spec fn low_spec(v: CpuView, op: u8) -> (CpuView, u32) {
    if is_low_regular(op) {
        low_regular_spec(v, op)
    } else if is_low_memory(op) {
        low_memory_spec(v, op)
    } else {
        low_control_spec(v, op)
    }
}

/// Opcodes 0x40 to 0x7F: loads between operands, and HALT at 0x76. HALT costs one
/// machine cycle, its fetch, as each later step of a halted CPU does.
#[verifier::opaque]
pub open spec fn load_spec(v: CpuView, op: u8) -> (CpuView, u32) {
    let d = (op / 8) % 8;
    let s = op % 8;
    if op == 0x76 {
        (CpuView { halted: true, ..v }, 1)
    } else {
        (reg_set(v, d, reg_get(v, s)), if d == 6 || s == 6 { 2 } else { 1 })
    }
}

/// Opcodes 0x80 to 0xBF: accumulator operations on an operand.
#[verifier::opaque]
pub open spec fn alu_op_spec(v: CpuView, op: u8) -> (CpuView, u32) {
    (alu_spec(v, (op / 8) % 8, reg_get(v, op % 8)), if op % 8 == 6 { 2 } else { 1 })
}

/// A return: the popped word becomes the program counter.
pub open spec fn ret_spec(v: CpuView) -> CpuView {
    with_pc(pop_spec(v), pop_value(v))
}

/// A call of `target` from `v`, whose program counter is the return address.
pub open spec fn call_spec(v: CpuView, target: u16) -> CpuView {
    with_pc(push_spec(v, v.regs.pc), target)
}

/// Opcodes 0xC0 to 0xFF other than the prefix and the reserved ones.
#[verifier::opaque]
pub open spec fn high_spec(v: CpuView, op: u8) -> (CpuView, u32) {
    let f = v.regs.flags;
    let cc = (op / 8) % 4;
    let w1 = adv_pc(v, 1);
    let w2 = adv_pc(v, 2);
    if op % 8 == 7 {
        (call_spec(v, (op - 0xC7) as u16), 4)
    } else if op == 0xC0 || op == 0xC8 || op == 0xD0 || op == 0xD8 {
        if cond(f, cc) { (ret_spec(v), 5) } else { (v, 2) }
    } else if op % 16 == 1 {
        (rr2_set(pop_spec(v), (op / 16) % 4, pop_value(v)), 3)
    } else if op == 0xC2 || op == 0xCA || op == 0xD2 || op == 0xDA {
        if cond(f, cc) { (with_pc(w2, imm16(v)), 4) } else { (w2, 3) }
    } else if op == 0xC3 {
        (with_pc(w2, imm16(v)), 4)
    } else if op == 0xC4 || op == 0xCC || op == 0xD4 || op == 0xDC {
        if cond(f, cc) { (call_spec(w2, imm16(v)), 6) } else { (w2, 3) }
    } else if op % 16 == 5 {
        (push_spec(v, rr2_get(v, (op / 16) % 4)), 4)
    } else if op % 8 == 6 {
        (alu_spec(w1, (op / 8) % 8, imm8(v)), 2)
    } else if op == 0xC9 {
        (ret_spec(v), 4)
    } else if op == 0xD9 {
        (CpuView { ei: true, ..ret_spec(v) }, 4)
    } else if op == 0xCD {
        (call_spec(w2, imm16(v)), 6)
    } else if op == 0xE0 {
        (CpuView { mem: mmu_write(v.mem, (0xFF00 + imm8(v)) as u16, v.regs.a), ..w1 }, 3)
    } else if op == 0xF0 {
        (CpuView { regs: Registers { a: mmu_read(v.mem, (0xFF00 + imm8(v)) as u16), ..w1.regs }, ..w1 }, 3)
    } else if op == 0xE2 {
        (CpuView { mem: mmu_write(v.mem, (0xFF00 + v.regs.c) as u16, v.regs.a), ..v }, 2)
    } else if op == 0xF2 {
        (CpuView { regs: Registers { a: mmu_read(v.mem, (0xFF00 + v.regs.c) as u16), ..v.regs }, ..v }, 2)
    } else if op == 0xE8 {
        let s = sp_offset_spec(v.regs.sp, imm8(v));
        (CpuView { regs: Registers { sp: s.0, flags: s.1, ..w1.regs }, ..w1 }, 4)
    } else if op == 0xF8 {
        let s = sp_offset_spec(v.regs.sp, imm8(v));
        (with_flags(with_hl(w1, s.0), s.1), 3)
    } else if op == 0xE9 {
        (with_pc(v, v.regs.spec_hl()), 1)
    } else if op == 0xF9 {
        (CpuView { regs: Registers { sp: v.regs.spec_hl(), ..v.regs }, ..v }, 2)
    } else if op == 0xEA {
        (CpuView { mem: mmu_write(v.mem, imm16(v), v.regs.a), ..w2 }, 4)
    } else if op == 0xFA {
        (CpuView { regs: Registers { a: mmu_read(v.mem, imm16(v)), ..w2.regs }, ..w2 }, 4)
    } else if op == 0xF3 {
        (CpuView { ei: false, ..v }, 1)
    } else {
        (CpuView { ei: true, ..v }, 1)
    }
}

/// What opcode `op` does once fetched (the program counter already past it):
/// the state after, and the machine cycles or the decode error.
pub open spec fn execute_spec(v: CpuView, op: u8) -> (CpuView, Result<u32, CpuError>) {
    if invalid_opcode(op) {
        (v, Err(CpuError::InvalidOpcode { opcode: op, pc: wrap16(v.regs.pc + 0xFFFF) }))
    } else if op == 0xCB {
        (cb_spec(adv_pc(v, 1), imm8(v)), Ok(cb_cycles(imm8(v))))
    } else if op < 0x40 {
        (low_spec(v, op).0, Ok(low_spec(v, op).1))
    } else if op < 0x80 {
        (load_spec(v, op).0, Ok(load_spec(v, op).1))
    } else if op < 0xC0 {
        (alu_op_spec(v, op).0, Ok(alu_op_spec(v, op).1))
    } else {
        (high_spec(v, op).0, Ok(high_spec(v, op).1))
    }
}

impl Cpu {
    fn condition(&self, cc: u8) -> (r: bool)
        ensures
            r == cond(self.registres.flags, cc),
    {
        if cc == 0 {
            !self.registres.has_flag(CpuFlag::Zero)
        } else if cc == 1 {
            self.registres.has_flag(CpuFlag::Zero)
        } else if cc == 2 {
            !self.registres.has_flag(CpuFlag::Carry)
        } else {
            self.registres.has_flag(CpuFlag::Carry)
        }
    }

    fn get_rr(&self, i: u8) -> (r: u16)
        ensures
            r == rr_get(self@, i),
    {
        if i == 0 {
            self.registres.bc()
        } else if i == 1 {
            self.registres.de()
        } else if i == 2 {
            self.registres.hl()
        } else {
            self.registres.sp
        }
    }

    fn set_rr(&mut self, i: u8, x: u16)
        requires
            cpu_wf(old(self)@),
        ensures
            final(self)@ == rr_set(old(self)@, i, x),
            cpu_wf(final(self)@),
    {
        if i == 0 {
            self.registres.set_bc(x);
        } else if i == 1 {
            self.registres.set_de(x);
        } else if i == 2 {
            self.registres.set_hl(x);
        } else {
            self.registres.sp = x;
        }
    }

    fn get_rr2(&self, i: u8) -> (r: u16)
        ensures
            r == rr2_get(self@, i),
    {
        if i == 3 { self.registres.af() } else { self.get_rr(i) }
    }

    fn set_rr2(&mut self, i: u8, x: u16)
        requires
            cpu_wf(old(self)@),
        ensures
            final(self)@ == rr2_set(old(self)@, i, x),
            cpu_wf(final(self)@),
    {
        if i == 3 { self.registres.set_af(x); } else { self.set_rr(i, x); }
    }

    /// Accumulator operation `k` on `x`.
    pub fn alu_op(&mut self, k: u8, x: u8)
        requires
            cpu_wf(old(self)@),
        ensures
            final(self)@ == alu_spec(old(self)@, k, x),
            cpu_wf(final(self)@),
    {
        if k == 0 {
            self.inst_alu_add(x);
        } else if k == 1 {
            self.inst_alu_adc(x);
        } else if k == 2 {
            self.inst_alu_sub(x);
        } else if k == 3 {
            self.inst_alu_sbc(x);
        } else if k == 4 {
            self.inst_alu_and(x);
        } else if k == 5 {
            self.inst_alu_xor(x);
        } else if k == 6 {
            self.inst_alu_or(x);
        } else {
            self.inst_alu_cp(x);
        }
    }

    fn rotate_a(&mut self, k: u8)
        requires
            cpu_wf(old(self)@),
            k < 4,
        ensures
            final(self)@ == rotate_a(old(self)@, k),
            cpu_wf(final(self)@),
    {
        let a = self.registres.a;
        let r = self.inst_alu_shift(k, a);
        let c = self.registres.has_flag(CpuFlag::Carry);
        self.registres.a = r;
        self.registres.flags = make_flags(false, false, false, c);
    }

    /// 16-bit immediate loads into a register pair.
    fn load_pair_immediate(&mut self, op: u8) -> (r: u32)
        requires
            cpu_wf(old(self)@),
            op < 0x40,
            op % 16 == 1,
        ensures
            (final(self)@, r) == low_pair_spec(old(self)@, op),
            r <= 6,
            cpu_wf(final(self)@),
    {
        reveal(low_pair_spec);
        let x = self.get_mot_at_pc();
        self.set_rr(op / 16, x);
        3
    }

    /// 16-bit increments and decrements of a register pair.
    fn step_pair(&mut self, op: u8) -> (r: u32)
        requires
            cpu_wf(old(self)@),
            op < 0x40,
            op % 16 == 3 || op % 16 == 0x0B,
        ensures
            (final(self)@, r) == low_pair_spec(old(self)@, op),
            r <= 6,
            cpu_wf(final(self)@),
    {
        reveal(low_pair_spec);
        let rp = op / 16;
        let y = self.get_rr(rp);
        let x: u16 = if op % 16 == 3 {
            if y == 0xFFFF { 0 } else { y + 1 }
        } else {
            if y == 0 { 0xFFFF } else { y - 1 }
        };
        proof {
            lemma_wrap16(y + 1);
            lemma_wrap16(y + 0xFFFF);
            assert(x == if op % 16 == 3 { wrap16(y + 1) } else { wrap16(y + 0xFFFF) });
        }
        self.set_rr(rp, x);
        2
    }

    /// Additions of a register pair to HL.
    fn add_pair(&mut self, op: u8) -> (r: u32)
        requires
            cpu_wf(old(self)@),
            op < 0x40,
            op % 16 == 9,
        ensures
            (final(self)@, r) == low_pair_spec(old(self)@, op),
            r <= 6,
            cpu_wf(final(self)@),
    {
        reveal(low_pair_spec);
        let x = self.get_rr(op / 16);
        self.inst_alu_add_hl(x);
        2
    }

    /// 16-bit loads, increments, decrements and additions to HL.
    fn execute_low_pair(&mut self, op: u8) -> (r: u32)
        requires
            cpu_wf(old(self)@),
            op < 0x40,
            is_low_pair(op),
        ensures
            (final(self)@, r) == low_pair_spec(old(self)@, op),
            r <= 6,
            cpu_wf(final(self)@),
    {
        if op % 16 == 1 {
            self.load_pair_immediate(op)
        } else if op % 16 == 9 {
            self.add_pair(op)
        } else {
            self.step_pair(op)
        }
    }

    /// 8-bit increments, decrements and immediate loads.
    fn execute_low_operand(&mut self, op: u8) -> (r: u32)
        requires
            cpu_wf(old(self)@),
            op < 0x40,
            op % 8 == 4 || op % 8 == 5 || op % 8 == 6,
        ensures
            (final(self)@, r) == low_operand_spec(old(self)@, op),
            r <= 6,
            cpu_wf(final(self)@),
    {
        reveal(low_operand_spec);
        let row = op / 8;
        if op % 8 == 4 {
            let x = self.get_reg(row);
            let y = self.inst_alu_inc(x);
            self.set_reg(row, y);
            if row == 6 { 3 } else { 1 }
        } else if op % 8 == 5 {
            let x = self.get_reg(row);
            let y = self.inst_alu_dec(x);
            self.set_reg(row, y);
            if row == 6 { 3 } else { 1 }
        } else {
            let x = self.get_octet_at_pc();
            self.set_reg(row, x);
            if row == 6 { 3 } else { 2 }
        }
    }

    /// Loads of 0x00 to 0x3F through BC, DE and HL.
    #[verifier::rlimit(60)]
    fn execute_low_memory(&mut self, op: u8) -> (r: u32)
        requires
            cpu_wf(old(self)@),
            is_low_memory(op),
        ensures
            (final(self)@, r) == low_memory_spec(old(self)@, op),
            r <= 6,
            cpu_wf(final(self)@),
    {
        reveal(low_memory_spec);
        if op == 0x02 {
            let addr = self.registres.bc();
            self.set_octet_in_memoire(addr, self.registres.a);
            2
        } else if op == 0x12 {
            let addr = self.registres.de();
            self.set_octet_in_memoire(addr, self.registres.a);
            2
        } else if op == 0x22 {
            let addr = self.registres.hl();
            self.set_octet_in_memoire(addr, self.registres.a);
            self.registres.set_hl(addr.wrapping_add(1));
            2
        } else if op == 0x32 {
            let addr = self.registres.hl();
            self.set_octet_in_memoire(addr, self.registres.a);
            self.registres.set_hl(addr.wrapping_sub(1));
            2
        } else if op == 0x0A {
            self.registres.a = self.get_octet_in_memoire(self.registres.bc());
            2
        } else if op == 0x1A {
            self.registres.a = self.get_octet_in_memoire(self.registres.de());
            2
        } else if op == 0x2A {
            let addr = self.registres.hl();
            self.registres.a = self.get_octet_in_memoire(addr);
            self.registres.set_hl(addr.wrapping_add(1));
            2
        } else {
            let addr = self.registres.hl();
            self.registres.a = self.get_octet_in_memoire(addr);
            self.registres.set_hl(addr.wrapping_sub(1));
            2
        }
    }

    /// NOP, accumulator rotates, the stack-pointer store, STOP, relative jumps, and the
    /// flag and BCD opcodes.
    fn execute_low_control(&mut self, op: u8) -> (r: u32)
        requires
            cpu_wf(old(self)@),
            op < 0x40,
            !is_low_regular(op),
            !is_low_memory(op),
        ensures
            (final(self)@, r) == low_control_spec(old(self)@, op),
            r <= 6,
            cpu_wf(final(self)@),
    {
        reveal(low_control_spec);
        if op == 0x00 {
            1
        } else if op == 0x07 {
            self.rotate_a(0);
            1
        } else if op == 0x0F {
            self.rotate_a(1);
            1
        } else if op == 0x17 {
            self.rotate_a(2);
            1
        } else if op == 0x1F {
            self.rotate_a(3);
            1
        } else if op == 0x08 {
            let addr = self.get_mot_at_pc();
            self.set_mot_in_memoire(addr, self.registres.sp);
            5
        } else if op == 0x10 {
            self.stopped = true;
            1
        } else if op == 0x18 {
            let n = self.get_octet_at_pc();
            self.inst_alu_jr(n);
            3
        } else if op == 0x20 || op == 0x28 || op == 0x30 || op == 0x38 {
            let n = self.get_octet_at_pc();
            if self.condition((op / 8) % 4) {
                self.inst_alu_jr(n);
                3
            } else {
                2
            }
        } else if op == 0x27 {
            self.inst_alu_daa();
            1
        } else if op == 0x2F {
            self.inst_alu_cpl();
            1
        } else if op == 0x37 {
            self.inst_alu_scf();
            1
        } else {
            self.inst_alu_ccf();
            1
        }
    }

    /// Loads between operands, and HALT.
    fn execute_load(&mut self, op: u8) -> (r: u32)
        requires
            cpu_wf(old(self)@),
            0x40 <= op < 0x80,
        ensures
            (final(self)@, r) == load_spec(old(self)@, op),
            r <= 6,
            cpu_wf(final(self)@),
    {
        reveal(load_spec);
        let d = (op / 8) % 8;
        let s = op % 8;
        if op == 0x76 {
            self.halted = true;
            1
        } else {
            let x = self.get_reg(s);
            self.set_reg(d, x);
            if d == 6 || s == 6 { 2 } else { 1 }
        }
    }

    /// Accumulator operations on an operand.
    fn execute_alu(&mut self, op: u8) -> (r: u32)
        requires
            cpu_wf(old(self)@),
            0x80 <= op < 0xC0,
        ensures
            (final(self)@, r) == alu_op_spec(old(self)@, op),
            r <= 6,
            cpu_wf(final(self)@),
    {
        reveal(alu_op_spec);
        let x = self.get_reg(op % 8);
        self.alu_op((op / 8) % 8, x);
        if op % 8 == 6 { 2 } else { 1 }
    }

    /// Returns, pops, jumps, calls, pushes, immediate accumulator operations and restarts.
    fn execute_flow(&mut self, op: u8) -> (r: u32)
        requires
            cpu_wf(old(self)@),
            0xC0 <= op,
            op % 8 == 7 || op % 8 == 6 || op % 16 == 1 || op % 16 == 5 || op == 0xC0 || op == 0xC8 || op == 0xD0
                || op == 0xD8 || op == 0xC2 || op == 0xCA || op == 0xD2 || op == 0xDA || op == 0xC3 || op == 0xC4
                || op == 0xCC || op == 0xD4 || op == 0xDC || op == 0xC9 || op == 0xD9 || op == 0xCD,
            !invalid_opcode(op),
        ensures
            (final(self)@, r) == high_spec(old(self)@, op),
            r <= 6,
            cpu_wf(final(self)@),
    {
        reveal(high_spec);
        let cc = (op / 8) % 4;
        if op % 8 == 7 {
            let pc = self.registres.pc;
            self.add_to_stack(pc);
            self.registres.pc = (op - 0xC7) as u16;
            4
        } else if op == 0xC0 || op == 0xC8 || op == 0xD0 || op == 0xD8 {
            if self.condition(cc) {
                let pc = self.pop_stack();
                self.registres.pc = pc;
                5
            } else {
                2
            }
        } else if op % 16 == 1 {
            let x = self.pop_stack();
            self.set_rr2((op / 16) % 4, x);
            3
        } else if op == 0xC2 || op == 0xCA || op == 0xD2 || op == 0xDA {
            let target = self.get_mot_at_pc();
            if self.condition(cc) {
                self.registres.pc = target;
                4
            } else {
                3
            }
        } else if op == 0xC3 {
            let target = self.get_mot_at_pc();
            self.registres.pc = target;
            4
        } else if op == 0xC4 || op == 0xCC || op == 0xD4 || op == 0xDC {
            let target = self.get_mot_at_pc();
            if self.condition(cc) {
                let pc = self.registres.pc;
                self.add_to_stack(pc);
                self.registres.pc = target;
                6
            } else {
                3
            }
        } else if op % 16 == 5 {
            let x = self.get_rr2((op / 16) % 4);
            self.add_to_stack(x);
            4
        } else if op % 8 == 6 {
            let x = self.get_octet_at_pc();
            self.alu_op((op / 8) % 8, x);
            2
        } else if op == 0xC9 {
            let pc = self.pop_stack();
            self.registres.pc = pc;
            4
        } else if op == 0xD9 {
            let pc = self.pop_stack();
            self.registres.pc = pc;
            self.ei = true;
            4
        } else {
            let target = self.get_mot_at_pc();
            let pc = self.registres.pc;
            self.add_to_stack(pc);
            self.registres.pc = target;
            6
        }
    }

    /// High-page and absolute loads, stack-pointer arithmetic, indirect jump and the
    /// interrupt-enable opcodes.
    fn execute_misc(&mut self, op: u8) -> (r: u32)
        requires
            cpu_wf(old(self)@),
            op == 0xE0 || op == 0xF0 || op == 0xE2 || op == 0xF2 || op == 0xE8 || op == 0xF8 || op == 0xE9
                || op == 0xF9 || op == 0xEA || op == 0xFA || op == 0xF3 || op == 0xFB,
        ensures
            (final(self)@, r) == high_spec(old(self)@, op),
            r <= 6,
            cpu_wf(final(self)@),
    {
        reveal(high_spec);
        if op == 0xE0 {
            let n = self.get_octet_at_pc();
            self.set_octet_in_memoire(0xFF00 + n as u16, self.registres.a);
            3
        } else if op == 0xF0 {
            let n = self.get_octet_at_pc();
            self.registres.a = self.get_octet_in_memoire(0xFF00 + n as u16);
            3
        } else if op == 0xE2 {
            self.set_octet_in_memoire(0xFF00 + self.registres.c as u16, self.registres.a);
            2
        } else if op == 0xF2 {
            self.registres.a = self.get_octet_in_memoire(0xFF00 + self.registres.c as u16);
            2
        } else if op == 0xE8 {
            let n = self.get_octet_at_pc();
            self.inst_alu_add_sp(n);
            4
        } else if op == 0xF8 {
            let n = self.get_octet_at_pc();
            let s = self.sp_offset(n);
            self.registres.set_hl(s.0);
            self.registres.flags = s.1;
            3
        } else if op == 0xE9 {
            self.registres.pc = self.registres.hl();
            1
        } else if op == 0xF9 {
            self.registres.sp = self.registres.hl();
            2
        } else if op == 0xEA {
            let addr = self.get_mot_at_pc();
            self.set_octet_in_memoire(addr, self.registres.a);
            4
        } else if op == 0xFA {
            let addr = self.get_mot_at_pc();
            self.registres.a = self.get_octet_in_memoire(addr);
            4
        } else if op == 0xF3 {
            self.ei = false;
            1
        } else {
            self.ei = true;
            1
        }
    }

    /// Executes opcode `op`, already fetched; returns its machine cycles, or the
    /// decode error for a reserved opcode.
    pub fn execute(&mut self, op_code: u8) -> (r: Result<u32, CpuError>)
        requires
            cpu_wf(old(self)@),
        ensures
            (final(self)@, r) == execute_spec(old(self)@, op_code),
            r is Ok ==> r->Ok_0 <= 6,
            cpu_wf(final(self)@),
    {
        let op = op_code;
        if op == 0xD3 || op == 0xDB || op == 0xDD || op == 0xE3 || op == 0xE4 || op == 0xEB || op == 0xEC
            || op == 0xED || op == 0xF4 || op == 0xFC || op == 0xFD {
            return Err(CpuError::InvalidOpcode { opcode: op, pc: self.registres.pc.wrapping_sub(1) });
        }
        if op == 0xCB {
            let cb = self.get_octet_at_pc();
            return Ok(self.execute_cb(cb));
        }
        if op < 0x40 {
            if op % 16 == 1 || op % 16 == 3 || op % 16 == 0x0B || op % 16 == 9 {
                Ok(self.execute_low_pair(op))
            } else if op % 8 == 4 || op % 8 == 5 || op % 8 == 6 {
                Ok(self.execute_low_operand(op))
            } else if op == 0x02 || op == 0x12 || op == 0x22 || op == 0x32 || op == 0x0A || op == 0x1A
                || op == 0x2A || op == 0x3A {
                Ok(self.execute_low_memory(op))
            } else {
                Ok(self.execute_low_control(op))
            }
        } else if op < 0x80 {
            Ok(self.execute_load(op))
        } else if op < 0xC0 {
            Ok(self.execute_alu(op))
        } else if op == 0xE0 || op == 0xF0 || op == 0xE2 || op == 0xF2 || op == 0xE8 || op == 0xF8 || op == 0xE9
            || op == 0xF9 || op == 0xEA || op == 0xFA || op == 0xF3 || op == 0xFB {
            Ok(self.execute_misc(op))
        } else {
            Ok(self.execute_flow(op))
        }
    }
}

} // verus!
