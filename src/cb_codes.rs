use vstd::prelude::*;
use crate::cpu::{Cpu, CpuView, cpu_wf};
use crate::instructions::{bit_spec, shift_spec, with_flags};
use crate::mmu::{mmu_read, mmu_write};
use crate::registres::Registers;

verus! {

/// The operand with index `r`: B, C, D, E, H, L, the byte at HL, A.
pub open spec fn reg_get(v: CpuView, r: u8) -> u8 {
    if r == 0 {
        v.regs.b
    } else if r == 1 {
        v.regs.c
    } else if r == 2 {
        v.regs.d
    } else if r == 3 {
        v.regs.e
    } else if r == 4 {
        v.regs.h
    } else if r == 5 {
        v.regs.l
    } else if r == 6 {
        mmu_read(v.mem, v.regs.spec_hl())
    } else {
        v.regs.a
    }
}

/// The CPU with operand `r` replaced by `x` (index 6 writes the byte at HL).
pub open spec fn reg_set(v: CpuView, r: u8, x: u8) -> CpuView {
    if r == 0 {
        CpuView { regs: Registers { b: x, ..v.regs }, ..v }
    } else if r == 1 {
        CpuView { regs: Registers { c: x, ..v.regs }, ..v }
    } else if r == 2 {
        CpuView { regs: Registers { d: x, ..v.regs }, ..v }
    } else if r == 3 {
        CpuView { regs: Registers { e: x, ..v.regs }, ..v }
    } else if r == 4 {
        CpuView { regs: Registers { h: x, ..v.regs }, ..v }
    } else if r == 5 {
        CpuView { regs: Registers { l: x, ..v.regs }, ..v }
    } else if r == 6 {
        CpuView { mem: mmu_write(v.mem, v.regs.spec_hl(), x), ..v }
    } else {
        CpuView { regs: Registers { a: x, ..v.regs }, ..v }
    }
}

/// What extended opcode `cb` does: the operand is `cb % 8`, the bit `(cb / 8) % 8`;
/// rows 0x00-0x3F rotate, shift or swap, 0x40-0x7F test, 0x80-0xBF reset,
/// 0xC0-0xFF set a bit.
pub open spec fn cb_spec(v: CpuView, cb: u8) -> CpuView {
    let r = cb % 8;
    let b = (cb / 8) % 8;
    let x = reg_get(v, r);
    if cb < 0x40 {
        let s = shift_spec(cb / 8, x, v.regs.flags);
        reg_set(with_flags(v, s.1), r, s.0)
    } else if cb < 0x80 {
        with_flags(v, bit_spec(x, b, v.regs.flags))
    } else if cb < 0xC0 {
        reg_set(v, r, x & !(1u8 << b))
    } else {
        reg_set(v, r, x | (1u8 << b))
    }
}

/// The machine cycles of extended opcode `cb`.
pub open spec fn cb_cycles(cb: u8) -> u32 {
    if cb % 8 == 6 {
        if 0x40 <= cb < 0x80 { 3 } else { 4 }
    } else {
        2
    }
}

impl Cpu {
    /// Operand `r`: B, C, D, E, H, L, the byte at HL, A.
    pub fn get_reg(&self, r: u8) -> (x: u8)
        requires
            cpu_wf(self@),
        ensures
            x == reg_get(self@, r),
    {
        if r == 0 {
            self.registres.b
        } else if r == 1 {
            self.registres.c
        } else if r == 2 {
            self.registres.d
        } else if r == 3 {
            self.registres.e
        } else if r == 4 {
            self.registres.h
        } else if r == 5 {
            self.registres.l
        } else if r == 6 {
            self.memoire.get_octet(self.registres.hl())
        } else {
            self.registres.a
        }
    }

    /// Replaces operand `r` with `x`.
    pub fn set_reg(&mut self, r: u8, x: u8)
        requires
            cpu_wf(old(self)@),
        ensures
            final(self)@ == reg_set(old(self)@, r, x),
            cpu_wf(final(self)@),
    {
        if r == 0 {
            self.registres.b = x;
        } else if r == 1 {
            self.registres.c = x;
        } else if r == 2 {
            self.registres.d = x;
        } else if r == 3 {
            self.registres.e = x;
        } else if r == 4 {
            self.registres.h = x;
        } else if r == 5 {
            self.registres.l = x;
        } else if r == 6 {
            let hl = self.registres.hl();
            self.memoire.set_octet(hl, x);
        } else {
            self.registres.a = x;
        }
    }

    /// Executes extended opcode `cb`; returns its machine cycles.
    pub fn execute_cb(&mut self, cb_code: u8) -> (r: u32)
        requires
            cpu_wf(old(self)@),
        ensures
            final(self)@ == cb_spec(old(self)@, cb_code),
            r == cb_cycles(cb_code),
            cpu_wf(final(self)@),
    {
        let r = cb_code % 8;
        let b = (cb_code / 8) % 8;
        let x = self.get_reg(r);
        if cb_code < 0x40 {
            let res = self.inst_alu_shift(cb_code / 8, x);
            self.set_reg(r, res);
        } else if cb_code < 0x80 {
            self.inst_alu_bit(x, b);
        } else if cb_code < 0xC0 {
            let res = self.inst_alu_res(x, b);
            self.set_reg(r, res);
        } else {
            let res = self.inst_alu_set(x, b);
            self.set_reg(r, res);
        }
        if r == 6 {
            if 0x40 <= cb_code && cb_code < 0x80 { 3 } else { 4 }
        } else {
            2
        }
    }
}

} // verus!
