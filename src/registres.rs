use vstd::prelude::*;

verus! {

/// The four meaningful bits of the flag byte.
#[derive(Clone, Copy, Debug, PartialEq, Eq, Structural)]
pub enum CpuFlag {
    Zero,
    Sub,
    HalfCarry,
    Carry,
}

/// The bit that a flag occupies in the flag byte.
pub open spec fn flag_mask(flag: CpuFlag) -> u8 {
    match flag {
        CpuFlag::Zero => 0x80,
        CpuFlag::Sub => 0x40,
        CpuFlag::HalfCarry => 0x20,
        CpuFlag::Carry => 0x10,
    }
}

pub open spec fn flag_z(f: u8) -> bool {
    f & 0x80 != 0
}

pub open spec fn flag_n(f: u8) -> bool {
    f & 0x40 != 0
}

pub open spec fn flag_h(f: u8) -> bool {
    f & 0x20 != 0
}

pub open spec fn flag_c(f: u8) -> bool {
    f & 0x10 != 0
}

/// Whether `flag` is set in the flag byte `f`.
pub open spec fn flag_of(f: u8, flag: CpuFlag) -> bool {
    f & flag_mask(flag) != 0
}

/// The flag byte with the four flags given and a clear low nibble.
pub open spec fn flags_byte(z: bool, n: bool, h: bool, c: bool) -> u8 {
    (if z { 0x80u8 } else { 0u8 }) | (if n { 0x40u8 } else { 0u8 }) | (if h { 0x20u8 } else {
        0u8
    }) | (if c { 0x10u8 } else { 0u8 })
}

/// A 16-bit pair made of a high and a low byte.
pub open spec fn pair(hi: u8, lo: u8) -> u16 {
    (hi as int * 256 + lo as int) as u16
}

pub open spec fn high_byte(v: u16) -> u8 {
    (v as int / 256) as u8
}

pub open spec fn low_byte(v: u16) -> u8 {
    (v as int % 256) as u8
}

proof fn lemma_flag_bits(zb: u8, nb: u8, hb: u8, cb: u8)
    by (bit_vector)
    requires
        zb == 0 || zb == 0x80,
        nb == 0 || nb == 0x40,
        hb == 0 || hb == 0x20,
        cb == 0 || cb == 0x10,
    ensures
        ((zb | nb | hb | cb) & 0x80 != 0) == (zb == 0x80),
        ((zb | nb | hb | cb) & 0x40 != 0) == (nb == 0x40),
        ((zb | nb | hb | cb) & 0x20 != 0) == (hb == 0x20),
        ((zb | nb | hb | cb) & 0x10 != 0) == (cb == 0x10),
        (zb | nb | hb | cb) & 0x0F == 0,
{
}

/// Reading the flags back from a byte built by `flags_byte` gives the flags it was built from.
pub proof fn lemma_flags_byte(z: bool, n: bool, h: bool, c: bool)
    ensures
        flag_z(flags_byte(z, n, h, c)) == z,
        flag_n(flags_byte(z, n, h, c)) == n,
        flag_h(flags_byte(z, n, h, c)) == h,
        flag_c(flags_byte(z, n, h, c)) == c,
        flags_byte(z, n, h, c) & 0x0F == 0,
{
    lemma_flag_bits(
        if z { 0x80u8 } else { 0u8 },
        if n { 0x40u8 } else { 0u8 },
        if h { 0x20u8 } else { 0u8 },
        if c { 0x10u8 } else { 0u8 },
    );
}

proof fn lemma_flag_update(f: u8, mask: u8)
    by (bit_vector)
    requires
        f & 0x0F == 0,
        mask == 0x80 || mask == 0x40 || mask == 0x20 || mask == 0x10,
    ensures
        (f | mask) & 0x0F == 0,
        (f & !mask) & 0x0F == 0,
        ((f | mask) & 0x80 != 0) == (mask == 0x80 || f & 0x80 != 0),
        ((f | mask) & 0x40 != 0) == (mask == 0x40 || f & 0x40 != 0),
        ((f | mask) & 0x20 != 0) == (mask == 0x20 || f & 0x20 != 0),
        ((f | mask) & 0x10 != 0) == (mask == 0x10 || f & 0x10 != 0),
        ((f & !mask) & 0x80 != 0) == (mask != 0x80 && f & 0x80 != 0),
        ((f & !mask) & 0x40 != 0) == (mask != 0x40 && f & 0x40 != 0),
        ((f & !mask) & 0x20 != 0) == (mask != 0x20 && f & 0x20 != 0),
        ((f & !mask) & 0x10 != 0) == (mask != 0x10 && f & 0x10 != 0),
{
}

proof fn lemma_pair_bytes(v: u16)
    ensures
        pair(high_byte(v), low_byte(v)) == v,
        (v >> 8) as u8 == high_byte(v),
        (v & 0x00FF) as u8 == low_byte(v),
        (v & 0x00F0) as u8 == low_byte(v) & 0xF0,
{
    assert((v >> 8) as u8 == (v as int / 256) as u8) by (bit_vector);
    assert((v & 0x00FF) as u8 == (v as int % 256) as u8) by (bit_vector);
    assert((v & 0x00F0) as u8 == ((v as int % 256) as u8) & 0xF0) by (bit_vector);
}

/// A word is the pair of its high and low bytes.
pub proof fn lemma_pair_of_bytes(v: u16)
    ensures
        pair(high_byte(v), low_byte(v)) == v,
{
    lemma_pair_bytes(v);
}

/// Builds a flag byte with the four flags given.
pub fn make_flags(z: bool, n: bool, h: bool, c: bool) -> (r: u8)
    ensures
        r == flags_byte(z, n, h, c),
        flag_z(r) == z,
        flag_n(r) == n,
        flag_h(r) == h,
        flag_c(r) == c,
        r & 0x0F == 0,
{
    proof {
        lemma_flags_byte(z, n, h, c);
    }
    (if z { 0x80u8 } else { 0u8 }) | (if n { 0x40u8 } else { 0u8 }) | (if h { 0x20u8 } else {
        0u8
    }) | (if c { 0x10u8 } else { 0u8 })
}

/// The register file: seven 8-bit registers, the flag byte, the program counter
/// and the stack pointer.
#[derive(Clone, Copy, Debug)]
pub struct Registers {
    pub a: u8,
    pub b: u8,
    pub c: u8,
    pub d: u8,
    pub e: u8,
    pub h: u8,
    pub l: u8,
    pub pc: u16,
    pub sp: u16,
    pub flags: u8,
}

impl CpuFlag {
    pub fn mask(self) -> (r: u8)
        ensures
            r == flag_mask(self),
    {
        match self {
            CpuFlag::Zero => 0x80,
            CpuFlag::Sub => 0x40,
            CpuFlag::HalfCarry => 0x20,
            CpuFlag::Carry => 0x10,
        }
    }
}

impl Registers {
    /// The low nibble of the flag byte is always zero.
    pub open spec fn wf(&self) -> bool {
        self.flags & 0x0F == 0
    }

    pub open spec fn spec_af(&self) -> u16 {
        pair(self.a, self.flags & 0xF0)
    }

    pub open spec fn spec_bc(&self) -> u16 {
        pair(self.b, self.c)
    }

    pub open spec fn spec_de(&self) -> u16 {
        pair(self.d, self.e)
    }

    pub open spec fn spec_hl(&self) -> u16 {
        pair(self.h, self.l)
    }

    /// Power-on values: all registers zero, execution at 0x100, stack at 0xFFFE.
    pub open spec fn spec_initial() -> Registers {
        Registers { a: 0, b: 0, c: 0, d: 0, e: 0, h: 0, l: 0, pc: 0x100, sp: 0xFFFE, flags: 0 }
    }

    pub fn new() -> (r: Registers)
        ensures
            r == Registers::spec_initial(),
            r.wf(),
    {
        let r = Registers { a: 0, b: 0, c: 0, d: 0, e: 0, h: 0, l: 0, pc: 0x100, sp: 0xFFFE, flags: 0 };
        assert(0u8 & 0x0F == 0) by (bit_vector);
        r
    }

    pub fn get_msb(&self, a: u8, b: u8) -> (r: u16)
        ensures
            r == pair(a, b),
    {
        let r = ((a as u16) << 8) | (b as u16);
        assert(((a as u16) << 8) | (b as u16) == (a as int * 256 + b as int) as u16) by (bit_vector);
        r
    }

    pub fn af(&self) -> (r: u16)
        ensures
            r == self.spec_af(),
    {
        self.get_msb(self.a, self.flags & 0xF0)
    }

    pub fn bc(&self) -> (r: u16)
        ensures
            r == self.spec_bc(),
    {
        self.get_msb(self.b, self.c)
    }

    pub fn de(&self) -> (r: u16)
        ensures
            r == self.spec_de(),
    {
        self.get_msb(self.d, self.e)
    }

    pub fn hl(&self) -> (r: u16)
        ensures
            r == self.spec_hl(),
    {
        self.get_msb(self.h, self.l)
    }

    /// Sets A and the flag byte; the low nibble of the flags is dropped.
    pub fn set_af(&mut self, value: u16)
        ensures
            *final(self) == (Registers {
                a: high_byte(value),
                flags: low_byte(value) & 0xF0,
                ..*old(self)
            }),
            final(self).wf(),
    {
        proof {
            lemma_pair_bytes(value);
            let lo = low_byte(value);
            assert(lo & 0xF0 & 0x0F == 0) by (bit_vector);
        }
        self.a = (value >> 8) as u8;
        self.flags = (value & 0x00F0) as u8;
    }

    pub fn set_bc(&mut self, value: u16)
        ensures
            *final(self) == (Registers { b: high_byte(value), c: low_byte(value), ..*old(self) }),
            final(self).spec_bc() == value,
    {
        proof {
            lemma_pair_bytes(value);
        }
        self.b = (value >> 8) as u8;
        self.c = (value & 0x00FF) as u8;
    }

    pub fn set_de(&mut self, value: u16)
        ensures
            *final(self) == (Registers { d: high_byte(value), e: low_byte(value), ..*old(self) }),
            final(self).spec_de() == value,
    {
        proof {
            lemma_pair_bytes(value);
        }
        self.d = (value >> 8) as u8;
        self.e = (value & 0x00FF) as u8;
    }

    pub fn set_hl(&mut self, value: u16)
        ensures
            *final(self) == (Registers { h: high_byte(value), l: low_byte(value), ..*old(self) }),
            final(self).spec_hl() == value,
    {
        proof {
            lemma_pair_bytes(value);
        }
        self.h = (value >> 8) as u8;
        self.l = (value & 0x00FF) as u8;
    }

    /// Returns HL, then increments it (wrapping).
    pub fn hl_then_inc(&mut self) -> (r: u16)
        ensures
            r == old(self).spec_hl(),
            final(self).spec_hl() == (old(self).spec_hl() as int + 1) % 0x10000,
            *final(self) == (Registers { h: final(self).h, l: final(self).l, ..*old(self) }),
    {
        let res = self.hl();
        self.set_hl(res.wrapping_add(1));
        res
    }

    /// Returns HL, then decrements it (wrapping).
    pub fn hl_then_dec(&mut self) -> (r: u16)
        ensures
            r == old(self).spec_hl(),
            final(self).spec_hl() == (old(self).spec_hl() as int - 1 + 0x10000) % 0x10000,
            *final(self) == (Registers { h: final(self).h, l: final(self).l, ..*old(self) }),
    {
        let res = self.hl();
        self.set_hl(res.wrapping_sub(1));
        res
    }

    /// Sets or clears one flag, leaving the others as they are.
    pub fn set_flag_zero(&mut self, flag: CpuFlag, set: bool)
        requires
            old(self).wf(),
        ensures
            final(self).wf(),
            flag_of(final(self).flags, flag) == set,
            forall|f: CpuFlag| f != flag ==> flag_of(final(self).flags, f) == flag_of(old(self).flags, f),
            *final(self) == (Registers { flags: final(self).flags, ..*old(self) }),
    {
        let mask = flag.mask();
        let f = self.flags;
        if set {
            self.flags = f | mask;
        } else {
            self.flags = f & !mask;
        }
        proof {
            lemma_flag_update(f, mask);
        }
    }

    pub fn has_flag(&self, flag: CpuFlag) -> (r: bool)
        ensures
            r == flag_of(self.flags, flag),
    {
        let mask = flag.mask();
        let r = self.flags & mask != 0;
        r
    }
}

} // verus!
