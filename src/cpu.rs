use vstd::prelude::*;
use crate::mmu::{Mmu, MmuView, mmu_read, mmu_wf, mmu_write};
use crate::op_codes::execute_spec;
use crate::registres::{Registers, high_byte, low_byte, pair};

verus! {

/// A fatal decode error: the reserved opcode and the address it was fetched from.
#[derive(Clone, Copy, Debug, PartialEq, Eq, Structural)]
pub enum CpuError {
    InvalidOpcode { opcode: u8, pc: u16 },
}

/// The CPU engine: registers, the bus it owns, and its halt, stop and
/// interrupt-master-enable states.
pub struct Cpu {
    pub registres: Registers,
    pub memoire: Mmu,
    pub halted: bool,
    pub stopped: bool,
    pub ei: bool,
}

/// The CPU as the contracts see it.
pub struct CpuView {
    pub regs: Registers,
    pub mem: MmuView,
    pub halted: bool,
    pub stopped: bool,
    pub ei: bool,
}

impl View for Cpu {
    type V = CpuView;

    open spec fn view(&self) -> CpuView {
        CpuView {
            regs: self.registres,
            mem: self.memoire@,
            halted: self.halted,
            stopped: self.stopped,
            ei: self.ei,
        }
    }
}

pub open spec fn cpu_wf(v: CpuView) -> bool {
    mmu_wf(v.mem) && v.regs.wf()
}

pub open spec fn wrap16(x: int) -> u16 {
    (x % 0x10000) as u16
}

/// The little-endian word at `addr`.
pub open spec fn read_word(m: MmuView, addr: u16) -> u16 {
    pair(mmu_read(m, wrap16(addr + 1)), mmu_read(m, addr))
}

/// The bus after a little-endian word write at `addr`: low byte first.
pub open spec fn write_word(m: MmuView, addr: u16, value: u16) -> MmuView {
    mmu_write(mmu_write(m, addr, low_byte(value)), wrap16(addr + 1), high_byte(value))
}

/// The CPU with HL replaced.
pub open spec fn with_hl(v: CpuView, x: u16) -> CpuView {
    CpuView { regs: Registers { h: high_byte(x), l: low_byte(x), ..v.regs }, ..v }
}

/// The CPU with the program counter replaced.
pub open spec fn with_pc(v: CpuView, pc: u16) -> CpuView {
    CpuView { regs: Registers { pc, ..v.regs }, ..v }
}

/// The CPU with its program counter moved on by `n`.
pub open spec fn adv_pc(v: CpuView, n: int) -> CpuView {
    CpuView { regs: Registers { pc: wrap16(v.regs.pc + n), ..v.regs }, ..v }
}

/// The byte after the program counter.
pub open spec fn imm8(v: CpuView) -> u8 {
    mmu_read(v.mem, v.regs.pc)
}

/// The word after the program counter.
pub open spec fn imm16(v: CpuView) -> u16 {
    read_word(v.mem, v.regs.pc)
}

/// The CPU after pushing `value`: the stack pointer drops by 2, then the word is stored there.
pub open spec fn push_spec(v: CpuView, value: u16) -> CpuView {
    let sp = wrap16(v.regs.sp - 2);
    CpuView { regs: Registers { sp, ..v.regs }, mem: write_word(v.mem, sp, value), ..v }
}

/// The word that a pop returns.
pub open spec fn pop_value(v: CpuView) -> u16 {
    read_word(v.mem, v.regs.sp)
}

/// The CPU after a pop: the stack pointer rises by 2.
pub open spec fn pop_spec(v: CpuView) -> CpuView {
    CpuView { regs: Registers { sp: wrap16(v.regs.sp + 2), ..v.regs }, ..v }
}

/// The index of the lowest set bit of `x` from bit `i` up, or 8 when there is none.
pub open spec fn lowest_from(x: u8, i: u8) -> u8
    decreases 8 - i,
{
    if i >= 8 {
        8
    } else if (x >> i) & 1 == 1 {
        i
    } else {
        lowest_from(x, (i + 1) as u8)
    }
}

/// The interrupts that are both requested and enabled.
pub open spec fn pending(v: CpuView) -> u8 {
    v.mem.interruptions_asserted & v.mem.interruptions_enabled
}

/// The CPU after servicing the pending interrupt of lowest bit `n`: its latch bit cleared,
/// interrupts disabled, the program counter pushed and set to the interrupt's vector.
pub open spec fn service_spec(v: CpuView, n: u8) -> CpuView {
    let cleared = CpuView {
        mem: MmuView { interruptions_asserted: v.mem.interruptions_asserted & !(1u8 << n), ..v.mem },
        ei: false,
        halted: false,
        ..v
    };
    let pushed = push_spec(cleared, v.regs.pc);
    CpuView { regs: Registers { pc: (0x40 + 8 * n) as u16, ..pushed.regs }, ..pushed }
}

/// What interrupt dispatch does: nothing unless halted or enabled with one pending;
/// a halted CPU with interrupts disabled only wakes; otherwise the lowest pending
/// interrupt is serviced.
pub open spec fn interrupt_spec(v: CpuView) -> (CpuView, u32) {
    if (!v.halted && !v.ei) || pending(v) == 0 {
        (v, 0)
    } else if !v.ei {
        (CpuView { halted: false, ..v }, 0)
    } else {
        (service_spec(v, lowest_from(pending(v), 0)), 4)
    }
}

proof fn lemma_lowest_bit_exists(x: u8)
    requires
        x != 0,
    ensures
        lowest_from(x, 0) < 8,
{
    reveal_with_fuel(lowest_from, 9);
    assert(x != 0 ==> (x >> 0u8) & 1 == 1 || (x >> 1u8) & 1 == 1 || (x >> 2u8) & 1 == 1 || (x >> 3u8) & 1 == 1
        || (x >> 4u8) & 1 == 1 || (x >> 5u8) & 1 == 1 || (x >> 6u8) & 1 == 1 || (x >> 7u8) & 1 == 1)
        by (bit_vector);
}

proof fn lemma_lowest_step(x: u8, i: u8)
    requires
        i < 8,
        (x >> i) & 1 != 1,
    ensures
        lowest_from(x, i) == lowest_from(x, (i + 1) as u8),
{
}

/// The interrupt that dispatch services is the lowest-numbered one that is both
/// requested and enabled: its bit is set, every lower bit is clear, and its vector
/// is 0x40 plus 8 times its bit index.
pub proof fn lemma_interrupt_priority(v: CpuView)
    requires
        v.ei,
        pending(v) != 0,
    ensures
        ({
            let n = lowest_from(pending(v), 0);
            &&& n < 8
            &&& (pending(v) >> n) & 1 == 1
            &&& forall|j: u8| j < n ==> (pending(v) >> j) & 1 == 0
            &&& interrupt_spec(v).0.regs.pc == 0x40 + 8 * n
            &&& interrupt_spec(v).1 == 4
        }),
{
    let x = pending(v);
    lemma_lowest_bit_exists(x);
    lemma_lowest_prefix(x, 0);
}

proof fn lemma_lowest_prefix(x: u8, i: u8)
    requires
        i <= 8,
        lowest_from(x, i) < 8,
    ensures
        i <= lowest_from(x, i),
        (x >> lowest_from(x, i)) & 1 == 1,
        forall|j: u8| i <= j < lowest_from(x, i) ==> (x >> j) & 1 == 0,
    decreases 8 - i,
{
    if i < 8 && (x >> i) & 1 != 1 {
        lemma_lowest_prefix(x, (i + 1) as u8);
        assert((x >> i) & 1 != 1 ==> (x >> i) & 1 == 0) by (bit_vector);
    }
}

/// Whether `addr` is plain RAM: working RAM, its mirror, or high RAM.
pub open spec fn is_ram(addr: u16) -> bool {
    (0xC000 <= addr < 0xFE00) || (0xFF80 <= addr < 0xFFFF)
}

/// Pushing a word and popping it back returns the word and restores the stack
/// pointer, when the two stack bytes lie in RAM.
pub proof fn lemma_push_pop(v: CpuView, value: u16)
    requires
        cpu_wf(v),
        is_ram(wrap16(v.regs.sp - 2)),
        is_ram(wrap16(v.regs.sp - 1)),
    ensures
        pop_value(push_spec(v, value)) == value,
        pop_spec(push_spec(v, value)).regs.sp == v.regs.sp,
{
    reveal(mmu_read);
    reveal(mmu_write);
    let sp = wrap16(v.regs.sp - 2);
    assert(wrap16(sp + 1) == wrap16(v.regs.sp - 1));
    assert(wrap16(sp + 2) == v.regs.sp);
    crate::registres::lemma_pair_of_bytes(value);
}

impl Cpu {
    /// Power-on registers over bus `memoire`, running, interrupts disabled.
    pub fn new(memoire: Mmu) -> (r: Cpu)
        requires
            mmu_wf(memoire@),
        ensures
            cpu_wf(r@),
            r@.mem == memoire@,
            r.registres == Registers::spec_initial(),
            !r.halted && !r.stopped && !r.ei,
    {
        let registres = Registers::new();
        Cpu { registres, memoire, halted: false, stopped: false, ei: false }
    }

    /// The byte at the program counter; the counter moves on by one.
    pub fn get_octet_at_pc(&mut self) -> (r: u8)
        requires
            cpu_wf(old(self)@),
        ensures
            r == imm8(old(self)@),
            final(self)@ == adv_pc(old(self)@, 1),
            cpu_wf(final(self)@),
    {
        let value = self.memoire.get_octet(self.registres.pc);
        self.registres.pc = self.registres.pc.wrapping_add(1);
        value
    }

    /// The word at the program counter; the counter moves on by two.
    pub fn get_mot_at_pc(&mut self) -> (r: u16)
        requires
            cpu_wf(old(self)@),
        ensures
            r == imm16(old(self)@),
            final(self)@ == adv_pc(old(self)@, 2),
            cpu_wf(final(self)@),
    {
        let value = self.get_mot_in_memoire(self.registres.pc);
        self.registres.pc = self.registres.pc.wrapping_add(2);
        value
    }

    pub fn get_octet_in_memoire(&self, addr: u16) -> (r: u8)
        requires
            cpu_wf(self@),
        ensures
            r == mmu_read(self@.mem, addr),
    {
        self.memoire.get_octet(addr)
    }

    pub fn get_mot_in_memoire(&self, addr: u16) -> (r: u16)
        requires
            cpu_wf(self@),
        ensures
            r == read_word(self@.mem, addr),
    {
        let lo = self.memoire.get_octet(addr);
        let hi = self.memoire.get_octet(addr.wrapping_add(1));
        self.registres.get_msb(hi, lo)
    }

    pub fn set_octet_in_memoire(&mut self, addr: u16, value: u8)
        requires
            cpu_wf(old(self)@),
        ensures
            final(self)@ == (CpuView { mem: mmu_write(old(self)@.mem, addr, value), ..old(self)@ }),
            cpu_wf(final(self)@),
    {
        self.memoire.set_octet(addr, value);
    }

    pub fn set_mot_in_memoire(&mut self, addr: u16, value: u16)
        requires
            cpu_wf(old(self)@),
        ensures
            final(self)@ == (CpuView { mem: write_word(old(self)@.mem, addr, value), ..old(self)@ }),
            cpu_wf(final(self)@),
    {
        let lo = (value % 256) as u8;
        let hi = (value / 256) as u8;
        self.memoire.set_octet(addr, lo);
        self.memoire.set_octet(addr.wrapping_add(1), hi);
    }

    /// Pushes a word: the stack pointer drops by 2, then the word is stored little-endian.
    pub fn add_to_stack(&mut self, value: u16)
        requires
            cpu_wf(old(self)@),
        ensures
            final(self)@ == push_spec(old(self)@, value),
            cpu_wf(final(self)@),
    {
        self.registres.sp = self.registres.sp.wrapping_sub(2);
        self.set_mot_in_memoire(self.registres.sp, value);
    }

    /// Pops a word: read at the stack pointer, which then rises by 2.
    pub fn pop_stack(&mut self) -> (r: u16)
        requires
            cpu_wf(old(self)@),
        ensures
            r == pop_value(old(self)@),
            final(self)@ == pop_spec(old(self)@),
            cpu_wf(final(self)@),
    {
        let result = self.get_mot_in_memoire(self.registres.sp);
        self.registres.sp = self.registres.sp.wrapping_add(2);
        result
    }

    /// Interrupt dispatch; returns the cycles it took (zero when nothing was serviced).
    pub fn gerer_interruptions(&mut self) -> (r: u32)
        requires
            cpu_wf(old(self)@),
        ensures
            (final(self)@, r) == interrupt_spec(old(self)@),
            cpu_wf(final(self)@),
    {
        if !self.halted && !self.ei {
            return 0;
        }
        let p = self.memoire.interruptions_asserted & self.memoire.interruptions_enabled;
        if p == 0 {
            return 0;
        }
        self.halted = false;
        if !self.ei {
            return 0;
        }
        self.ei = false;
        proof {
            lemma_lowest_bit_exists(p);
        }
        let mut n: u8 = 0;
        while n < 8 && (p >> n) & 1 != 1
            invariant
                n <= 8,
                lowest_from(p, n) == lowest_from(p, 0),
                lowest_from(p, 0) < 8,
            decreases 8 - n,
        {
            proof {
                lemma_lowest_step(p, n);
            }
            n = n + 1;
        }
        assert(n == lowest_from(p, 0));
        self.memoire.interruptions_asserted = self.memoire.interruptions_asserted & !(1u8 << n);
        let pc = self.registres.pc;
        self.add_to_stack(pc);
        self.registres.pc = 0x40 + 8 * (n as u16);
        4
    }
}

/// One step of the CPU: service an interrupt if one is due; else, halted, idle for one
/// machine cycle; else fetch, decode and execute one opcode. Cycles are clock cycles
/// (four per machine cycle), but for an interrupt service, which counts 4.
pub open spec fn run_spec(v: CpuView) -> (CpuView, Result<u32, CpuError>) {
    let (w, n) = interrupt_spec(v);
    if n != 0 {
        (w, Ok(n))
    } else if w.halted {
        (w, Ok(4))
    } else {
        let e = execute_spec(adv_pc(w, 1), imm8(w));
        (e.0, match e.1 {
            Ok(c) => Ok((c * 4) as u32),
            Err(err) => Err(err),
        })
    }
}

/// Clock cycles in one pacing quantum of 16 ms at 4,194,304 Hz.
pub const STEP_CYCLES: u32 = 67108;

/// Length of one pacing quantum in milliseconds.
pub const STEP_TIME: u32 = 16;


/// The CPU with the cycle accounting that the driver paces by: once more than a quantum
/// of cycles has run, a quantum is taken off and `step_flip` is raised; the driver sleeps
/// out the rest of the quantum and polls input when it sees the flag.
pub struct RealTimeCpu {
    pub cpu: Cpu,
    pub step_cycles: u32,
    pub step_flip: bool,
}

impl RealTimeCpu {
    pub open spec fn wf(&self) -> bool {
        cpu_wf(self.cpu@) && self.step_cycles <= STEP_CYCLES + 24
    }

    pub fn new(memoire: Mmu) -> (r: RealTimeCpu)
        requires
            mmu_wf(memoire@),
        ensures
            r.cpu@.mem == memoire@,
            r.cpu.registres == Registers::spec_initial(),
            !r.cpu.halted && !r.cpu.stopped && !r.cpu.ei,
            r.step_cycles == 0,
            !r.step_flip,
            r.wf(),
    {
        proof {
            assert(0u8 & 0x0F == 0) by (bit_vector);
        }
        RealTimeCpu { cpu: Cpu::new(memoire), step_cycles: 0, step_flip: false }
    }

    /// One CPU step with its cycles counted toward the current quantum.
    pub fn run(&mut self) -> (r: Result<u32, CpuError>)
        requires
            old(self).wf(),
        ensures
            final(self).wf(),
            (final(self).cpu@, r) == run_spec(old(self).cpu@),
            ({
                let due = old(self).step_cycles > STEP_CYCLES;
                let base = if due { old(self).step_cycles - STEP_CYCLES } else { old(self).step_cycles as int };
                &&& final(self).step_flip == (due || old(self).step_flip)
                &&& final(self).step_cycles == match r {
                    Ok(c) => base + c,
                    Err(_) => base,
                }
            }),
    {
        if self.step_cycles > STEP_CYCLES {
            self.step_flip = true;
            self.step_cycles = self.step_cycles - STEP_CYCLES;
        }
        let r = self.cpu.run();
        match r {
            Ok(c) => {
                self.step_cycles = self.step_cycles + c;
            },
            Err(_) => {},
        }
        r
    }

    /// Whether a quantum ended since the last call; clears the flag.
    pub fn flip(&mut self) -> (r: bool)
        ensures
            r == old(self).step_flip,
            !final(self).step_flip,
            final(self).cpu@ == old(self).cpu@,
            final(self).step_cycles == old(self).step_cycles,
    {
        let step_flip = self.step_flip;
        self.step_flip = false;
        step_flip
    }
}

impl Cpu {
    /// One step; returns the clock cycles it took, or the decode error.
    pub fn run(&mut self) -> (r: Result<u32, CpuError>)
        requires
            cpu_wf(old(self)@),
        ensures
            (final(self)@, r) == run_spec(old(self)@),
            r is Ok ==> r->Ok_0 <= 24,
            cpu_wf(final(self)@),
    {
        let n = self.gerer_interruptions();
        if n != 0 {
            return Ok(n);
        }
        if self.halted {
            return Ok(4);
        }
        let op = self.get_octet_at_pc();
        match self.execute(op) {
            Ok(c) => Ok(c * 4),
            Err(e) => Err(e),
        }
    }
}

} // verus!
