use vstd::prelude::*;
use crate::cartouches::{CartView, Cartouche, cart_read, cart_write, zeroed};
use crate::joypad::{Joypad, joypad_read};
use crate::lcd::LcdControl;
use crate::ppu::{
    Ppu, PpuState, PpuView, SCREEN_PIXELS, SCREEN_WIDTH, OAM_SIZE, VRAM_SIZE, grey, initial_ppu_state,
    ppu_read, ppu_run, ppu_wf, ppu_write,
};
use crate::timer::{Timer, timer_read, timer_run, timer_write};

verus! {

/// The CPU clock multiplier.
#[derive(Clone, Copy, Debug, PartialEq, Eq, Structural)]
pub enum Vitesse {
    Normal,
    Double,
}

/// The interrupt sources, each with its bit in the latch and mask bytes.
#[derive(Clone, Copy, Debug, PartialEq, Eq, Structural)]
pub enum InterruptFlag {
    VBlank,
    LCDStat,
    Timer,
    Joypad,
}

pub open spec fn interrupt_bit(f: InterruptFlag) -> u8 {
    match f {
        InterruptFlag::VBlank => 0x01,
        InterruptFlag::LCDStat => 0x02,
        InterruptFlag::Timer => 0x04,
        InterruptFlag::Joypad => 0x10,
    }
}

impl InterruptFlag {
    pub fn bit(self) -> (r: u8)
        ensures
            r == interrupt_bit(self),
    {
        match self {
            InterruptFlag::VBlank => 0x01,
            InterruptFlag::LCDStat => 0x02,
            InterruptFlag::Timer => 0x04,
            InterruptFlag::Joypad => 0x10,
            }
    }
}

pub const HRAM_SIZE: usize = 0x7F;

pub const WRAM_SIZE: usize = 0x8000;

pub const WRAM_BANK_SIZE: usize = 0x1000;

/// The number of bytes that a DMA transfer copies.
pub const DMA_LENGTH: u16 = 0xA0;

/// The bus router: owns every peripheral, the working RAM (eight 4K banks, bank 0
/// fixed), the high RAM and the interrupt latch and mask.
pub struct Mmu {
    pub cartouche: Cartouche,
    pub ppu: Ppu,
    pub joypad: Joypad,
    pub timer: Timer,
    pub vitesse: Vitesse,
    pub prepare_vitesse_switch: bool,
    pub hram: Vec<u8>,
    pub wram: Vec<u8>,
    pub wram_bank: u8,
    pub interruptions_asserted: u8,
    pub interruptions_enabled: u8,
}

/// The bus as the contracts see it.
pub struct MmuView {
    pub cart: CartView,
    pub ppu: PpuView,
    pub joypad: Joypad,
    pub timer: Timer,
    pub vitesse: Vitesse,
    pub prepare_vitesse_switch: bool,
    pub hram: Seq<u8>,
    pub wram: Seq<u8>,
    pub wram_bank: u8,
    pub interruptions_asserted: u8,
    pub interruptions_enabled: u8,
}

impl View for Mmu {
    type V = MmuView;

    open spec fn view(&self) -> MmuView {
        MmuView {
            cart: self.cartouche@,
            ppu: self.ppu@,
            joypad: self.joypad,
            timer: self.timer,
            vitesse: self.vitesse,
            prepare_vitesse_switch: self.prepare_vitesse_switch,
            hram: self.hram@,
            wram: self.wram@,
            wram_bank: self.wram_bank,
            interruptions_asserted: self.interruptions_asserted,
            interruptions_enabled: self.interruptions_enabled,
        }
    }
}

pub open spec fn mmu_wf(v: MmuView) -> bool {
    &&& ppu_wf(v.ppu)
    &&& v.hram.len() == HRAM_SIZE
    &&& v.wram.len() == WRAM_SIZE
    &&& 1 <= v.wram_bank <= 7
}

/// The working-RAM index of `addr` in 0xC000..0xFE00 (0xE000 on mirrors 0xC000).
pub open spec fn wram_index(bank: u8, addr: u16) -> int {
    if addr < 0xD000 {
        addr - 0xC000
    } else if addr < 0xE000 {
        addr - 0xD000 + 0x1000 * bank
    } else if addr < 0xF000 {
        addr - 0xE000
    } else {
        addr - 0xF000 + 0x1000 * bank
    }
}

pub open spec fn is_ppu_register(addr: u16) -> bool {
    (0xFF40 <= addr <= 0xFF45) || (0xFF47 <= addr <= 0xFF4B) || addr == 0xFF4F
}

/// The speed register: bit 7 the current speed, bit 0 a staged switch.
pub open spec fn speed_byte(v: MmuView) -> u8 {
    (if v.vitesse == Vitesse::Double { 0x80u8 } else { 0u8 }) | (if v.prepare_vitesse_switch { 1u8 } else { 0u8 })
}

/// What a read at an I/O address returns; unimplemented registers read as zero.
pub open spec fn io_read(v: MmuView, addr: u16) -> u8 {
    if addr == 0xFF00 {
        joypad_read(v.joypad)
    } else if 0xFF04 <= addr <= 0xFF07 {
        timer_read(v.timer, addr)
    } else if addr == 0xFF0F {
        v.interruptions_asserted
    } else if is_ppu_register(addr) {
        ppu_read(v.ppu, addr)
    } else if addr == 0xFF4D {
        speed_byte(v)
    } else {
        0
    }
}

/// What a read at `addr` returns: the routing is total.
#[verifier::opaque]
pub open spec fn mmu_read(v: MmuView, addr: u16) -> u8 {
    if addr < 0x8000 {
        cart_read(v.cart, addr)
    } else if addr < 0xA000 {
        ppu_read(v.ppu, addr)
    } else if addr < 0xC000 {
        cart_read(v.cart, addr)
    } else if addr < 0xFE00 {
        v.wram[wram_index(v.wram_bank, addr)]
    } else if addr < 0xFEA0 {
        ppu_read(v.ppu, addr)
    } else if addr < 0xFF00 {
        0
    } else if addr < 0xFF80 {
        io_read(v, addr)
    } else if addr < 0xFFFF {
        v.hram[addr - 0xFF80]
    } else {
        v.interruptions_enabled
    }
}

/// The working-RAM bank that a write of `value` selects: three bits, zero standing for 1.
pub open spec fn selected_wram_bank(value: u8) -> u8 {
    if value & 0x07 == 0 { 1 } else { value & 0x07 }
}

/// The bus after a write of `value` at an I/O address other than the DMA register.
pub open spec fn io_write(v: MmuView, addr: u16, value: u8) -> MmuView {
    if addr == 0xFF00 {
        MmuView { joypad: Joypad { select: value & 0x30, ..v.joypad }, ..v }
    } else if 0xFF04 <= addr <= 0xFF07 {
        MmuView { timer: timer_write(v.timer, addr, value), ..v }
    } else if addr == 0xFF0F {
        MmuView { interruptions_asserted: value, ..v }
    } else if is_ppu_register(addr) {
        MmuView { ppu: ppu_write(v.ppu, addr, value), ..v }
    } else if addr == 0xFF4D {
        MmuView { prepare_vitesse_switch: value & 0x01 == 0x01, ..v }
    } else if addr == 0xFF70 {
        MmuView { wram_bank: selected_wram_bank(value), ..v }
    } else {
        v
    }
}

/// The bus after a write of `value` at `addr` that is not a DMA request.
pub open spec fn plain_write(v: MmuView, addr: u16, value: u8) -> MmuView {
    if addr < 0x8000 {
        MmuView { cart: cart_write(v.cart, addr, value), ..v }
    } else if addr < 0xA000 {
        MmuView { ppu: ppu_write(v.ppu, addr, value), ..v }
    } else if addr < 0xC000 {
        MmuView { cart: cart_write(v.cart, addr, value), ..v }
    } else if addr < 0xFE00 {
        MmuView { wram: v.wram.update(wram_index(v.wram_bank, addr), value), ..v }
    } else if addr < 0xFEA0 {
        MmuView { ppu: ppu_write(v.ppu, addr, value), ..v }
    } else if addr < 0xFF00 {
        v
    } else if addr < 0xFF80 {
        io_write(v, addr, value)
    } else if addr < 0xFFFF {
        MmuView { hram: v.hram.update(addr - 0xFF80, value), ..v }
    } else {
        MmuView { interruptions_enabled: value, ..v }
    }
}

/// The bus after the first `n` bytes of a DMA transfer from `base`: each byte is read
/// and written through the bus.
pub open spec fn dma(v: MmuView, base: u16, n: nat) -> MmuView
    decreases n,
{
    if n == 0 {
        v
    } else {
        let w = dma(v, base, (n - 1) as nat);
        let i = (n - 1) as int;
        plain_write(w, (0xFE00 + i) as u16, mmu_read(w, (base + i) as u16))
    }
}

/// The bus after a write of `value` at `addr`: a write to the DMA register copies 160
/// bytes from page `value` into the object table.
#[verifier::opaque]
pub open spec fn mmu_write(v: MmuView, addr: u16, value: u8) -> MmuView {
    if addr == 0xFF46 {
        dma(v, (value as int * 256) as u16, DMA_LENGTH as nat)
    } else {
        plain_write(v, addr, value)
    }
}

/// The bus after `cycles` CPU cycles: the timer sees every cycle, the display the
/// cycles divided by the speed multiplier; the interrupt bits that they and the
/// joypad raised move into the latch.
pub open spec fn mmu_run(v: MmuView, cycles: u32) -> MmuView {
    let t = timer_run(v.timer, cycles as nat);
    let p = ppu_run(v.ppu, ppu_cycles(v, cycles) as nat);
    MmuView {
        timer: Timer { interrupt: 0, ..t },
        joypad: Joypad { interrupt: 0, ..v.joypad },
        ppu: PpuView { state: PpuState { interrupt: 0, ..p.state }, ..p },
        interruptions_asserted: v.interruptions_asserted | t.interrupt | v.joypad.interrupt | p.state.interrupt,
        ..v
    }
}

/// The display cycles that `cycles` CPU cycles make at the current speed.
pub open spec fn ppu_cycles(v: MmuView, cycles: u32) -> u32 {
    if v.vitesse == Vitesse::Double { cycles / 2 } else { cycles }
}

/// The bus after the driver triggers a staged speed switch.
pub open spec fn speed_switched(v: MmuView) -> MmuView {
    MmuView {
        vitesse: if v.prepare_vitesse_switch {
            if v.vitesse == Vitesse::Double { Vitesse::Normal } else { Vitesse::Double }
        } else {
            v.vitesse
        },
        prepare_vitesse_switch: false,
        ..v
    }
}

/// The bus at power-on around cartridge `cart`: display on with its documented
/// palettes, everything else zeroed, working-RAM bank 1.
pub open spec fn initial_mmu(cart: CartView) -> MmuView {
    MmuView {
        cart,
        ppu: PpuView {
            data: Seq::new(SCREEN_PIXELS as nat, |i: int| grey(0xFF)),
            vram: Seq::new(VRAM_SIZE as nat, |i: int| 0u8),
            oam: Seq::new(OAM_SIZE as nat, |i: int| 0u8),
            priorities: Seq::new(SCREEN_WIDTH as nat, |i: int| (true, 0u8)),
            state: PpuState {
                lcd_control: LcdControl { data: 0x91 },
                bg_palette: 0xFC,
                object_pallete_0: 0xFF,
                object_pallete_1: 0xFF,
                ..initial_ppu_state()
            },
        },
        joypad: Joypad { matrix: 0xFF, select: 0, interrupt: 0 },
        timer: Timer { div_counter: 0, tima: 0, tma: 0, tac: 0, interrupt: 0 },
        vitesse: Vitesse::Normal,
        prepare_vitesse_switch: false,
        hram: Seq::new(HRAM_SIZE as nat, |i: int| 0u8),
        wram: Seq::new(WRAM_SIZE as nat, |i: int| 0u8),
        wram_bank: 1,
        interruptions_asserted: 0,
        interruptions_enabled: 0,
    }
}

impl Mmu {
    pub fn new(cartouche: Cartouche) -> (r: Mmu)
        ensures
            r@ == initial_mmu(cartouche@),
            mmu_wf(r@),
    {
        let mut ppu = Ppu::new();
        ppu.state.lcd_control.data = 0x91;
        ppu.state.bg_palette = 0xFC;
        ppu.state.object_pallete_0 = 0xFF;
        ppu.state.object_pallete_1 = 0xFF;
        Mmu {
            cartouche,
            ppu,
            joypad: Joypad::new(),
            timer: Timer::new(),
            vitesse: Vitesse::Normal,
            prepare_vitesse_switch: false,
            hram: zeroed(HRAM_SIZE),
            wram: zeroed(WRAM_SIZE),
            wram_bank: 1,
            interruptions_asserted: 0,
            interruptions_enabled: 0,
        }
    }

    /// Flips the speed if a switch was staged, and clears the staged request.
    pub fn perform_vitesse_switch(&mut self)
        ensures
            final(self)@ == speed_switched(old(self)@),
    {
        if self.prepare_vitesse_switch {
            self.vitesse = if self.vitesse == Vitesse::Double { Vitesse::Normal } else { Vitesse::Double };
        }
        self.prepare_vitesse_switch = false;
    }

    /// Advances the peripherals by `cycles` CPU cycles and gathers their interrupt bits;
    /// returns the display cycles.
    pub fn run_cycles(&mut self, cycles: u32) -> (r: u32)
        requires
            mmu_wf(old(self)@),
        ensures
            r == ppu_cycles(old(self)@, cycles),
            final(self)@ == mmu_run(old(self)@, cycles),
            mmu_wf(final(self)@),
    {
        let ppu_cycles = if self.vitesse == Vitesse::Double { cycles / 2 } else { cycles };
        self.timer.run_cycles(cycles);
        self.interruptions_asserted = self.interruptions_asserted | self.timer.interrupt;
        self.timer.interrupt = 0;
        self.interruptions_asserted = self.interruptions_asserted | self.joypad.interrupt;
        self.joypad.interrupt = 0;
        self.ppu.run_cycles(ppu_cycles);
        self.interruptions_asserted = self.interruptions_asserted | self.ppu.state.interrupt;
        self.ppu.state.interrupt = 0;
        ppu_cycles
    }

    fn wram_offset(&self, addr: u16) -> (r: usize)
        requires
            0xC000 <= addr < 0xFE00,
            1 <= self.wram_bank <= 7,
        ensures
            r as int == wram_index(self.wram_bank, addr),
            r < WRAM_SIZE,
    {
        let bank = self.wram_bank as usize;
        if addr < 0xD000 {
            (addr - 0xC000) as usize
        } else if addr < 0xE000 {
            (addr - 0xD000) as usize + WRAM_BANK_SIZE * bank
        } else if addr < 0xF000 {
            (addr - 0xE000) as usize
        } else {
            (addr - 0xF000) as usize + WRAM_BANK_SIZE * bank
        }
    }

    fn io_get(&self, addr: u16) -> (r: u8)
        requires
            mmu_wf(self@),
        ensures
            r == io_read(self@, addr),
    {
        if addr == 0xFF00 {
            self.joypad.get_octet()
        } else if 0xFF04 <= addr && addr <= 0xFF07 {
            self.timer.get_octet(addr)
        } else if addr == 0xFF0F {
            self.interruptions_asserted
        } else if (0xFF40 <= addr && addr <= 0xFF45) || (0xFF47 <= addr && addr <= 0xFF4B) || addr == 0xFF4F {
            self.ppu.get_octet(addr)
        } else if addr == 0xFF4D {
            (if self.vitesse == Vitesse::Double { 0x80u8 } else { 0u8 }) | (if self.prepare_vitesse_switch {
                1u8
            } else {
                0u8
            })
        } else {
            0
        }
    }

    /// Reads the byte at `addr`, routed to its owner.
    pub fn get_octet(&self, addr: u16) -> (r: u8)
        requires
            mmu_wf(self@),
        ensures
            r == mmu_read(self@, addr),
    {
        reveal(mmu_read);
        if addr < 0x8000 {
            self.cartouche.get_octet(addr)
        } else if addr < 0xA000 {
            self.ppu.get_octet(addr)
        } else if addr < 0xC000 {
            self.cartouche.get_octet(addr)
        } else if addr < 0xFE00 {
            self.wram[self.wram_offset(addr)]
        } else if addr < 0xFEA0 {
            self.ppu.get_octet(addr)
        } else if addr < 0xFF00 {
            0
        } else if addr < 0xFF80 {
            self.io_get(addr)
        } else if addr < 0xFFFF {
            self.hram[(addr - 0xFF80) as usize]
        } else {
            self.interruptions_enabled
        }
    }

    fn io_set(&mut self, addr: u16, value: u8)
        requires
            mmu_wf(old(self)@),
            0xFF00 <= addr < 0xFF80,
            addr != 0xFF46,
        ensures
            final(self)@ == io_write(old(self)@, addr, value),
            mmu_wf(final(self)@),
    {
        if addr == 0xFF00 {
            self.joypad.set_octet(value);
        } else if 0xFF04 <= addr && addr <= 0xFF07 {
            self.timer.set_octet(addr, value);
        } else if addr == 0xFF0F {
            self.interruptions_asserted = value;
        } else if (0xFF40 <= addr && addr <= 0xFF45) || (0xFF47 <= addr && addr <= 0xFF4B) || addr == 0xFF4F {
            self.ppu.set_octet(addr, value);
        } else if addr == 0xFF4D {
            self.prepare_vitesse_switch = (value & 0x01) == 0x01;
        } else if addr == 0xFF70 {
            let b = value & 0x07;
            assert(value & 0x07 <= 7) by (bit_vector);
            self.wram_bank = if b == 0 { 1 } else { b };
        }
    }

    fn write_plain(&mut self, addr: u16, value: u8)
        requires
            mmu_wf(old(self)@),
            addr != 0xFF46,
        ensures
            final(self)@ == plain_write(old(self)@, addr, value),
            mmu_wf(final(self)@),
    {
        if addr < 0x8000 {
            self.cartouche.set_octet(addr, value);
        } else if addr < 0xA000 {
            self.ppu.set_octet(addr, value);
        } else if addr < 0xC000 {
            self.cartouche.set_octet(addr, value);
        } else if addr < 0xFE00 {
            let i = self.wram_offset(addr);
            self.wram.set(i, value);
        } else if addr < 0xFEA0 {
            self.ppu.set_octet(addr, value);
        } else if addr < 0xFF00 {
        } else if addr < 0xFF80 {
            self.io_set(addr, value);
        } else if addr < 0xFFFF {
            self.hram.set((addr - 0xFF80) as usize, value);
        } else {
            self.interruptions_enabled = value;
        }
    }

    /// Copies 160 bytes from page `value` into the object table through the bus.
    fn dma_transfer(&mut self, value: u8)
        requires
            mmu_wf(old(self)@),
        ensures
            final(self)@ == dma(old(self)@, (value as int * 256) as u16, DMA_LENGTH as nat),
            mmu_wf(final(self)@),
    {
        let base: u16 = (value as u16) * 256;
        let ghost start = self@;
        let mut i: u16 = 0;
        while i < DMA_LENGTH
            invariant
                i <= DMA_LENGTH,
                base as int == value as int * 256,
                mmu_wf(self@),
                self@ == dma(start, base, i as nat),
            decreases DMA_LENGTH - i,
        {
            let b = self.get_octet(base + i);
            self.write_plain(0xFE00 + i, b);
            i = i + 1;
        }
    }

    /// Writes `value` at `addr`, routed to its owner.
    pub fn set_octet(&mut self, addr: u16, value: u8)
        requires
            mmu_wf(old(self)@),
        ensures
            final(self)@ == mmu_write(old(self)@, addr, value),
            mmu_wf(final(self)@),
    {
        reveal(mmu_write);
        if addr == 0xFF46 {
            self.dma_transfer(value);
        } else {
            self.write_plain(addr, value);
        }
    }
}

} // verus!
