use vstd::prelude::*;

pub mod cartouches;
pub mod cb_codes;
pub mod cpu;
pub mod instructions;
pub mod joypad;
pub mod lcd;
pub mod mmu;
pub mod op_codes;
pub mod ppu;
pub mod registres;
pub mod timer;

use crate::cartouches::CartridgeError;
use crate::cpu::{CpuError, CpuView, RealTimeCpu, run_spec};
use crate::joypad::{Joypad, JoypadKey, JOYPAD_INTERRUPT, key_mask};
use crate::mmu::{Mmu, MmuView, initial_mmu, mmu_read, mmu_run, speed_switched};
use crate::ppu::{Pixel, PpuState, PpuView, SCREEN_HEIGHT, SCREEN_PIXELS, SCREEN_WIDTH};
use crate::registres::Registers;

verus! {

/// The eight buttons that the driver reports.
#[derive(Clone, Copy, Debug, PartialEq, Eq, Structural)]
pub enum GameboyButton {
    Right,
    Left,
    Up,
    Down,
    A,
    B,
    Select,
    Start,
}

pub open spec fn key_of(b: GameboyButton) -> JoypadKey {
    match b {
        GameboyButton::Right => JoypadKey::Right,
        GameboyButton::Left => JoypadKey::Left,
        GameboyButton::Up => JoypadKey::Up,
        GameboyButton::Down => JoypadKey::Down,
        GameboyButton::A => JoypadKey::A,
        GameboyButton::B => JoypadKey::B,
        GameboyButton::Select => JoypadKey::Select,
        GameboyButton::Start => JoypadKey::Start,
    }
}

impl GameboyButton {
    /// The key of the button matrix that this button drives.
    pub fn key(self) -> (r: JoypadKey)
        ensures
            r == key_of(self),
    {
        match self {
            GameboyButton::Right => JoypadKey::Right,
            GameboyButton::Left => JoypadKey::Left,
            GameboyButton::Up => JoypadKey::Up,
            GameboyButton::Down => JoypadKey::Down,
            GameboyButton::A => JoypadKey::A,
            GameboyButton::B => JoypadKey::B,
            GameboyButton::Select => JoypadKey::Select,
            GameboyButton::Start => JoypadKey::Start,
        }
    }
}

/// The whole machine: the CPU, which owns the bus and every peripheral, with its
/// pacing accounts.
pub struct Gameboy {
    pub cpu: RealTimeCpu,
}

/// The bus after the driver has looked at the opcode about to run: a STOP opcode
/// triggers a staged speed switch.
pub open spec fn before_step(v: CpuView) -> CpuView {
    if mmu_read(v.mem, v.regs.pc) == 0x10 {
        CpuView { mem: speed_switched(v.mem), ..v }
    } else {
        v
    }
}

impl Gameboy {
    pub open spec fn wf(&self) -> bool {
        self.cpu.wf()
    }

    /// The machine at power-on with cartridge image `rom`, or the load error that the
    /// cartridge header gives.
    pub fn new(rom: Vec<u8>) -> (r: Result<Gameboy, CartridgeError>)
        ensures
            match r {
                Ok(g) => {
                    &&& g.wf()
                    &&& g.cpu.cpu.registres == Registers::spec_initial()
                    &&& !g.cpu.cpu.halted && !g.cpu.cpu.stopped && !g.cpu.cpu.ei
                    &&& g.cpu.step_cycles == 0 && !g.cpu.step_flip
                    &&& g.cpu.cpu@.mem == initial_mmu(cartouches::loaded_cart(rom@))
                },
                Err(e) => cartouches::new_spec_error(rom@, e),
            },
            r is Ok <==> !(exists|e: CartridgeError| cartouches::new_spec_error(rom@, e)),
    {
        match cartouches::new(rom) {
            Ok(cartouche) => {
                let mmu = Mmu::new(cartouche);
                let cpu = RealTimeCpu::new(mmu);
                Ok(Gameboy { cpu })
            },
            Err(e) => Err(e),
        }
    }

    /// Runs one CPU step and advances the peripherals by its cycles; returns the cycles,
    /// or the decode error (the peripherals then do not advance).
    pub fn step(&mut self) -> (r: Result<u32, CpuError>)
        requires
            old(self).wf(),
        ensures
            final(self).wf(),
            ({
                let e = run_spec(before_step(old(self).cpu.cpu@));
                match e.1 {
                    Ok(c) => r == Ok::<u32, CpuError>(c) && final(self).cpu.cpu@ == (CpuView {
                        mem: mmu_run(e.0.mem, c),
                        ..e.0
                    }),
                    Err(err) => r == Err::<u32, CpuError>(err) && final(self).cpu.cpu@ == e.0,
                }
            }),
    {
        let pc = self.cpu.cpu.registres.pc;
        if self.cpu.cpu.memoire.get_octet(pc) == 0x10 {
            self.cpu.cpu.memoire.perform_vitesse_switch();
        }
        match self.cpu.run() {
            Ok(cycles) => {
                self.cpu.cpu.memoire.run_cycles(cycles);
                Ok(cycles)
            },
            Err(e) => Err(e),
        }
    }

    /// Whether a frame is ready since the last call; clears the signal.
    pub fn has_screen_updated(&mut self) -> (r: bool)
        requires
            old(self).wf(),
        ensures
            final(self).wf(),
            r == old(self).cpu.cpu.memoire.ppu.state.vblank,
            final(self).cpu.cpu@ == (CpuView {
                mem: MmuView {
                    ppu: PpuView {
                        state: PpuState { vblank: false, ..old(self).cpu.cpu@.mem.ppu.state },
                        ..old(self).cpu.cpu@.mem.ppu
                    },
                    ..old(self).cpu.cpu@.mem
                },
                ..old(self).cpu.cpu@
            }),
    {
        let result = self.cpu.cpu.memoire.ppu.state.vblank;
        self.cpu.cpu.memoire.ppu.state.vblank = false;
        result
    }

    /// Width and height of the screen in pixels.
    pub fn get_screen_dimension(&self) -> (r: [usize; 2])
        ensures
            r@ == seq![SCREEN_WIDTH, SCREEN_HEIGHT],
    {
        let r = [SCREEN_WIDTH, SCREEN_HEIGHT];
        assert(r@ =~= seq![SCREEN_WIDTH, SCREEN_HEIGHT]);
        r
    }

    /// A copy of the pixel buffer, row by row.
    pub fn get_screen_data(&self) -> (r: Vec<Pixel>)
        requires
            self.wf(),
        ensures
            r@ == self.cpu.cpu.memoire.ppu.data@,
    {
        let data = &self.cpu.cpu.memoire.ppu.data;
        let mut out: Vec<Pixel> = Vec::with_capacity(SCREEN_PIXELS);
        let mut i: usize = 0;
        while i < data.len()
            invariant
                i <= data@.len(),
                out@ == data@.subrange(0, i as int),
            decreases data@.len() - i,
        {
            out.push(data[i]);
            i = i + 1;
            assert(out@ =~= data@.subrange(0, i as int));
        }
        assert(out@ =~= data@);
        out
    }

    /// Whether the driver should pace and poll input now: true once per quantum.
    pub fn can_take_input(&mut self) -> (r: bool)
        requires
            old(self).wf(),
        ensures
            final(self).wf(),
            r == old(self).cpu.step_flip,
            !final(self).cpu.step_flip,
            final(self).cpu.cpu@ == old(self).cpu.cpu@,
    {
        self.cpu.flip()
    }

    pub fn gerer_keyup(&mut self, button: GameboyButton)
        requires
            old(self).wf(),
        ensures
            final(self).wf(),
            final(self).cpu.cpu@ == (CpuView {
                mem: MmuView {
                    joypad: Joypad {
                        matrix: old(self).cpu.cpu.memoire.joypad.matrix | key_mask(key_of(button)),
                        ..old(self).cpu.cpu.memoire.joypad
                    },
                    ..old(self).cpu.cpu@.mem
                },
                ..old(self).cpu.cpu@
            }),
    {
        self.cpu.cpu.memoire.joypad.keyup(button.key());
    }

    /// A key goes down: its bit clears and the input interrupt is requested.
    pub fn gerer_keydown(&mut self, button: GameboyButton)
        requires
            old(self).wf(),
        ensures
            final(self).wf(),
            final(self).cpu.cpu@ == (CpuView {
                mem: MmuView {
                    joypad: Joypad {
                        matrix: old(self).cpu.cpu.memoire.joypad.matrix & !key_mask(key_of(button)),
                        interrupt: old(self).cpu.cpu.memoire.joypad.interrupt | JOYPAD_INTERRUPT,
                        ..old(self).cpu.cpu.memoire.joypad
                    },
                    ..old(self).cpu.cpu@.mem
                },
                ..old(self).cpu.cpu@
            }),
    {
        self.cpu.cpu.memoire.joypad.keydown(button.key());
    }
}

} // verus!
