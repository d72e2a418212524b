use vstd::prelude::*;

verus! {

/// The timer interrupt bit of the interrupt latch.
pub const TIMER_INTERRUPT: u8 = 0x04;

/// The timer: a free-running divider (the high byte of a 16-bit cycle counter),
/// a counter with its reload value, and a control byte whose bit 2 enables the counter.
#[derive(Clone, Copy, Debug, PartialEq, Eq, Structural)]
pub struct Timer {
    pub div_counter: u16,
    pub tima: u8,
    pub tma: u8,
    pub tac: u8,
    pub interrupt: u8,
}

/// Whether the control byte enables the counter.
pub open spec fn timer_enabled(tac: u8) -> bool {
    tac & 0x04 != 0
}

/// The timer after one cycle: the divider runs; an enabled counter increments,
/// and on wrapping to zero reloads and raises its interrupt bit.
pub open spec fn timer_tick(t: Timer) -> Timer {
    let div_counter = ((t.div_counter as int + 1) % 0x10000) as u16;
    if !timer_enabled(t.tac) {
        Timer { div_counter, ..t }
    } else if t.tima == 0xFF {
        Timer { div_counter, tima: t.tma, interrupt: t.interrupt | TIMER_INTERRUPT, ..t }
    } else {
        Timer { div_counter, tima: (t.tima + 1) as u8, ..t }
    }
}

/// The timer after `n` cycles.
pub open spec fn timer_run(t: Timer, n: nat) -> Timer
    decreases n,
{
    if n == 0 {
        t
    } else {
        timer_tick(timer_run(t, (n - 1) as nat))
    }
}

/// What reading a timer register returns; other addresses read as zero.
pub open spec fn timer_read(t: Timer, addr: u16) -> u8 {
    if addr == 0xFF04 {
        (t.div_counter / 256) as u8
    } else if addr == 0xFF05 {
        t.tima
    } else if addr == 0xFF06 {
        t.tma
    } else if addr == 0xFF07 {
        t.tac
    } else {
        0
    }
}

/// The timer after a write: writing the divider resets it, the other registers take the value.
pub open spec fn timer_write(t: Timer, addr: u16, value: u8) -> Timer {
    if addr == 0xFF04 {
        Timer { div_counter: 0, ..t }
    } else if addr == 0xFF05 {
        Timer { tima: value, ..t }
    } else if addr == 0xFF06 {
        Timer { tma: value, ..t }
    } else if addr == 0xFF07 {
        Timer { tac: value, ..t }
    } else {
        t
    }
}

impl Timer {
    pub fn new() -> (r: Timer)
        ensures
            r == (Timer { div_counter: 0, tima: 0, tma: 0, tac: 0, interrupt: 0 }),
    {
        Timer { div_counter: 0, tima: 0, tma: 0, tac: 0, interrupt: 0 }
    }

    fn tick(&mut self)
        ensures
            *final(self) == timer_tick(*old(self)),
    {
        self.div_counter = self.div_counter.wrapping_add(1);
        if self.tac & 0x04 != 0 {
            if self.tima == 0xFF {
                self.tima = self.tma;
                self.interrupt = self.interrupt | TIMER_INTERRUPT;
            } else {
                self.tima = self.tima + 1;
            }
        }
    }

    /// Advances the timer by `cycles` cycles, one increment per cycle while enabled.
    pub fn run_cycles(&mut self, cycles: u32)
        ensures
            *final(self) == timer_run(*old(self), cycles as nat),
    {
        let mut i: u32 = 0;
        while i < cycles
            invariant
                i <= cycles,
                *self == timer_run(*old(self), i as nat),
            decreases cycles - i,
        {
            self.tick();
            i = i + 1;
        }
    }

    pub fn get_octet(&self, addr: u16) -> (r: u8)
        ensures
            r == timer_read(*self, addr),
    {
        if addr == 0xFF04 {
            (self.div_counter / 256) as u8
        } else if addr == 0xFF05 {
            self.tima
        } else if addr == 0xFF06 {
            self.tma
        } else if addr == 0xFF07 {
            self.tac
        } else {
            0
        }
    }

    pub fn set_octet(&mut self, addr: u16, value: u8)
        ensures
            *final(self) == timer_write(*old(self), addr, value),
    {
        if addr == 0xFF04 {
            self.div_counter = 0;
        } else if addr == 0xFF05 {
            self.tima = value;
        } else if addr == 0xFF06 {
            self.tma = value;
        } else if addr == 0xFF07 {
            self.tac = value;
        }
    }
}

} // verus!
