use vstd::prelude::*;

verus! {

/// The input interrupt bit of the interrupt latch.
pub const JOYPAD_INTERRUPT: u8 = 0x10;

/// The eight buttons of the input matrix.
#[derive(Clone, Copy, Debug, PartialEq, Eq, Structural)]
pub enum JoypadKey {
    Right,
    Left,
    Up,
    Down,
    A,
    B,
    Select,
    Start,
}

/// The bit of the key matrix that a key occupies: direction keys in the low nibble,
/// action keys in the high nibble.
pub open spec fn key_mask(key: JoypadKey) -> u8 {
    match key {
        JoypadKey::Right => 0x01,
        JoypadKey::Left => 0x02,
        JoypadKey::Up => 0x04,
        JoypadKey::Down => 0x08,
        JoypadKey::A => 0x10,
        JoypadKey::B => 0x20,
        JoypadKey::Select => 0x40,
        JoypadKey::Start => 0x80,
    }
}

impl JoypadKey {
    pub fn mask(self) -> (r: u8)
        ensures
            r == key_mask(self),
    {
        match self {
            JoypadKey::Right => 0x01,
            JoypadKey::Left => 0x02,
            JoypadKey::Up => 0x04,
            JoypadKey::Down => 0x08,
            JoypadKey::A => 0x10,
            JoypadKey::B => 0x20,
            JoypadKey::Select => 0x40,
            JoypadKey::Start => 0x80,
        }
    }
}

/// The button matrix: `matrix` holds one bit per key, clear while the key is pressed;
/// `select` holds the group-selection bits last written (bit 4 clear selects the
/// direction keys, bit 5 clear the action keys).
#[derive(Clone, Copy, Debug, PartialEq, Eq, Structural)]
pub struct Joypad {
    pub matrix: u8,
    pub select: u8,
    pub interrupt: u8,
}

/// What the program reads at the input register: the selection bits with the key
/// bits of the selected group.
pub open spec fn joypad_read(j: Joypad) -> u8 {
    if j.select & 0x10 == 0 {
        j.select | (j.matrix & 0x0F)
    } else if j.select & 0x20 == 0 {
        j.select | (j.matrix >> 4)
    } else {
        j.select
    }
}

impl Joypad {
    /// No key pressed, no group selected yet.
    pub fn new() -> (r: Joypad)
        ensures
            r == (Joypad { matrix: 0xFF, select: 0, interrupt: 0 }),
    {
        Joypad { matrix: 0xFF, select: 0x00, interrupt: 0 }
    }

    /// A key goes down: its bit clears and the input interrupt is raised.
    pub fn keydown(&mut self, key: JoypadKey)
        ensures
            *final(self) == (Joypad {
                matrix: old(self).matrix & !key_mask(key),
                interrupt: old(self).interrupt | JOYPAD_INTERRUPT,
                ..*old(self)
            }),
    {
        self.matrix = self.matrix & !key.mask();
        self.interrupt = self.interrupt | JOYPAD_INTERRUPT;
    }

    /// A key goes up: its bit sets; no interrupt.
    pub fn keyup(&mut self, key: JoypadKey)
        ensures
            *final(self) == (Joypad { matrix: old(self).matrix | key_mask(key), ..*old(self) }),
    {
        self.matrix = self.matrix | key.mask();
    }

    pub fn get_octet(&self) -> (r: u8)
        ensures
            r == joypad_read(*self),
    {
        if self.select & 0x10 == 0 {
            self.select | (self.matrix & 0x0F)
        } else if self.select & 0x20 == 0 {
            self.select | (self.matrix >> 4)
        } else {
            self.select
        }
    }

    /// Writing the input register keeps the two group-selection bits.
    pub fn set_octet(&mut self, value: u8)
        ensures
            *final(self) == (Joypad { select: value & 0x30, ..*old(self) }),
    {
        self.select = value & 0x30;
    }
}

} // verus!
