use vstd::prelude::*;

verus! {

/// The display control register.
#[derive(Clone, Copy, Debug, PartialEq, Eq, Structural)]
pub struct LcdControl {
    pub data: u8,
}

/// Whether bit `bit` of `data` is set.
pub open spec fn bit_of(data: u8, bit: u8) -> bool {
    data & (1u8 << bit) != 0
}

impl LcdControl {
    pub fn new() -> (r: LcdControl)
        ensures
            r.data == 0x48,
    {
        LcdControl { data: 0b0100_1000 }
    }

    pub fn has_bit(&self, bit: u8) -> (r: bool)
        requires
            bit < 8,
        ensures
            r == bit_of(self.data, bit),
    {
        (self.data & (1u8 << bit)) != 0
    }
}

/// The display status register: four interrupt enables and the current mode
/// (0 horizontal blank, 1 vertical blank, 2 object scan, 3 pixel transfer).
#[derive(Clone, Copy, Debug, PartialEq, Eq, Structural)]
pub struct LcdStatus {
    pub lyc_interrupt_enabled: bool,
    pub m2_oam_interrupt_enabled: bool,
    pub m1_vblank_interrupt_enabled: bool,
    pub m0_hblank_interrupt_enabled: bool,
    pub mode: u8,
}

impl LcdStatus {
    /// All status interrupts disabled, in object-scan mode.
    pub fn new() -> (r: LcdStatus)
        ensures
            r == (LcdStatus {
                lyc_interrupt_enabled: false,
                m2_oam_interrupt_enabled: false,
                m1_vblank_interrupt_enabled: false,
                m0_hblank_interrupt_enabled: false,
                mode: 2,
            }),
    {
        LcdStatus {
            lyc_interrupt_enabled: false,
            m2_oam_interrupt_enabled: false,
            m1_vblank_interrupt_enabled: false,
            m0_hblank_interrupt_enabled: false,
            mode: 2,
        }
    }
}

/// The attribute byte of a sprite or a background tile, decoded.
#[derive(Clone, Copy, Debug, PartialEq, Eq, Structural)]
pub struct Attribut {
    pub priority: bool,
    pub flip_y: bool,
    pub flip_x: bool,
    pub palette_number: u8,
    pub vram_bank: u8,
}

/// Bit 7 priority, bit 6 vertical flip, bit 5 horizontal flip, bit 4 sprite palette,
/// bit 3 video RAM bank of the tile data.
pub open spec fn attribut_of(byte: u8) -> Attribut {
    Attribut {
        priority: byte & 0x80 != 0,
        flip_y: byte & 0x40 != 0,
        flip_x: byte & 0x20 != 0,
        palette_number: (byte >> 4) & 1,
        vram_bank: (byte >> 3) & 1,
    }
}

impl Attribut {
    pub fn from_byte(byte: u8) -> (r: Attribut)
        ensures
            r == attribut_of(byte),
            r.palette_number <= 1,
            r.vram_bank <= 1,
    {
        assert((byte >> 4) & 1 <= 1 && (byte >> 3) & 1 <= 1) by (bit_vector);
        Attribut {
            priority: byte & 0x80 != 0,
            flip_y: byte & 0x40 != 0,
            flip_x: byte & 0x20 != 0,
            palette_number: (byte >> 4) & 1,
            vram_bank: (byte >> 3) & 1,
        }
    }
}

} // verus!
