use vstd::prelude::*;
use crate::cartouches::zeroed;
use crate::lcd::{Attribut, LcdControl, LcdStatus, attribut_of, bit_of};

verus! {

pub const SCREEN_WIDTH: usize = 160;

pub const SCREEN_HEIGHT: usize = 144;

/// The number of pixels in one frame.
pub const SCREEN_PIXELS: usize = 23040;

pub const VRAM_SIZE: usize = 0x4000;

pub const OAM_SIZE: usize = 0xA0;

/// The vertical-blank interrupt bit of the interrupt latch.
pub const VBLANK_INTERRUPT: u8 = 0x01;

/// The display-status interrupt bit of the interrupt latch.
pub const STAT_INTERRUPT: u8 = 0x02;

/// Dots in one scanline.
pub const DOTS_PER_LINE: u16 = 456;

/// Scanlines in one frame, vertical blank included.
pub const LINES_PER_FRAME: u8 = 154;

/// One pixel of the output buffer, as a shade triple.
#[derive(Clone, Copy, Debug, PartialEq, Eq, Structural)]
pub struct Pixel {
    pub r: u8,
    pub g: u8,
    pub b: u8,
}

pub open spec fn grey(g: u8) -> Pixel {
    Pixel { r: g, g: g, b: g }
}

impl Pixel {
    /// The idle (lightest) shade.
    pub fn new() -> (r: Pixel)
        ensures
            r == grey(0xFF),
    {
        Pixel { r: 0xFF, g: 0xFF, b: 0xFF }
    }

    pub fn from_greyscale(g: u8) -> (r: Pixel)
        ensures
            r == grey(g),
    {
        Pixel { r: g, g, b: g }
    }
}

/// The display controller's registers and counters.
#[derive(Clone, Copy, Debug, PartialEq, Eq, Structural)]
pub struct PpuState {
    pub interrupt: u8,
    pub vblank: bool,
    pub hblank: bool,
    pub lcd_control: LcdControl,
    pub lcd_status: LcdStatus,
    pub scroll_y: u8,
    pub scroll_x: u8,
    pub lcdc_y: u8,
    pub ly_compare: u8,
    pub window_y: u8,
    pub window_x: u8,
    pub bg_palette: u8,
    pub object_pallete_0: u8,
    pub object_pallete_1: u8,
    pub vram_bank: u8,
    pub dots: u16,
}

/// The display controller: output buffer, video RAM (two banks), object attribute
/// table, the background priority of each column of the current line, and registers.
pub struct Ppu {
    pub data: Vec<Pixel>,
    pub vram: Vec<u8>,
    pub oam: Vec<u8>,
    pub priorities: Vec<(bool, u8)>,
    pub state: PpuState,
}

/// The display controller as the contracts see it.
pub struct PpuView {
    pub data: Seq<Pixel>,
    pub vram: Seq<u8>,
    pub oam: Seq<u8>,
    pub priorities: Seq<(bool, u8)>,
    pub state: PpuState,
}

impl View for Ppu {
    type V = PpuView;

    open spec fn view(&self) -> PpuView {
        PpuView {
            data: self.data@,
            vram: self.vram@,
            oam: self.oam@,
            priorities: self.priorities@,
            state: self.state,
        }
    }
}

pub open spec fn ppu_wf(v: PpuView) -> bool {
    &&& v.data.len() == SCREEN_PIXELS
    &&& v.vram.len() == VRAM_SIZE
    &&& v.oam.len() == OAM_SIZE
    &&& v.priorities.len() == SCREEN_WIDTH
    &&& v.state.lcdc_y < LINES_PER_FRAME
    &&& v.state.dots < DOTS_PER_LINE
    &&& v.state.vram_bank <= 1
}

pub open spec fn wrap8(x: int) -> u8 {
    (x % 256) as u8
}

pub open spec fn lcdc(s: PpuState) -> u8 {
    s.lcd_control.data
}

pub open spec fn lcd_on(s: PpuState) -> bool {
    bit_of(lcdc(s), 7)
}

/// The shade that palette `palette` gives to color index `color`.
pub open spec fn shade(palette: u8, color: u8) -> u8 {
    let s = (palette >> ((2 * color) as u8)) & 0x03;
    if s == 0 {
        0xFF
    } else if s == 1 {
        0xC0
    } else if s == 2 {
        0x60
    } else {
        0x00
    }
}

/// The 2-bit color index of pixel `bit` (0 leftmost) of a tile row given by its two bit-planes.
pub open spec fn color_index(lo: u8, hi: u8, bit: u8) -> u8 {
    ((if hi & (0x80u8 >> bit) != 0 { 2int } else { 0int }) + (if lo & (0x80u8 >> bit) != 0 { 1int } else {
        0int
    })) as u8
}

pub open spec fn window_shown(s: PpuState) -> bool {
    bit_of(lcdc(s), 5) && s.window_y <= s.lcdc_y
}

pub open spec fn window_left(s: PpuState) -> u8 {
    wrap8(s.window_x - 7)
}

/// Whether column `x` of the current line shows the window rather than the background.
pub open spec fn in_window(s: PpuState, x: u8) -> bool {
    window_shown(s) && x >= window_left(s)
}

pub open spec fn picture_y(s: PpuState, x: u8) -> u8 {
    if in_window(s, x) {
        (s.lcdc_y - s.window_y) as u8
    } else {
        wrap8(s.scroll_y + s.lcdc_y)
    }
}

pub open spec fn picture_x(s: PpuState, x: u8) -> u8 {
    if in_window(s, x) {
        (x - window_left(s)) as u8
    } else {
        wrap8(s.scroll_x + x)
    }
}

/// The tile map that column `x` reads.
pub open spec fn map_base(s: PpuState, x: u8) -> int {
    if in_window(s, x) {
        if bit_of(lcdc(s), 6) { 0x9C00 } else { 0x9800 }
    } else if bit_of(lcdc(s), 3) {
        0x9C00
    } else {
        0x9800
    }
}

/// The offset into video RAM of the tile-map entry that column `x` reads.
pub open spec fn tile_map_offset(s: PpuState, x: u8) -> int {
    map_base(s, x) - 0x8000 + (picture_y(s, x) / 8) * 32 + picture_x(s, x) / 8
}

/// The offset into a video RAM bank of the first byte of background tile `tile`:
/// unsigned from 0x8000, or signed around 0x9000, as control bit 4 says.
pub open spec fn bg_tile_offset(s: PpuState, tile: u8) -> int {
    if bit_of(lcdc(s), 4) {
        tile * 16
    } else if tile < 128 {
        0x1000 + tile * 16
    } else {
        0x1000 + (tile - 256) * 16
    }
}

/// The background priority bit and color index of column `x` of the current line.
pub open spec fn bg_dot(v: PpuView, x: u8) -> (bool, u8) {
    let s = v.state;
    let m = tile_map_offset(s, x);
    let tile = v.vram[m];
    let attr = attribut_of(v.vram[m + 0x2000]);
    let py = picture_y(s, x);
    let px = picture_x(s, x);
    let row = if attr.flip_y { 7 - py % 8 } else { (py % 8) as int };
    let base = attr.vram_bank * 0x2000 + bg_tile_offset(s, tile) + row * 2;
    let col = if attr.flip_x { 7 - px % 8 } else { (px % 8) as int };
    (attr.priority, color_index(v.vram[base], v.vram[base + 1], col as u8))
}

pub open spec fn line_start(s: PpuState) -> int {
    s.lcdc_y * 160
}

/// The background and window layer of the current line drawn into the buffer.
pub open spec fn bg_layer(v: PpuView) -> PpuView {
    let r = line_start(v.state);
    PpuView {
        data: Seq::new(
            v.data.len(),
            |i: int|
                if r <= i < r + 160 {
                    grey(shade(v.state.bg_palette, bg_dot(v, (i - r) as u8).1))
                } else {
                    v.data[i]
                },
        ),
        priorities: Seq::new(160, |x: int| bg_dot(v, x as u8)),
        ..v
    }
}

pub open spec fn sprite_height(s: PpuState) -> int {
    if bit_of(lcdc(s), 2) { 16 } else { 8 }
}

pub open spec fn sprite_x(v: PpuView, k: int) -> u8 {
    wrap8(v.oam[4 * k + 1] - 8)
}

/// The shade that sprite `k` puts at its column `j` (0 to 7) on the current line, if any:
/// none off the line or off screen, for a transparent pixel, or where the background wins.
#[verifier::opaque]
pub open spec fn sprite_dot(v: PpuView, k: int, j: int) -> Option<u8> {
    let s = v.state;
    let y = wrap8(v.oam[4 * k] - 16);
    let x = sprite_x(v, k);
    let tile = if bit_of(lcdc(s), 2) { v.oam[4 * k + 2] & 0xFE } else { v.oam[4 * k + 2] };
    let attr = attribut_of(v.oam[4 * k + 3]);
    let dy = wrap8(s.lcdc_y - y);
    let col = wrap8(x + j);
    let h = sprite_height(s);
    if dy >= h || col >= 160 {
        None
    } else {
        let row = if attr.flip_y { h - 1 - dy } else { dy as int };
        let addr = tile * 16 + row * 2;
        let bx = if attr.flip_x { 7 - j } else { j };
        let c = color_index(v.vram[addr], v.vram[addr + 1], bx as u8);
        let bp = v.priorities[col as int].0;
        let bc = v.priorities[col as int].1;
        let hidden = if bp { bc != 0 } else { attr.priority && bc != 0 };
        if c == 0 || hidden {
            None
        } else {
            Some(
                shade(
                    if attr.palette_number == 1 { s.object_pallete_1 } else { s.object_pallete_0 },
                    c,
                ),
            )
        }
    }
}

/// `data` with columns 0 to `n - 1` of sprite `k` drawn on the current line.
pub open spec fn sprite_step(data: Seq<Pixel>, v: PpuView, k: int, n: int) -> Seq<Pixel> {
    let r = line_start(v.state);
    Seq::new(
        data.len(),
        |i: int|
            {
                let j = wrap8(i - r - sprite_x(v, k)) as int;
                if r <= i < r + 160 && j < n && sprite_dot(v, k, j) is Some {
                    grey(sprite_dot(v, k, j)->Some_0)
                } else {
                    data[i]
                }
            },
    )
}

/// The buffer after sprites 0 to `k - 1` are drawn in order, a later one over an earlier one.
pub open spec fn sprites_upto(v: PpuView, k: int) -> Seq<Pixel>
    decreases k,
{
    if k <= 0 {
        v.data
    } else {
        sprite_step(sprites_upto(v, k - 1), v, k - 1, 8)
    }
}

/// The scanline compositor: background and window when control bit 0 is set,
/// then the sprites when control bit 1 is set.
pub open spec fn render_line(v: PpuView) -> PpuView {
    let v1 = if bit_of(lcdc(v.state), 0) { bg_layer(v) } else { v };
    if bit_of(lcdc(v1.state), 1) {
        PpuView { data: sprites_upto(v1, 40), ..v1 }
    } else {
        v1
    }
}

/// The mode that a dot position gives.
pub open spec fn mode_for(ly: u8, dots: u16) -> u8 {
    if ly >= 144 {
        1
    } else if dots < 80 {
        2
    } else if dots < 252 {
        3
    } else {
        0
    }
}

/// The counters after one dot; a new scanline equal to the compare value raises the
/// status interrupt when enabled.
pub open spec fn advance_dot(s: PpuState) -> PpuState {
    if s.dots + 1 == 456 {
        let ly = ((s.lcdc_y + 1) % 154) as u8;
        PpuState {
            dots: 0,
            lcdc_y: ly,
            interrupt: if s.lcd_status.lyc_interrupt_enabled && ly == s.ly_compare {
                s.interrupt | STAT_INTERRUPT
            } else {
                s.interrupt
            },
            ..s
        }
    } else {
        PpuState { dots: (s.dots + 1) as u16, ..s }
    }
}

pub open spec fn stat_if(enabled: bool) -> u8 {
    if enabled { STAT_INTERRUPT } else { 0 }
}

/// The registers after a switch into mode `m`, with the interrupts that the switch raises.
pub open spec fn enter_mode(s: PpuState, m: u8) -> PpuState {
    let st = LcdStatus { mode: m, ..s.lcd_status };
    if m == 1 {
        PpuState {
            lcd_status: st,
            vblank: true,
            interrupt: s.interrupt | VBLANK_INTERRUPT | stat_if(s.lcd_status.m1_vblank_interrupt_enabled),
            ..s
        }
    } else if m == 2 {
        PpuState {
            lcd_status: st,
            interrupt: s.interrupt | stat_if(s.lcd_status.m2_oam_interrupt_enabled),
            ..s
        }
    } else if m == 0 {
        PpuState {
            lcd_status: st,
            hblank: true,
            interrupt: s.interrupt | stat_if(s.lcd_status.m0_hblank_interrupt_enabled),
            ..s
        }
    } else {
        PpuState { lcd_status: st, ..s }
    }
}

/// The display controller after one dot: on a mode change the new mode is entered,
/// and the entry into horizontal blank composites the line.
pub open spec fn ppu_tick(v: PpuView) -> PpuView {
    let s1 = advance_dot(v.state);
    let m = mode_for(s1.lcdc_y, s1.dots);
    if m == s1.lcd_status.mode {
        PpuView { state: s1, ..v }
    } else {
        let v2 = PpuView { state: enter_mode(s1, m), ..v };
        if m == 0 { render_line(v2) } else { v2 }
    }
}

pub open spec fn ppu_ticks(v: PpuView, n: nat) -> PpuView
    decreases n,
{
    if n == 0 {
        v
    } else {
        ppu_tick(ppu_ticks(v, (n - 1) as nat))
    }
}

/// The display controller after `n` dots: nothing moves while the display is off.
pub open spec fn ppu_run(v: PpuView, n: nat) -> PpuView {
    if !lcd_on(v.state) {
        v
    } else {
        ppu_ticks(PpuView { state: PpuState { hblank: false, ..v.state }, ..v }, n)
    }
}

/// The status register as read: interrupt enables in bits 6 to 3, the compare match
/// in bit 2, the mode in bits 1 and 0.
pub open spec fn stat_byte(s: PpuState) -> u8 {
    (if s.lcd_status.lyc_interrupt_enabled { 0x40u8 } else { 0u8 }) | (if s.lcd_status.m2_oam_interrupt_enabled {
        0x20u8
    } else {
        0u8
    }) | (if s.lcd_status.m1_vblank_interrupt_enabled { 0x10u8 } else { 0u8 }) | (
    if s.lcd_status.m0_hblank_interrupt_enabled {
        0x08u8
    } else {
        0u8
    }) | (if s.lcdc_y == s.ly_compare { 0x04u8 } else { 0u8 }) | s.lcd_status.mode
}

/// What a read at `addr` returns from video RAM, the object table or a display register.
pub open spec fn ppu_read(v: PpuView, addr: u16) -> u8 {
    let s = v.state;
    if 0x8000 <= addr < 0xA000 {
        v.vram[s.vram_bank * 0x2000 + addr - 0x8000]
    } else if 0xFE00 <= addr < 0xFEA0 {
        v.oam[addr - 0xFE00]
    } else if addr == 0xFF40 {
        s.lcd_control.data
    } else if addr == 0xFF41 {
        stat_byte(s)
    } else if addr == 0xFF42 {
        s.scroll_y
    } else if addr == 0xFF43 {
        s.scroll_x
    } else if addr == 0xFF44 {
        s.lcdc_y
    } else if addr == 0xFF45 {
        s.ly_compare
    } else if addr == 0xFF47 {
        s.bg_palette
    } else if addr == 0xFF48 {
        s.object_pallete_0
    } else if addr == 0xFF49 {
        s.object_pallete_1
    } else if addr == 0xFF4A {
        s.window_y
    } else if addr == 0xFF4B {
        s.window_x
    } else if addr == 0xFF4F {
        0xFE | s.vram_bank
    } else {
        0
    }
}

/// The display controller once turned off: counters at the top of the frame, object
/// scan, a blank buffer, and a frame signalled.
pub open spec fn display_off(v: PpuView, value: u8) -> PpuView {
    PpuView {
        data: Seq::new(v.data.len(), |i: int| grey(0xFF)),
        state: PpuState {
            lcd_control: LcdControl { data: value },
            dots: 0,
            lcdc_y: 0,
            lcd_status: LcdStatus { mode: 2, ..v.state.lcd_status },
            vblank: true,
            ..v.state
        },
        ..v
    }
}

/// The display controller after a write of `value` at `addr`; the scanline counter
/// is read-only.
pub open spec fn ppu_write(v: PpuView, addr: u16, value: u8) -> PpuView {
    let s = v.state;
    if 0x8000 <= addr < 0xA000 {
        PpuView { vram: v.vram.update(s.vram_bank * 0x2000 + addr - 0x8000, value), ..v }
    } else if 0xFE00 <= addr < 0xFEA0 {
        PpuView { oam: v.oam.update(addr - 0xFE00, value), ..v }
    } else if addr == 0xFF40 {
        if !bit_of(value, 7) {
            display_off(v, value)
        } else {
            PpuView { state: PpuState { lcd_control: LcdControl { data: value }, ..s }, ..v }
        }
    } else if addr == 0xFF41 {
        PpuView {
            state: PpuState {
                lcd_status: LcdStatus {
                    lyc_interrupt_enabled: value & 0x40 != 0,
                    m2_oam_interrupt_enabled: value & 0x20 != 0,
                    m1_vblank_interrupt_enabled: value & 0x10 != 0,
                    m0_hblank_interrupt_enabled: value & 0x08 != 0,
                    ..s.lcd_status
                },
                ..s
            },
            ..v
        }
    } else if addr == 0xFF42 {
        PpuView { state: PpuState { scroll_y: value, ..s }, ..v }
    } else if addr == 0xFF43 {
        PpuView { state: PpuState { scroll_x: value, ..s }, ..v }
    } else if addr == 0xFF45 {
        PpuView { state: PpuState { ly_compare: value, ..s }, ..v }
    } else if addr == 0xFF47 {
        PpuView { state: PpuState { bg_palette: value, ..s }, ..v }
    } else if addr == 0xFF48 {
        PpuView { state: PpuState { object_pallete_0: value, ..s }, ..v }
    } else if addr == 0xFF49 {
        PpuView { state: PpuState { object_pallete_1: value, ..s }, ..v }
    } else if addr == 0xFF4A {
        PpuView { state: PpuState { window_y: value, ..s }, ..v }
    } else if addr == 0xFF4B {
        PpuView { state: PpuState { window_x: value, ..s }, ..v }
    } else if addr == 0xFF4F {
        PpuView { state: PpuState { vram_bank: value & 0x01, ..s }, ..v }
    } else {
        v
    }
}

/// The registers at power-on.
pub open spec fn initial_ppu_state() -> PpuState {
    PpuState {
        interrupt: 0,
        vblank: false,
        hblank: false,
        lcd_control: LcdControl { data: 0x48 },
        lcd_status: LcdStatus {
            lyc_interrupt_enabled: false,
            m2_oam_interrupt_enabled: false,
            m1_vblank_interrupt_enabled: false,
            m0_hblank_interrupt_enabled: false,
            mode: 2,
        },
        scroll_y: 0,
        scroll_x: 0,
        lcdc_y: 0,
        ly_compare: 0,
        window_y: 0,
        window_x: 0,
        bg_palette: 0,
        object_pallete_0: 0,
        object_pallete_1: 1,
        vram_bank: 0,
        dots: 0,
    }
}

/// One dot moves the dot counter on by one, wrapping from 455 to 0; the wrap moves the
/// scanline counter on by one, wrapping from 153 to 0.
pub proof fn lemma_dot_and_line_wrap(v: PpuView)
    requires
        ppu_wf(v),
    ensures
        v.state.dots < 455 ==> ppu_tick(v).state.dots == v.state.dots + 1 && ppu_tick(v).state.lcdc_y
            == v.state.lcdc_y,
        v.state.dots == 455 ==> ppu_tick(v).state.dots == 0 && ppu_tick(v).state.lcdc_y == (v.state.lcdc_y + 1)
            % 154,
        v.state.dots == 455 && v.state.lcdc_y == 153 ==> ppu_tick(v).state.lcdc_y == 0,
        ppu_wf(ppu_tick(v)),
{
    let s1 = advance_dot(v.state);
    let m = mode_for(s1.lcdc_y, s1.dots);
    let v2 = PpuView { state: enter_mode(s1, m), ..v };
    if m == 0 && m != s1.lcd_status.mode {
        let v1 = if bit_of(lcdc(v2.state), 0) { bg_layer(v2) } else { v2 };
        assert(v1.state == v2.state);
        assert(render_line(v2).state == v2.state);
        assert(render_line(v2).data.len() == v.data.len()) by {
            if bit_of(lcdc(v1.state), 1) {
                lemma_sprites_len(v1, 40);
            }
        }
    }
}

proof fn lemma_sprites_len(v: PpuView, k: int)
    ensures
        sprites_upto(v, k).len() == v.data.len(),
    decreases k,
{
    if k > 0 {
        lemma_sprites_len(v, k - 1);
    }
}

proof fn lemma_wrap8(x: int)
    requires
        -256 <= x < 512,
    ensures
        wrap8(x) as int == if x < 0 {
            x + 256
        } else if x >= 256 {
            x - 256
        } else {
            x
        },
{
}

/// `sprite_dot` reads neither the buffer nor anything that the sprite pass writes.
proof fn lemma_sprite_dot_frame(v1: PpuView, v2: PpuView, k: int, j: int)
    requires
        v1.oam == v2.oam,
        v1.vram == v2.vram,
        v1.priorities == v2.priorities,
        v1.state == v2.state,
    ensures
        sprite_dot(v1, k, j) == sprite_dot(v2, k, j),
{
    reveal(sprite_dot);
}

proof fn lemma_wrap_columns(c: int, x: int, j: int)
    requires
        0 <= c < 256,
        0 <= x < 256,
        0 <= j < 256,
    ensures
        (wrap8(c - x) == j) == (c == wrap8(x + j)),
{
}

/// A buffer of `n` pixels of the idle shade.
fn blank_pixels(n: usize) -> (r: Vec<Pixel>)
    ensures
        r@ == Seq::new(n as nat, |i: int| grey(0xFF)),
{
    let mut v: Vec<Pixel> = Vec::with_capacity(n);
    let mut i: usize = 0;
    while i < n
        invariant
            i <= n,
            v@ == Seq::new(i as nat, |j: int| grey(0xFF)),
        decreases n - i,
    {
        v.push(Pixel::new());
        i = i + 1;
        assert(v@ =~= Seq::new(i as nat, |j: int| grey(0xFF)));
    }
    v
}

fn color_of(lo: u8, hi: u8, bit: u8) -> (r: u8)
    requires
        bit < 8,
    ensures
        r == color_index(lo, hi, bit),
        r <= 3,
{
    let h: u8 = if hi & (0x80u8 >> bit) != 0 { 2 } else { 0 };
    let l: u8 = if lo & (0x80u8 >> bit) != 0 { 1 } else { 0 };
    h + l
}

impl Ppu {
    /// Power-on state: a blank buffer, zeroed memories, display off until configured.
    pub fn new() -> (r: Ppu)
        ensures
            r@ == (PpuView {
                data: Seq::new(SCREEN_PIXELS as nat, |i: int| grey(0xFF)),
                vram: Seq::new(VRAM_SIZE as nat, |i: int| 0u8),
                oam: Seq::new(OAM_SIZE as nat, |i: int| 0u8),
                priorities: Seq::new(SCREEN_WIDTH as nat, |i: int| (true, 0u8)),
                state: initial_ppu_state(),
            }),
            ppu_wf(r@),
    {
        let mut priorities: Vec<(bool, u8)> = Vec::with_capacity(SCREEN_WIDTH);
        let mut i: usize = 0;
        while i < SCREEN_WIDTH
            invariant
                i <= SCREEN_WIDTH,
                priorities@ == Seq::new(i as nat, |j: int| (true, 0u8)),
            decreases SCREEN_WIDTH - i,
        {
            priorities.push((true, 0));
            i = i + 1;
            assert(priorities@ =~= Seq::new(i as nat, |j: int| (true, 0u8)));
        }
        Ppu {
            data: blank_pixels(SCREEN_PIXELS),
            vram: zeroed(VRAM_SIZE),
            oam: zeroed(OAM_SIZE),
            priorities,
            state: PpuState {
                interrupt: 0,
                vblank: false,
                hblank: false,
                lcd_control: LcdControl::new(),
                lcd_status: LcdStatus::new(),
                scroll_y: 0,
                scroll_x: 0,
                lcdc_y: 0,
                ly_compare: 0,
                window_y: 0,
                window_x: 0,
                bg_palette: 0,
                object_pallete_0: 0,
                object_pallete_1: 1,
                vram_bank: 0,
                dots: 0,
            },
        }
    }

    /// Byte `offset` of video RAM bank `num`.
    pub fn get_vram(&self, num: u8, offset: usize) -> (r: u8)
        requires
            ppu_wf(self@),
            num <= 1,
            offset < 0x2000,
        ensures
            r == self@.vram[num * 0x2000 + offset],
    {
        if num == 0 { self.vram[offset] } else { self.vram[0x2000 + offset] }
    }

    /// The shade that palette `value` gives to color index `i`.
    pub fn get_nuance_de_gris(&self, value: u8, i: u8) -> (r: u8)
        requires
            i <= 3,
        ensures
            r == shade(value, i),
    {
        let s = (value >> (2 * i)) & 0x03;
        if s == 0 {
            0xFF
        } else if s == 1 {
            0xC0
        } else if s == 2 {
            0x60
        } else {
            0x00
        }
    }

    /// Writes shade `g` at column `index` of the current line.
    pub fn set_nuances_de_gris(&mut self, index: usize, g: u8)
        requires
            ppu_wf(old(self)@),
            old(self).state.lcdc_y < 144,
            index < SCREEN_WIDTH,
        ensures
            final(self)@ == (PpuView {
                data: old(self)@.data.update(line_start(old(self).state) + index, grey(g)),
                ..old(self)@
            }),
            ppu_wf(final(self)@),
    {
        let i = self.state.lcdc_y as usize * SCREEN_WIDTH + index;
        self.data.set(i, Pixel::from_greyscale(g));
    }

    /// Whether column `x` shows the window, and the picture coordinates it shows.
    fn bg_position(&self, x: u8) -> (r: (bool, u8, u8))
        ensures
            r.0 == in_window(self.state, x),
            r.1 == picture_y(self.state, x),
            r.2 == picture_x(self.state, x),
    {
        let s = self.state;
        let show = self.state.lcd_control.has_bit(5) && s.window_y <= s.lcdc_y;
        let wl = s.window_x.wrapping_sub(7);
        proof {
            lemma_wrap8(s.window_x - 7);
            lemma_wrap8(s.scroll_y + s.lcdc_y);
            lemma_wrap8(s.scroll_x + x);
        }
        let inw = show && x >= wl;
        let py: u8 = if inw { s.lcdc_y - s.window_y } else { s.scroll_y.wrapping_add(s.lcdc_y) };
        let px: u8 = if inw { x - wl } else { s.scroll_x.wrapping_add(x) };
        (inw, py, px)
    }

    /// The offset of the first byte of background tile `tile` in a video RAM bank.
    fn bg_tile_start(&self, tile: u8) -> (r: usize)
        ensures
            r as int == bg_tile_offset(self.state, tile),
            r + 16 <= 0x1800,
    {
        if self.state.lcd_control.has_bit(4) {
            tile as usize * 16
        } else if tile < 128 {
            0x1000 + tile as usize * 16
        } else {
            0x1000 - (256 - tile as usize) * 16
        }
    }

    /// The background priority bit and color index of column `x` of the current line.
    fn background_dot(&self, x: u8) -> (r: (bool, u8))
        requires
            ppu_wf(self@),
            x < 160,
        ensures
            r == bg_dot(self@, x),
            r.1 <= 3,
    {
        let pos = self.bg_position(x);
        let inw = pos.0;
        let py = pos.1;
        let px = pos.2;
        let mb: usize = if inw {
            if self.state.lcd_control.has_bit(6) { 0x1C00 } else { 0x1800 }
        } else if self.state.lcd_control.has_bit(3) {
            0x1C00
        } else {
            0x1800
        };
        let m = mb + (py / 8) as usize * 32 + (px / 8) as usize;
        assert(m as int == tile_map_offset(self.state, x));
        let tile = self.vram[m];
        let attr = Attribut::from_byte(self.vram[m + 0x2000]);
        let row: u8 = if attr.flip_y { 7 - py % 8 } else { py % 8 };
        let off = self.bg_tile_start(tile);
        let base = attr.vram_bank as usize * 0x2000 + off + row as usize * 2;
        let col: u8 = if attr.flip_x { 7 - px % 8 } else { px % 8 };
        let c = color_of(self.vram[base], self.vram[base + 1], col);
        (attr.priority, c)
    }

    /// Draws the background and window row of the current line, and records each
    /// column's priority bit and color index for the sprites.
    pub fn dessiner_arriere_plan(&mut self)
        requires
            ppu_wf(old(self)@),
            old(self).state.lcdc_y < 144,
        ensures
            final(self)@ == bg_layer(old(self)@),
            ppu_wf(final(self)@),
    {
        let ghost v0 = self@;
        let r = self.state.lcdc_y as usize * SCREEN_WIDTH;
        let bgp = self.state.bg_palette;
        let mut x: usize = 0;
        while x < SCREEN_WIDTH
            invariant
                x <= SCREEN_WIDTH,
                r == line_start(v0.state),
                r + 160 <= SCREEN_PIXELS,
                bgp == v0.state.bg_palette,
                ppu_wf(self@),
                self.state == v0.state,
                self.vram@ == v0.vram,
                self.oam@ == v0.oam,
                forall|i: int|
                    0 <= i < SCREEN_PIXELS ==> #[trigger] self.data@[i] == if r <= i < r + x {
                        grey(shade(bgp, bg_dot(v0, (i - r) as u8).1))
                    } else {
                        v0.data[i]
                    },
                forall|c: int|
                    0 <= c < SCREEN_WIDTH ==> #[trigger] self.priorities@[c] == if c < x {
                        bg_dot(v0, c as u8)
                    } else {
                        v0.priorities[c]
                    },
            decreases SCREEN_WIDTH - x,
        {
            let d = self.background_dot(x as u8);
            let g = self.get_nuance_de_gris(bgp, d.1);
            self.priorities.set(x, d);
            self.data.set(r + x, Pixel::from_greyscale(g));
            x = x + 1;
        }
        assert(self.data@ =~= bg_layer(v0).data);
        assert(self.priorities@ =~= bg_layer(v0).priorities);
    }

    /// The shade that sprite `k` puts at its column `j` on the current line, if any.
    fn sprite_dot_at(&self, k: usize, j: u8) -> (r: Option<u8>)
        requires
            ppu_wf(self@),
            k < 40,
            j < 8,
        ensures
            r == sprite_dot(self@, k as int, j as int),
            r is Some ==> wrap8(sprite_x(self@, k as int) + j) < 160,
    {
        reveal(sprite_dot);
        let s = self.state;
        let tall = self.state.lcd_control.has_bit(2);
        proof {
            lemma_wrap8(self@.oam[4 * k as int] - 16);
            lemma_wrap8(self@.oam[4 * k as int + 1] - 8);
        }
        let y = self.oam[4 * k].wrapping_sub(16);
        let x = self.oam[4 * k + 1].wrapping_sub(8);
        let tile = if tall { self.oam[4 * k + 2] & 0xFE } else { self.oam[4 * k + 2] };
        let attr = Attribut::from_byte(self.oam[4 * k + 3]);
        let dy = s.lcdc_y.wrapping_sub(y);
        let col = x.wrapping_add(j);
        proof {
            lemma_wrap8(s.lcdc_y - y);
            lemma_wrap8(x + j);
        }
        let h: u8 = if tall { 16 } else { 8 };
        if dy >= h || col >= 160 {
            return None;
        }
        let row: u8 = if attr.flip_y { h - 1 - dy } else { dy };
        let addr = tile as usize * 16 + row as usize * 2;
        let bx: u8 = if attr.flip_x { 7 - j } else { j };
        let c = color_of(self.vram[addr], self.vram[addr + 1], bx);
        let p = self.priorities[col as usize];
        let hidden = if p.0 { p.1 != 0 } else { attr.priority && p.1 != 0 };
        if c == 0 || hidden {
            None
        } else {
            let pal = if attr.palette_number == 1 { s.object_pallete_1 } else { s.object_pallete_0 };
            Some(self.get_nuance_de_gris(pal, c))
        }
    }

    /// Draws the 40 sprites over the current line, in table order.
    pub fn dessiner_sprites(&mut self)
        requires
            ppu_wf(old(self)@),
            old(self).state.lcdc_y < 144,
        ensures
            final(self)@ == (PpuView { data: sprites_upto(old(self)@, 40), ..old(self)@ }),
            ppu_wf(final(self)@),
    {
        let ghost v0 = self@;
        let r = self.state.lcdc_y as usize * SCREEN_WIDTH;
        let mut k: usize = 0;
        while k < 40
            invariant
                k <= 40,
                r == line_start(v0.state),
                r + 160 <= SCREEN_PIXELS,
                ppu_wf(self@),
                self.state == v0.state,
                self.vram@ == v0.vram,
                self.oam@ == v0.oam,
                self.priorities@ == v0.priorities,
                self.data@ == sprites_upto(v0, k as int),
            decreases 40 - k,
        {
            let ghost d0 = self.data@;
            let x = self.oam[4 * k + 1].wrapping_sub(8);
            assert(x == sprite_x(v0, k as int));
            let mut j: u8 = 0;
            while j < 8
                invariant
                    j <= 8,
                    k < 40,
                    r == line_start(v0.state),
                    r + 160 <= SCREEN_PIXELS,
                    x == sprite_x(v0, k as int),
                    ppu_wf(self@),
                    self.state == v0.state,
                    self.vram@ == v0.vram,
                    self.oam@ == v0.oam,
                    self.priorities@ == v0.priorities,
                    d0.len() == SCREEN_PIXELS,
                    self.data@ == sprite_step(d0, v0, k as int, j as int),
                decreases 8 - j,
            {
                proof {
                    lemma_sprite_dot_frame(self@, v0, k as int, j as int);
                    lemma_wrap8(x + j);
                }
                match self.sprite_dot_at(k, j) {
                    Some(g) => {
                        let col = x.wrapping_add(j);
                        self.data.set(r + col as usize, Pixel::from_greyscale(g));
                        proof {
                            assert forall|i: int| 0 <= i < SCREEN_PIXELS implies #[trigger] self.data@[i]
                                == sprite_step(d0, v0, k as int, j + 1)[i] by {
                                if r <= i < r + 160 {
                                    lemma_wrap_columns(i - r, x as int, j as int);
                                }
                            }
                        }
                    },
                    None => {
                        proof {
                            assert forall|i: int| 0 <= i < SCREEN_PIXELS implies #[trigger] self.data@[i]
                                == sprite_step(d0, v0, k as int, j + 1)[i] by {
                                if r <= i < r + 160 {
                                    lemma_wrap_columns(i - r, x as int, j as int);
                                }
                            }
                        }
                    },
                }
                j = j + 1;
                assert(self.data@ =~= sprite_step(d0, v0, k as int, j as int));
            }
            k = k + 1;
        }
    }

    /// The scanline compositor for the current line.
    fn render_line(&mut self)
        requires
            ppu_wf(old(self)@),
            old(self).state.lcdc_y < 144,
        ensures
            final(self)@ == render_line(old(self)@),
            ppu_wf(final(self)@),
    {
        if self.state.lcd_control.has_bit(0) {
            self.dessiner_arriere_plan();
        }
        if self.state.lcd_control.has_bit(1) {
            self.dessiner_sprites();
        }
    }

    /// One dot of the display state machine.
    fn tick(&mut self)
        requires
            ppu_wf(old(self)@),
        ensures
            final(self)@ == ppu_tick(old(self)@),
            ppu_wf(final(self)@),
    {
        if self.state.dots + 1 == DOTS_PER_LINE {
            self.state.dots = 0;
            let ly = (self.state.lcdc_y + 1) % LINES_PER_FRAME;
            self.state.lcdc_y = ly;
            if self.state.lcd_status.lyc_interrupt_enabled && ly == self.state.ly_compare {
                self.state.interrupt = self.state.interrupt | STAT_INTERRUPT;
            }
        } else {
            self.state.dots = self.state.dots + 1;
        }
        let ly = self.state.lcdc_y;
        let dots = self.state.dots;
        let m: u8 = if ly >= 144 {
            1
        } else if dots < 80 {
            2
        } else if dots < 252 {
            3
        } else {
            0
        };
        if m != self.state.lcd_status.mode {
            self.state.lcd_status.mode = m;
            let st = self.state.lcd_status;
            if m == 1 {
                self.state.vblank = true;
                let e: u8 = if st.m1_vblank_interrupt_enabled { STAT_INTERRUPT } else { 0 };
                self.state.interrupt = self.state.interrupt | VBLANK_INTERRUPT | e;
            } else if m == 2 {
                let e: u8 = if st.m2_oam_interrupt_enabled { STAT_INTERRUPT } else { 0 };
                self.state.interrupt = self.state.interrupt | e;
            } else if m == 0 {
                self.state.hblank = true;
                let e: u8 = if st.m0_hblank_interrupt_enabled { STAT_INTERRUPT } else { 0 };
                self.state.interrupt = self.state.interrupt | e;
                self.render_line();
            }
        }
    }

    /// Advances the display by `cycles` dots while it is on.
    pub fn run_cycles(&mut self, cycles: u32)
        requires
            ppu_wf(old(self)@),
        ensures
            final(self)@ == ppu_run(old(self)@, cycles as nat),
            ppu_wf(final(self)@),
    {
        if !self.state.lcd_control.has_bit(7) {
            return;
        }
        self.state.hblank = false;
        let ghost start = self@;
        let mut i: u32 = 0;
        while i < cycles
            invariant
                i <= cycles,
                ppu_wf(self@),
                self@ == ppu_ticks(start, i as nat),
            decreases cycles - i,
        {
            self.tick();
            i = i + 1;
        }
    }

    pub fn get_octet(&self, addr: u16) -> (r: u8)
        requires
            ppu_wf(self@),
        ensures
            r == ppu_read(self@, addr),
    {
        let s = self.state;
        if 0x8000 <= addr && addr < 0xA000 {
            self.vram[s.vram_bank as usize * 0x2000 + (addr - 0x8000) as usize]
        } else if 0xFE00 <= addr && addr < 0xFEA0 {
            self.oam[(addr - 0xFE00) as usize]
        } else if addr == 0xFF40 {
            s.lcd_control.data
        } else if addr == 0xFF41 {
            let st = s.lcd_status;
            (if st.lyc_interrupt_enabled { 0x40u8 } else { 0u8 }) | (if st.m2_oam_interrupt_enabled {
                0x20u8
            } else {
                0u8
            }) | (if st.m1_vblank_interrupt_enabled { 0x10u8 } else { 0u8 }) | (
            if st.m0_hblank_interrupt_enabled {
                0x08u8
            } else {
                0u8
            }) | (if s.lcdc_y == s.ly_compare { 0x04u8 } else { 0u8 }) | st.mode
        } else if addr == 0xFF42 {
            s.scroll_y
        } else if addr == 0xFF43 {
            s.scroll_x
        } else if addr == 0xFF44 {
            s.lcdc_y
        } else if addr == 0xFF45 {
            s.ly_compare
        } else if addr == 0xFF47 {
            s.bg_palette
        } else if addr == 0xFF48 {
            s.object_pallete_0
        } else if addr == 0xFF49 {
            s.object_pallete_1
        } else if addr == 0xFF4A {
            s.window_y
        } else if addr == 0xFF4B {
            s.window_x
        } else if addr == 0xFF4F {
            0xFE | s.vram_bank
        } else {
            0
        }
    }

    /// Blanks the buffer to the idle shade.
    fn blank(&mut self)
        requires
            ppu_wf(old(self)@),
        ensures
            final(self)@ == (PpuView { data: Seq::new(SCREEN_PIXELS as nat, |i: int| grey(0xFF)), ..old(self)@ }),
            ppu_wf(final(self)@),
    {
        let ghost v0 = self@;
        let mut i: usize = 0;
        while i < SCREEN_PIXELS
            invariant
                i <= SCREEN_PIXELS,
                ppu_wf(self@),
                self.state == v0.state,
                self.vram@ == v0.vram,
                self.oam@ == v0.oam,
                self.priorities@ == v0.priorities,
                forall|j: int| 0 <= j < SCREEN_PIXELS ==> #[trigger] self.data@[j] == if j < i {
                    grey(0xFF)
                } else {
                    v0.data[j]
                },
            decreases SCREEN_PIXELS - i,
        {
            self.data.set(i, Pixel::new());
            i = i + 1;
        }
        assert(self.data@ =~= Seq::new(SCREEN_PIXELS as nat, |i: int| grey(0xFF)));
    }

    pub fn set_octet(&mut self, addr: u16, value: u8)
        requires
            ppu_wf(old(self)@),
        ensures
            final(self)@ == ppu_write(old(self)@, addr, value),
            ppu_wf(final(self)@),
    {
        if 0x8000 <= addr && addr < 0xA000 {
            let i = self.state.vram_bank as usize * 0x2000 + (addr - 0x8000) as usize;
            self.vram.set(i, value);
        } else if 0xFE00 <= addr && addr < 0xFEA0 {
            self.oam.set((addr - 0xFE00) as usize, value);
        } else if addr == 0xFF40 {
            self.state.lcd_control.data = value;
            if !self.state.lcd_control.has_bit(7) {
                self.state.dots = 0;
                self.state.lcdc_y = 0;
                self.state.lcd_status.mode = 2;
                self.blank();
                self.state.vblank = true;
            }
        } else if addr == 0xFF41 {
            self.state.lcd_status.lyc_interrupt_enabled = value & 0x40 != 0;
            self.state.lcd_status.m2_oam_interrupt_enabled = value & 0x20 != 0;
            self.state.lcd_status.m1_vblank_interrupt_enabled = value & 0x10 != 0;
            self.state.lcd_status.m0_hblank_interrupt_enabled = value & 0x08 != 0;
        } else if addr == 0xFF42 {
            self.state.scroll_y = value;
        } else if addr == 0xFF43 {
            self.state.scroll_x = value;
        } else if addr == 0xFF45 {
            self.state.ly_compare = value;
        } else if addr == 0xFF47 {
            self.state.bg_palette = value;
        } else if addr == 0xFF48 {
            self.state.object_pallete_0 = value;
        } else if addr == 0xFF49 {
            self.state.object_pallete_1 = value;
        } else if addr == 0xFF4A {
            self.state.window_y = value;
        } else if addr == 0xFF4B {
            self.state.window_x = value;
        } else if addr == 0xFF4F {
            assert(value & 0x01 <= 1) by (bit_vector);
            self.state.vram_bank = value & 0x01;
        }
    }
}

} // verus!
