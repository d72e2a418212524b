use gameboy::cartouches::{self, get_taille_ram, Cartouche, CartridgeError};
use gameboy::cpu::{Cpu, CpuError};
use gameboy::joypad::JoypadKey;
use gameboy::mmu::Mmu;
use gameboy::ppu::Ppu;
use gameboy::{Gameboy, GameboyButton};

fn rom_with(cart_type: u8, ram_size: u8, len: usize, program: &[u8]) -> Vec<u8> {
    let mut rom = vec![0u8; len];
    rom[0x147] = cart_type;
    rom[0x149] = ram_size;
    for (i, b) in program.iter().enumerate() {
        rom[0x100 + i] = *b;
    }
    rom
}

fn cpu_with(program: &[u8]) -> Cpu {
    let cart = cartouches::new(rom_with(0x00, 0x00, 0x8000, program)).unwrap();
    Cpu::new(Mmu::new(cart))
}

#[test]
fn load_immediate_then_add_immediate() {
    let mut g = Gameboy::new(rom_with(0x00, 0x00, 0x8000, &[0x3E, 0x05, 0xC6, 0x03])).unwrap();
    assert_eq!(g.step(), Ok(8));
    assert_eq!(g.step(), Ok(8));
    assert_eq!(g.cpu.cpu.registres.a, 8);
    assert_eq!(g.cpu.cpu.registres.flags, 0);
    assert_eq!(g.cpu.cpu.registres.pc, 0x104);
}

#[test]
fn fixed_mapping_cartridge_reads_rom_and_ignores_writes() {
    let mut rom = rom_with(0x00, 0x00, 0x8000, &[]);
    for i in 0..0x8000usize {
        if i != 0x147 && i != 0x149 {
            rom[i] = (i % 251) as u8;
        }
    }
    let mut mmu = Mmu::new(cartouches::new(rom.clone()).unwrap());
    for addr in [0x0000u16, 0x0100, 0x0147, 0x3FFF, 0x4000, 0x5555, 0x7FFF] {
        assert_eq!(mmu.get_octet(addr), rom[addr as usize]);
    }
    for (addr, v) in [(0x0000u16, 0x0Au8), (0x2000, 0x05), (0x4000, 0x03), (0x6000, 0x01), (0x7FFF, 0xAA)] {
        mmu.set_octet(addr, v);
    }
    for addr in [0x0000u16, 0x2000, 0x4000, 0x6000, 0x7FFF] {
        assert_eq!(mmu.get_octet(addr), rom[addr as usize]);
    }
}

#[test]
fn disabling_display_blanks_and_resets() {
    let mut ppu = Ppu::new();
    ppu.set_octet(0xFF47, 0xFF);
    ppu.set_octet(0xFF40, 0x91);
    ppu.run_cycles(456 * 3 + 300);
    assert_eq!(ppu.get_octet(0xFF44), 3);
    assert_eq!(ppu.data[0].r, 0x00);
    ppu.set_octet(0xFF40, 0x11);
    assert!(ppu.data.iter().all(|p| p.r == 0xFF && p.g == 0xFF && p.b == 0xFF));
    assert_eq!(ppu.get_octet(0xFF44), 0);
    assert_eq!(ppu.state.dots, 0);
    assert_eq!(ppu.state.lcd_status.mode, 2);
    assert!(ppu.state.vblank);
    ppu.run_cycles(1000);
    assert_eq!(ppu.state.dots, 0);
}

fn flags(z: bool, n: bool, h: bool, c: bool) -> u8 {
    (if z { 0x80 } else { 0 }) | (if n { 0x40 } else { 0 }) | (if h { 0x20 } else { 0 }) | (if c { 0x10 } else { 0 })
}

#[test]
fn alu_flags_match_truth_table() {
    let mut cpu = cpu_with(&[]);
    for a in 0..256u32 {
        for v in 0..256u32 {
            for cin in 0..2u32 {
                let fin = if cin == 1 { 0x10 } else { 0 };
                cpu.registres.a = a as u8;
                cpu.registres.flags = fin;
                cpu.inst_alu_adc(v as u8);
                let s = a + v + cin;
                assert_eq!(cpu.registres.a, (s % 256) as u8);
                assert_eq!(cpu.registres.flags, flags(s % 256 == 0, false, (a % 16) + (v % 16) + cin > 15, s > 255));

                cpu.registres.a = a as u8;
                cpu.registres.flags = fin;
                cpu.inst_alu_sbc(v as u8);
                let d = a as i32 - v as i32 - cin as i32;
                assert_eq!(cpu.registres.a, d.rem_euclid(256) as u8);
                assert_eq!(
                    cpu.registres.flags,
                    flags(d.rem_euclid(256) == 0, true, ((a % 16) as i32) < (v % 16 + cin) as i32, d < 0)
                );
            }
            cpu.registres.a = a as u8;
            cpu.registres.flags = 0x10;
            cpu.inst_alu_add(v as u8);
            assert_eq!(cpu.registres.flags, flags((a + v) % 256 == 0, false, a % 16 + v % 16 > 15, a + v > 255));

            cpu.registres.a = a as u8;
            cpu.registres.flags = 0;
            cpu.inst_alu_cp(v as u8);
            assert_eq!(cpu.registres.a, a as u8);
            assert_eq!(cpu.registres.flags, flags(a == v, true, a % 16 < v % 16, a < v));

            cpu.registres.a = a as u8;
            cpu.inst_alu_and(v as u8);
            assert_eq!(cpu.registres.flags, flags(a & v == 0, false, true, false));
            cpu.registres.a = a as u8;
            cpu.inst_alu_xor(v as u8);
            assert_eq!(cpu.registres.flags, flags(a ^ v == 0, false, false, false));
            cpu.registres.a = a as u8;
            cpu.inst_alu_or(v as u8);
            assert_eq!(cpu.registres.flags, flags(a | v == 0, false, false, false));
        }
        cpu.registres.flags = 0x10;
        let r = cpu.inst_alu_inc(a as u8);
        assert_eq!(r, ((a + 1) % 256) as u8);
        assert_eq!(cpu.registres.flags, flags((a + 1) % 256 == 0, false, a % 16 == 15, true));
        cpu.registres.flags = 0;
        let r = cpu.inst_alu_dec(a as u8);
        assert_eq!(r, ((a + 255) % 256) as u8);
        assert_eq!(cpu.registres.flags, flags((a + 255) % 256 == 0, true, a % 16 == 0, false));
    }
}

#[test]
fn push_then_pop_restores_value_and_stack_pointer() {
    let mut cpu = cpu_with(&[]);
    for sp in [0xFFFEu16, 0xD000, 0xC002, 0xE100] {
        cpu.registres.sp = sp;
        cpu.add_to_stack(0xBEEF);
        assert_eq!(cpu.registres.sp, sp.wrapping_sub(2));
        assert_eq!(cpu.pop_stack(), 0xBEEF);
        assert_eq!(cpu.registres.sp, sp);
    }
}

#[test]
fn io_register_reads_are_stable() {
    let mut mmu = Mmu::new(cartouches::new(rom_with(0x00, 0x00, 0x8000, &[])).unwrap());
    mmu.set_octet(0xFF00, 0x20);
    mmu.joypad.keydown(JoypadKey::Down);
    mmu.run_cycles(300);
    for addr in [0xFF00u16, 0xFF04, 0xFF05, 0xFF0F, 0xFF40, 0xFF41, 0xFF44, 0xFF47, 0xFF4D, 0xFFFF] {
        let first = mmu.get_octet(addr);
        assert_eq!(mmu.get_octet(addr), first);
    }
    assert_eq!(mmu.get_octet(0xFF00), 0x20 | 0x07);
}

#[test]
fn scanline_and_dot_counters_wrap() {
    let mut ppu = Ppu::new();
    ppu.set_octet(0xFF40, 0x80);
    ppu.run_cycles(455);
    assert_eq!(ppu.state.dots, 455);
    assert_eq!(ppu.state.lcdc_y, 0);
    ppu.run_cycles(1);
    assert_eq!(ppu.state.dots, 0);
    assert_eq!(ppu.state.lcdc_y, 1);
    ppu.run_cycles(456 * 152);
    assert_eq!(ppu.state.lcdc_y, 153);
    assert_eq!(ppu.state.lcd_status.mode, 1);
    ppu.run_cycles(456);
    assert_eq!(ppu.state.lcdc_y, 0);
    assert_eq!(ppu.state.dots, 0);
    assert_eq!(ppu.state.lcd_status.mode, 2);
}

#[test]
fn rom_bank_selection_wraps_to_physical_banks() {
    let mut rom = vec![0u8; 4 * 0x4000];
    for bank in 0..4usize {
        for i in 0..0x4000usize {
            rom[bank * 0x4000 + i] = bank as u8 + 0x10;
        }
    }
    rom[0x147] = 0x01;
    let mut cart = cartouches::new(rom).unwrap();
    assert_eq!(cart.get_octet(0x4000), 0x11);
    cart.set_octet(0x2000, 2);
    assert_eq!(cart.get_octet(0x4123), 0x12);
    cart.set_octet(0x2000, 6);
    assert_eq!(cart.get_octet(0x4000), 0x12);
    cart.set_octet(0x2000, 0);
    assert_eq!(cart.get_octet(0x7FFF), 0x11);
    cart.set_octet(0x2000, 0x80);
    assert_eq!(cart.get_octet(0x4000), 0x11);
}

#[test]
fn lowest_pending_interrupt_is_serviced_first() {
    let mut cpu = cpu_with(&[]);
    cpu.ei = true;
    cpu.registres.pc = 0x1234;
    cpu.memoire.set_octet(0xFFFF, 0xFF);
    cpu.memoire.set_octet(0xFF0F, 0x14);
    assert_eq!(cpu.gerer_interruptions(), 4);
    assert_eq!(cpu.registres.pc, 0x50);
    assert_eq!(cpu.memoire.get_octet(0xFF0F), 0x10);
    assert!(!cpu.ei);
    assert_eq!(cpu.registres.sp, 0xFFFC);
    assert_eq!(cpu.pop_stack(), 0x1234);
    assert_eq!(cpu.gerer_interruptions(), 0);
    cpu.ei = true;
    assert_eq!(cpu.gerer_interruptions(), 4);
    assert_eq!(cpu.registres.pc, 0x60);
    assert_eq!(cpu.memoire.get_octet(0xFF0F), 0x00);
}

#[test]
fn halted_cpu_wakes_without_service_when_disabled() {
    let mut cpu = cpu_with(&[]);
    cpu.halted = true;
    cpu.memoire.set_octet(0xFFFF, 0x01);
    cpu.memoire.set_octet(0xFF0F, 0x01);
    assert_eq!(cpu.gerer_interruptions(), 0);
    assert!(!cpu.halted);
    assert_eq!(cpu.registres.pc, 0x100);
}

#[test]
fn invalid_opcode_is_reported_with_its_address() {
    let mut g = Gameboy::new(rom_with(0x00, 0x00, 0x8000, &[0x00, 0xD3])).unwrap();
    assert_eq!(g.step(), Ok(4));
    assert_eq!(g.step(), Err(CpuError::InvalidOpcode { opcode: 0xD3, pc: 0x101 }));
}

#[test]
fn cartridge_header_errors() {
    assert!(matches!(Gameboy::new(vec![0u8; 0x100]), Err(CartridgeError::MissingHeader)));
    assert!(matches!(cartouches::new(rom_with(0x42, 0, 0x8000, &[])), Err(CartridgeError::UnsupportedType(0x42))));
    assert!(matches!(cartouches::new(rom_with(0x03, 0x09, 0x8000, &[])), Err(CartridgeError::UnsupportedRamSize(0x09))));
    assert!(matches!(cartouches::new(rom_with(0x03, 0x02, 0x8000, &[])), Ok(Cartouche::Mbc(_))));
    assert!(matches!(cartouches::new(rom_with(0x00, 0x09, 0x8000, &[])), Ok(Cartouche::RomOnly(_))));
    let sizes = [(0u8, 0usize), (1, 2048), (2, 8192), (3, 32768), (4, 131072), (5, 65536)];
    for (byte, size) in sizes {
        assert_eq!(get_taille_ram(&rom_with(0x03, byte, 0x200, &[])), Ok(size));
    }
    assert_eq!(get_taille_ram(&rom_with(0x03, 6, 0x200, &[])), Err(CartridgeError::UnsupportedRamSize(6)));
}

#[test]
fn banked_ram_needs_enable() {
    let mut cart = cartouches::new(rom_with(0x03, 0x03, 0x8000, &[])).unwrap();
    cart.set_octet(0xA000, 0x42);
    assert_eq!(cart.get_octet(0xA000), 0x00);
    cart.set_octet(0x0000, 0x0A);
    cart.set_octet(0xA000, 0x42);
    assert_eq!(cart.get_octet(0xA000), 0x42);
    cart.set_octet(0x4000, 0x01);
    assert_eq!(cart.get_octet(0xA000), 0x00);
    cart.set_octet(0x4000, 0x04);
    assert_eq!(cart.get_octet(0xA000), 0x42);
    cart.set_octet(0x0000, 0x00);
    assert_eq!(cart.get_octet(0xA000), 0x00);
}

#[test]
fn timer_overflow_reloads_and_requests_interrupt() {
    let mut mmu = Mmu::new(cartouches::new(rom_with(0x00, 0x00, 0x8000, &[])).unwrap());
    mmu.set_octet(0xFF06, 0x10);
    mmu.set_octet(0xFF05, 0xFE);
    mmu.set_octet(0xFF07, 0x04);
    mmu.run_cycles(1);
    assert_eq!(mmu.get_octet(0xFF05), 0xFF);
    assert_eq!(mmu.get_octet(0xFF0F) & 0x04, 0);
    mmu.run_cycles(1);
    assert_eq!(mmu.get_octet(0xFF05), 0x10);
    assert_eq!(mmu.get_octet(0xFF0F) & 0x04, 0x04);
    mmu.run_cycles(512);
    assert_eq!(mmu.get_octet(0xFF04), 2);
    mmu.set_octet(0xFF04, 0x77);
    assert_eq!(mmu.get_octet(0xFF04), 0);
    mmu.set_octet(0xFF07, 0xFF);
    assert_eq!(mmu.get_octet(0xFF07), 0xFF);
    mmu.set_octet(0xFF07, 0xFB);
    assert_eq!(mmu.get_octet(0xFF07), 0xFB);
    let before = mmu.get_octet(0xFF05);
    mmu.run_cycles(10);
    assert_eq!(mmu.get_octet(0xFF05), before);
}

#[test]
fn joypad_groups_and_interrupt() {
    let mut g = Gameboy::new(rom_with(0x00, 0x00, 0x8000, &[])).unwrap();
    g.gerer_keydown(GameboyButton::A);
    g.gerer_keydown(GameboyButton::Left);
    assert_eq!(g.cpu.cpu.memoire.joypad.interrupt, 0x10);
    g.cpu.cpu.memoire.set_octet(0xFF00, 0x10);
    assert_eq!(g.cpu.cpu.memoire.get_octet(0xFF00), 0x10 | 0x0E);
    g.cpu.cpu.memoire.set_octet(0xFF00, 0x20);
    assert_eq!(g.cpu.cpu.memoire.get_octet(0xFF00), 0x20 | 0x0D);
    g.gerer_keyup(GameboyButton::Left);
    assert_eq!(g.cpu.cpu.memoire.get_octet(0xFF00), 0x20 | 0x0F);
    g.cpu.cpu.memoire.run_cycles(4);
    assert_eq!(g.cpu.cpu.memoire.get_octet(0xFF0F) & 0x10, 0x10);
}

#[test]
fn dma_copies_into_object_table() {
    let mut mmu = Mmu::new(cartouches::new(rom_with(0x00, 0x00, 0x8000, &[])).unwrap());
    for i in 0..0xA0u16 {
        mmu.set_octet(0xC100 + i, (i * 3) as u8);
    }
    mmu.set_octet(0xFF46, 0xC1);
    for i in 0..0xA0u16 {
        assert_eq!(mmu.get_octet(0xFE00 + i), (i * 3) as u8);
    }
}

#[test]
fn conditional_jump_costs_more_when_taken() {
    let mut g = Gameboy::new(rom_with(0x00, 0x00, 0x8000, &[0xAF, 0x20, 0x05, 0x28, 0x05])).unwrap();
    assert_eq!(g.step(), Ok(4));
    assert_eq!(g.step(), Ok(8));
    assert_eq!(g.cpu.cpu.registres.pc, 0x103);
    assert_eq!(g.step(), Ok(12));
    assert_eq!(g.cpu.cpu.registres.pc, 0x10A);
}

#[test]
fn extended_opcodes_swap_and_test_bits() {
    let mut cpu = cpu_with(&[0xCB, 0x37, 0xCB, 0x7F, 0xCB, 0xC7]);
    cpu.registres.a = 0x1E;
    assert_eq!(cpu.run(), Ok(8));
    assert_eq!(cpu.registres.a, 0xE1);
    assert_eq!(cpu.registres.flags, 0x00);
    assert_eq!(cpu.run(), Ok(8));
    assert_eq!(cpu.registres.flags, 0x20);
    assert_eq!(cpu.run(), Ok(8));
    assert_eq!(cpu.registres.a, 0xE1);
}

#[test]
fn call_and_return_through_the_stack() {
    let mut cpu = cpu_with(&[0xCD, 0x10, 0x01, 0x00]);
    cpu.memoire.set_octet(0xC000, 0x00);
    assert_eq!(cpu.run(), Ok(24));
    assert_eq!(cpu.registres.pc, 0x110);
    assert_eq!(cpu.registres.sp, 0xFFFC);
    assert_eq!(cpu.pop_stack(), 0x103);
}

#[test]
fn speed_switch_needs_staging() {
    let mut mmu = Mmu::new(cartouches::new(rom_with(0x00, 0x00, 0x8000, &[])).unwrap());
    mmu.perform_vitesse_switch();
    assert_eq!(mmu.get_octet(0xFF4D), 0x00);
    mmu.set_octet(0xFF4D, 0x01);
    assert_eq!(mmu.get_octet(0xFF4D), 0x01);
    mmu.perform_vitesse_switch();
    assert_eq!(mmu.get_octet(0xFF4D), 0x80);
    assert_eq!(mmu.run_cycles(8), 4);
}

#[test]
fn pacing_flag_rises_once_per_quantum() {
    let mut g = Gameboy::new(rom_with(0x00, 0x00, 0x8000, &[0x18, 0xFE])).unwrap();
    assert!(!g.can_take_input());
    let mut total: u32 = 0;
    while total <= 67108 {
        total += g.step().unwrap();
    }
    assert!(!g.can_take_input());
    g.step().unwrap();
    assert!(g.can_take_input());
    assert!(!g.can_take_input());
    assert_eq!(g.get_screen_dimension(), [160, 144]);
    assert_eq!(g.get_screen_data().len(), 160 * 144);
}

fn line_shades(ppu: &Ppu, line: usize, from: usize, to: usize) -> Vec<u8> {
    (from..to).map(|x| ppu.data[line * 160 + x].r).collect()
}

fn ppu_with_tile() -> Ppu {
    let mut ppu = Ppu::new();
    ppu.set_octet(0x8010, 0xF0);
    ppu.set_octet(0x8011, 0xCC);
    ppu.set_octet(0xFF47, 0xE4);
    ppu.set_octet(0xFF48, 0xE4);
    ppu
}

#[test]
fn background_tile_row_is_decoded_through_the_palette() {
    let mut ppu = ppu_with_tile();
    ppu.set_octet(0x9800, 0x01);
    ppu.set_octet(0xFF40, 0x91);
    ppu.run_cycles(260);
    assert_eq!(ppu.state.lcd_status.mode, 0);
    assert_eq!(line_shades(&ppu, 0, 0, 9), vec![0x00, 0x00, 0xC0, 0xC0, 0x60, 0x60, 0xFF, 0xFF, 0xFF]);
    assert_eq!(ppu.priorities[0], (false, 3));
    assert_eq!(ppu.priorities[6], (false, 0));
}

#[test]
fn background_scroll_moves_the_picture() {
    let mut ppu = ppu_with_tile();
    ppu.set_octet(0x9800, 0x01);
    ppu.set_octet(0xFF43, 2);
    ppu.set_octet(0xFF40, 0x91);
    ppu.run_cycles(260);
    assert_eq!(line_shades(&ppu, 0, 0, 7), vec![0xC0, 0xC0, 0x60, 0x60, 0xFF, 0xFF, 0xFF]);
}

#[test]
fn sprite_is_drawn_over_a_blank_background() {
    let mut ppu = ppu_with_tile();
    ppu.set_octet(0xFE00, 16);
    ppu.set_octet(0xFE01, 8 + 2);
    ppu.set_octet(0xFE02, 1);
    ppu.set_octet(0xFE03, 0x00);
    ppu.set_octet(0xFF40, 0x93);
    ppu.run_cycles(260);
    assert_eq!(
        line_shades(&ppu, 0, 0, 11),
        vec![0xFF, 0xFF, 0x00, 0x00, 0xC0, 0xC0, 0x60, 0x60, 0xFF, 0xFF, 0xFF]
    );
}

#[test]
fn sprite_flip_and_background_priority() {
    let mut ppu = ppu_with_tile();
    ppu.set_octet(0xFE00, 16);
    ppu.set_octet(0xFE01, 8);
    ppu.set_octet(0xFE02, 1);
    ppu.set_octet(0xFE03, 0x20);
    ppu.set_octet(0xFF40, 0x93);
    ppu.run_cycles(260);
    assert_eq!(line_shades(&ppu, 0, 0, 8), vec![0xFF, 0xFF, 0x60, 0x60, 0xC0, 0xC0, 0x00, 0x00]);

    let mut ppu = ppu_with_tile();
    ppu.set_octet(0x9800, 0x01);
    ppu.set_octet(0xFF49, 0x00);
    ppu.set_octet(0xFE00, 16);
    ppu.set_octet(0xFE01, 8 + 4);
    ppu.set_octet(0xFE02, 1);
    ppu.set_octet(0xFE03, 0x80 | 0x10);
    ppu.set_octet(0xFF40, 0x93);
    ppu.run_cycles(260);
    assert_eq!(
        line_shades(&ppu, 0, 0, 12),
        vec![0x00, 0x00, 0xC0, 0xC0, 0x60, 0x60, 0xFF, 0xFF, 0xFF, 0xFF, 0xFF, 0xFF]
    );
}

#[test]
fn status_register_reports_mode_and_compare_match() {
    let mut ppu = Ppu::new();
    ppu.set_octet(0xFF41, 0x78);
    ppu.set_octet(0xFF45, 0x01);
    ppu.set_octet(0xFF40, 0x80);
    assert_eq!(ppu.get_octet(0xFF41), 0x78 | 0x02);
    ppu.run_cycles(456);
    assert_eq!(ppu.get_octet(0xFF44), 1);
    assert_eq!(ppu.get_octet(0xFF41), 0x78 | 0x04 | 0x02);
    assert_eq!(ppu.state.interrupt & 0x02, 0x02);
    ppu.run_cycles(456 * 143);
    assert_eq!(ppu.state.interrupt & 0x01, 0x01);
    assert!(ppu.state.vblank);
}
