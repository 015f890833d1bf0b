//! End-to-end and unit tests of the emulator core: cartridge loading and
//! banking, the CPU's flag algebra, bus routing round trips, OAM DMA, the
//! timer, the picture unit's frame timing, and the instruction decoder.

use rsgb::cartridge::{Cartridge, LoadError};
use rsgb::cpu::CPU;
use rsgb::gamepad::{GamePad, Key};
use rsgb::instruction::{Addressing, Instruction, OpCode, OpCodeCB};
use rsgb::mmu::MMU;
use rsgb::ppu::{RGB24Color, PPU};
use rsgb::serial::Serial;
use rsgb::timer::Timer;

/// A valid 32 KiB cartridge image with the given bytes patched in and a
/// correct header checksum.
fn build_rom(patches: &[(usize, u8)]) -> Vec<u8> {
    build_rom_sized(0, patches)
}

/// A valid cartridge image with ROM-size code `size_code`.
fn build_rom_sized(size_code: u8, patches: &[(usize, u8)]) -> Vec<u8> {
    let len = 32768usize << size_code;
    let mut rom = vec![0u8; len];
    rom[0x0147] = 0x01;
    rom[0x0148] = size_code;
    rom[0x0149] = 0x03;
    for &(addr, v) in patches {
        rom[addr] = v;
    }
    let mut chk: u8 = 0;
    for i in 0x0134..0x014D {
        chk = chk.wrapping_sub(rom[i]).wrapping_sub(1);
    }
    rom[0x014D] = chk;
    rom
}

#[test]
fn load_rejects_corrupt_checksum() {
    let mut rom = build_rom(&[]);
    rom[0x014D] = rom[0x014D].wrapping_add(1);
    let r = Cartridge::new(rom);
    assert_eq!(r.err(), Some(LoadError::ChecksumMismatch));
}

#[test]
fn load_rejects_corrupt_checksum_before_any_instruction() {
    let mut rom = build_rom(&[(0x0100, 0x3E)]);
    rom[0x0140] = rom[0x0140].wrapping_add(1);
    let r = CPU::new(Vec::new(), rom);
    assert!(r.is_err());
}

#[test]
fn load_rejects_length_mismatch() {
    let mut rom = build_rom(&[]);
    rom[0x0148] = 1;
    let mut chk: u8 = 0;
    for i in 0x0134..0x014D {
        chk = chk.wrapping_sub(rom[i]).wrapping_sub(1);
    }
    rom[0x014D] = chk;
    let r = Cartridge::new(rom);
    assert_eq!(r.err(), Some(LoadError::LengthMismatch));
}

#[test]
fn load_rejects_short_image() {
    let r = Cartridge::new(vec![0u8; 0x100]);
    assert_eq!(r.err(), Some(LoadError::HeaderTooShort));
}

#[test]
fn load_rejects_bad_size_codes() {
    let mut rom = build_rom(&[]);
    rom[0x0148] = 9;
    assert_eq!(Cartridge::new(rom).err(), Some(LoadError::InvalidRomSize));
    let mut rom2 = build_rom(&[]);
    rom2[0x0149] = 6;
    assert_eq!(Cartridge::new(rom2).err(), Some(LoadError::InvalidRamSize));
}

#[test]
fn load_accepts_valid_image() {
    let rom = build_rom(&[(0x0143, 0x80)]);
    let cart = Cartridge::new(rom).unwrap();
    assert_eq!(cart.get_cgb_mode(), 0x80);
    assert_eq!(cart.num_rom_banks, 2);
    assert_eq!(cart.ram.len(), 32768);
}

#[test]
fn bank_zero_resolves_to_bank_one() {
    let rom = build_rom_sized(2, &[]);
    let mut cart = Cartridge::new(rom).unwrap();
    cart.write(0x2000, 0);
    assert_eq!(cart.rom_bank_no(), 1);
}

#[test]
fn bank_select_wraps_modulo_bank_count() {
    // 8 banks: requesting bank 9 wraps to bank 1.
    let rom = build_rom_sized(2, &[]);
    let mut cart = Cartridge::new(rom).unwrap();
    cart.write(0x2000, 9);
    assert_eq!(cart.rom_bank_no(), 9 % 8);
}

#[test]
fn bank_remap_quirk_applies_to_aliases() {
    // 128 banks: upper=1/lower=0 requests bank 0x20, which aliases to 0x21.
    let rom = build_rom_sized(6, &[]);
    let mut cart = Cartridge::new(rom).unwrap();
    cart.write(0x2000, 0);
    cart.write(0x4000, 1);
    assert_eq!(cart.rom_bank_no(), 0x21);
}

#[test]
fn banked_rom_read_uses_selected_bank() {
    let rom = build_rom_sized(2, &[(2 * 16384 + 0x123, 0xAB)]);
    let mut cart = Cartridge::new(rom).unwrap();
    cart.write(0x2000, 2);
    assert_eq!(cart.read(0x4123), 0xAB);
}

#[test]
fn cartridge_ram_needs_enable_latch() {
    let rom = build_rom(&[]);
    let mut cart = Cartridge::new(rom).unwrap();
    cart.write(0xA000, 0x55);
    assert_eq!(cart.read(0xA000), 0xFF);
    cart.write(0x0000, 0x0A);
    cart.write(0xA000, 0x55);
    assert_eq!(cart.read(0xA000), 0x55);
    cart.write(0x0000, 0x00);
    assert_eq!(cart.read(0xA000), 0xFF);
}

#[test]
fn accumulator_overflow_sets_zero_carry_half_flags() {
    // LD A, 0xFF; ADD 0x01 -> A == 0, Z/C/H set, N clear.
    let rom = build_rom(&[(0x0100, 0x3E), (0x0101, 0xFF), (0x0102, 0xC6), (0x0103, 0x01)]);
    let mut cpu = CPU::new(Vec::new(), rom).unwrap();
    let t1 = cpu.step();
    assert_eq!(t1, 8);
    assert_eq!(cpu.reg_a, 0xFF);
    let t2 = cpu.step();
    assert_eq!(t2, 8);
    assert_eq!(cpu.reg_a, 0x00);
    assert_eq!(cpu.reg_f & 0x80, 0x80);
    assert_eq!(cpu.reg_f & 0x40, 0x00);
    assert_eq!(cpu.reg_f & 0x20, 0x20);
    assert_eq!(cpu.reg_f & 0x10, 0x10);
}

#[test]
fn subtraction_flags_follow_borrow_formulas() {
    // LD A, 0x10; SUB 0x01 -> A == 0x0F, N set, H set (borrow into bit 4).
    let rom = build_rom(&[(0x0100, 0x3E), (0x0101, 0x10), (0x0102, 0xD6), (0x0103, 0x01)]);
    let mut cpu = CPU::new(Vec::new(), rom).unwrap();
    cpu.step();
    cpu.step();
    assert_eq!(cpu.reg_a, 0x0F);
    assert_eq!(cpu.reg_f & 0x40, 0x40);
    assert_eq!(cpu.reg_f & 0x20, 0x20);
    assert_eq!(cpu.reg_f & 0x10, 0x00);
    assert_eq!(cpu.reg_f & 0x80, 0x00);
}

#[test]
fn decimal_adjust_corrects_bcd_sum() {
    // LD A, 0x15; ADD 0x27; DAA -> 0x15 + 0x27 == 0x3C, adjusted to 0x42.
    let rom = build_rom(&[
        (0x0100, 0x3E),
        (0x0101, 0x15),
        (0x0102, 0xC6),
        (0x0103, 0x27),
        (0x0104, 0x27),
    ]);
    let mut cpu = CPU::new(Vec::new(), rom).unwrap();
    cpu.step();
    cpu.step();
    assert_eq!(cpu.reg_a, 0x3C);
    cpu.step();
    assert_eq!(cpu.reg_a, 0x42);
}

#[test]
fn undefined_opcode_latches_fault() {
    let rom = build_rom(&[(0x0100, 0xD3)]);
    let mut cpu = CPU::new(Vec::new(), rom).unwrap();
    assert!(!cpu.fault);
    cpu.step();
    assert!(cpu.fault);
    let t = cpu.step();
    assert_eq!(t, 0);
}

#[test]
fn interrupt_service_jumps_to_vector() {
    let rom = build_rom(&[]);
    let mut cpu = CPU::new(Vec::new(), rom).unwrap();
    cpu.ime = true;
    cpu.halted = true;
    cpu.sp = 0xFFFE;
    cpu.mmu.int_enable = 0x04;
    cpu.mmu.int_flag = 0x04;
    let t = cpu.step();
    assert_eq!(cpu.pc, 0x50);
    assert!(!cpu.ime);
    assert!(!cpu.halted);
    assert_eq!(cpu.sp, 0xFFFC);
    assert_eq!(cpu.mmu.int_flag & 0x04, 0);
    assert_eq!(t, 24);
}

#[test]
fn ram_round_trip_work_and_high_ram() {
    let rom = build_rom(&[]);
    let mut mmu = MMU::new(Vec::new(), rom).unwrap();
    mmu.write(0xC123, 0x5A);
    assert_eq!(mmu.read(0xC123), 0x5A);
    // The echo region mirrors work RAM.
    assert_eq!(mmu.read(0xE123), 0x5A);
    mmu.write(0xFF85, 0xA5);
    assert_eq!(mmu.read(0xFF85), 0xA5);
    mmu.write(0x8010, 0x3C);
    assert_eq!(mmu.read(0x8010), 0x3C);
}

#[test]
fn oam_blocked_outside_blank_modes() {
    let rom = build_rom(&[]);
    let mut mmu = MMU::new(Vec::new(), rom).unwrap();
    // The picture unit starts in OAM search (mode 2): stores are dropped and
    // reads return all ones.
    mmu.write(0xFE00, 0x77);
    assert_eq!(mmu.read(0xFE00), 0xFF);
    // With the LCD switched off the machine sits in H-blank: OAM is open.
    mmu.write(0xFF40, 0x00);
    mmu.write(0xFE00, 0x77);
    assert_eq!(mmu.read(0xFE00), 0x77);
}

#[test]
fn vram_blocked_during_pixel_transfer() {
    let mut ppu = PPU::new();
    // From OAM search, 80 cycles enter pixel transfer (mode 3).
    ppu.update(80);
    assert_eq!(ppu.stat & 0x03, 3);
    ppu.write(0x8000, 0x12);
    assert_eq!(ppu.read(0x8000), 0xFF);
    assert_eq!(ppu.read(0xFE00), 0xFF);
}

#[test]
fn scanline_register_reads_are_stable_within_a_mode() {
    let mut ppu = PPU::new();
    ppu.update(40);
    let first = ppu.read(0xFF44);
    let second = ppu.read(0xFF44);
    assert_eq!(first, second);
    // Another advance that stays inside OAM search keeps the index.
    ppu.update(20);
    assert_eq!(ppu.read(0xFF44), first);
}

#[test]
fn oam_dma_copies_source_page() {
    let rom = build_rom(&[]);
    let mut mmu = MMU::new(Vec::new(), rom).unwrap();
    // Switch the LCD off so OAM accepts the transfer.
    mmu.write(0xFF40, 0x00);
    for i in 0..160u16 {
        mmu.write(0x8000 + i, (i as u8) ^ 0x5A);
    }
    mmu.write(0xFF46, 0x80);
    for i in 0..160u16 {
        assert_eq!(mmu.read(0xFE00 + i), (i as u8) ^ 0x5A);
    }
}

#[test]
fn oam_dma_from_work_ram_page() {
    let rom = build_rom(&[]);
    let mut mmu = MMU::new(Vec::new(), rom).unwrap();
    mmu.write(0xFF40, 0x00);
    for i in 0..160u16 {
        mmu.write(0xC000 + i, i as u8);
    }
    mmu.write(0xFF46, 0xC0);
    for i in 0..160u16 {
        assert_eq!(mmu.read(0xFE00 + i), i as u8);
    }
}

#[test]
fn oam_dma_rejects_out_of_range_page() {
    let rom = build_rom(&[]);
    let mut mmu = MMU::new(Vec::new(), rom).unwrap();
    mmu.write(0xFF40, 0x00);
    mmu.write(0xFE10, 0x33);
    mmu.write(0xFF46, 0x7F);
    assert_eq!(mmu.read(0xFE10), 0x33);
}

#[test]
fn timer_overflow_reloads_modulo_and_requests_interrupt() {
    let mut t = Timer::new();
    t.write(0xFF07, 0x05);
    t.write(0xFF06, 0x42);
    t.write(0xFF05, 0xFF);
    // The fastest divisor ticks the counter every 16 cycles: one full
    // overflow period from 0xFF is 16 cycles.
    t.update(16);
    assert_eq!(t.tima, 0x42);
    assert!(t.irq);
}

#[test]
fn timer_interrupt_reaches_flag_register_on_bus_update() {
    let rom = build_rom(&[]);
    let mut mmu = MMU::new(Vec::new(), rom).unwrap();
    mmu.write(0xFF07, 0x05);
    mmu.write(0xFF06, 0x42);
    mmu.write(0xFF05, 0xFF);
    mmu.update(16);
    assert_eq!(mmu.read(0xFF05), 0x42);
    assert_eq!(mmu.read(0xFF0F) & 0x04, 0x04);
    assert!(!mmu.timer.irq);
}

#[test]
fn divider_is_high_byte_and_write_clears() {
    let mut t = Timer::new();
    t.update(255);
    t.update(255);
    t.update(2);
    assert_eq!(t.read(0xFF04), 2);
    t.write(0xFF04, 0x99);
    assert_eq!(t.read(0xFF04), 0);
}

#[test]
fn one_full_frame_raises_vblank_once_and_wraps_scanline() {
    let mut ppu = PPU::new();
    let frame_cycles: u32 = (80 + 172 + 204) * 144 + 456 * 10;
    let mut vblanks: u32 = 0;
    let mut done: u32 = 0;
    while done < frame_cycles {
        ppu.update(4);
        done += 4;
        if ppu.irq_vblank {
            vblanks += 1;
            ppu.irq_vblank = false;
        }
    }
    assert_eq!(vblanks, 1);
    assert_eq!(ppu.ly, 0);
    assert_eq!(ppu.stat & 0x03, 2);
}

#[test]
fn lyc_coincidence_sets_stat_bit_and_interrupt() {
    let mut ppu = PPU::new();
    // Enable the coincidence interrupt and compare against scanline 1.
    ppu.write(0xFF41, 0x40);
    ppu.write(0xFF45, 0x01);
    let mut cycles: u32 = 0;
    while ppu.read(0xFF44) != 1 {
        ppu.update(4);
        cycles += 4;
        assert!(cycles < 100000);
    }
    assert_eq!(ppu.read(0xFF41) & 0x04, 0x04);
    assert!(ppu.irq_lcdc);
}

#[test]
fn gamepad_selects_direction_and_button_groups() {
    let mut pad = GamePad::new();
    pad.keydown(Key::Up);
    pad.keydown(Key::A);
    assert!(pad.irq);
    // Select the direction group (bit 4 low): Up is bit 2 of the nibble.
    pad.write(0xFF00, 0x20);
    assert_eq!(pad.read(0xFF00) & 0x0F, 0x0B);
    // Select the button group (bit 5 low): A is bit 0.
    pad.write(0xFF00, 0x10);
    assert_eq!(pad.read(0xFF00) & 0x0F, 0x0E);
    pad.keyup(Key::A);
    pad.keyup(Key::Up);
    pad.write(0xFF00, 0x30);
    assert_eq!(pad.read(0xFF00) & 0x30, 0x30);
}

#[test]
fn serial_registers_round_trip_and_request_interrupt() {
    let mut s = Serial::new();
    s.write(0xFF01, 0x77);
    assert_eq!(s.read(0xFF01), 0x77);
    s.write(0xFF02, 0x81);
    s.update(4);
    assert!(s.irq);
    assert!(s.is_start_req);
    s.spi_irq_handler();
    assert!(!s.irq);
    assert_eq!(s.spi_rx(), 0xFF);
}

#[test]
fn color_palette_port_auto_increments() {
    let rom = build_rom(&[]);
    let mut mmu = MMU::new(Vec::new(), rom).unwrap();
    // Index 2 with auto-increment on.
    mmu.write(0xFF68, 0x82);
    mmu.write(0xFF69, 0x11);
    mmu.write(0xFF69, 0x22);
    assert_eq!(mmu.cgb.bg_color_palette[2], 0x11);
    assert_eq!(mmu.cgb.bg_color_palette[3], 0x22);
    assert_eq!(mmu.read(0xFF68), 0x84);
}

#[test]
fn rgb555_widens_each_channel() {
    let ppu = PPU::new();
    let c = ppu.rgb555_to_rgb24(0x7FFF);
    assert_eq!(c, RGB24Color { r: 0xFF, g: 0xFF, b: 0xFF });
    let red = ppu.rgb555_to_rgb24(0x001F);
    assert_eq!(red, RGB24Color { r: 0xFF, g: 0x00, b: 0x00 });
}

#[test]
fn shade_mapping_follows_palette_register() {
    let ppu = PPU::new();
    // Palette 0b11100100: color 0 -> white ... color 3 -> black.
    assert_eq!(ppu.map_color(0, 0xE4), 0xFF);
    assert_eq!(ppu.map_color(1, 0xE4), 0xAA);
    assert_eq!(ppu.map_color(2, 0xE4), 0x55);
    assert_eq!(ppu.map_color(3, 0xE4), 0x00);
}

#[test]
fn boot_code_maps_until_first_fetch_past_it() {
    let rom = build_rom(&[(0x0000, 0xAA), (0x0150, 0xBB)]);
    let bios = vec![0x31u8, 0xFE, 0xFF];
    let mut mmu = MMU::new(bios, rom).unwrap();
    assert_eq!(mmu.read(0x0000), 0x31);
    assert_eq!(mmu.read(0x0150), 0xBB);
    assert_eq!(mmu.read(0x0000), 0xAA);
}

#[test]
fn decoder_maps_base_space() {
    let mut ins = Instruction::new();
    ins.decode_instruction(0x3E);
    assert_eq!(ins.op_code, OpCode::LD);
    assert_eq!(ins.addr_mode, Addressing::IMM);
    ins.decode_instruction(0x76);
    assert_eq!(ins.op_code, OpCode::HALT);
    assert_eq!(ins.addr_mode, Addressing::IMPL);
    ins.decode_instruction(0xCB);
    assert_eq!(ins.op_code, OpCode::PrefixCB);
    ins.decode_instruction(0xC6);
    assert_eq!(ins.op_code, OpCode::ADD);
    assert_eq!(ins.addr_mode, Addressing::IMM);
    ins.decode_instruction(0xE8);
    assert_eq!(ins.op_code, OpCode::ADD);
    assert_eq!(ins.addr_mode, Addressing::SpImm);
}

#[test]
fn decoder_marks_undefined_opcodes_invalid() {
    let mut ins = Instruction::new();
    ins.decode_instruction(0x21);
    let mode_before = ins.addr_mode;
    ins.decode_instruction(0xD3);
    assert_eq!(ins.op_code, OpCode::INVALID);
    assert_eq!(ins.addr_mode, mode_before);
}

#[test]
fn decoder_maps_extended_space() {
    let mut ins = Instruction::new();
    ins.decode_cb_instruction(0x11);
    assert_eq!(ins.op_code_cb, OpCodeCB::RL);
    assert_eq!(ins.addr_mode, Addressing::REG);
    ins.decode_cb_instruction(0x46);
    assert_eq!(ins.op_code_cb, OpCodeCB::BIT);
    assert_eq!(ins.addr_mode, Addressing::IND);
    ins.decode_cb_instruction(0xFF);
    assert_eq!(ins.op_code_cb, OpCodeCB::SET);
    assert_eq!(ins.addr_mode, Addressing::BIT);
}

#[test]
fn fetch_reads_opcode_through_bus() {
    let rom = build_rom(&[(0x0100, 0x3E)]);
    let mut mmu = MMU::new(Vec::new(), rom).unwrap();
    let mut ins = Instruction::new();
    let op = ins.fetch_instruction(&mut mmu, 0x0100);
    assert_eq!(op, 0x3E);
}

#[test]
fn extended_opcodes_execute_through_prefix() {
    // LD A, 0x01; CB 0x27 (SLA A) -> A == 0x02.
    let rom = build_rom(&[(0x0100, 0x3E), (0x0101, 0x01), (0x0102, 0xCB), (0x0103, 0x27)]);
    let mut cpu = CPU::new(Vec::new(), rom).unwrap();
    cpu.step();
    let t = cpu.step();
    assert_eq!(cpu.reg_a, 0x02);
    assert_eq!(t, 8);
}

#[test]
fn stack_push_pop_round_trip() {
    // LD BC, 0x1234; PUSH BC; POP DE.
    let rom = build_rom(&[
        (0x0100, 0x01),
        (0x0101, 0x34),
        (0x0102, 0x12),
        (0x0103, 0xC5),
        (0x0104, 0xD1),
    ]);
    let mut cpu = CPU::new(Vec::new(), rom).unwrap();
    cpu.sp = 0xFFFE;
    cpu.step();
    cpu.step();
    cpu.step();
    assert_eq!(cpu.reg_d, 0x12);
    assert_eq!(cpu.reg_e, 0x34);
    assert_eq!(cpu.sp, 0xFFFE);
}

#[test]
fn relative_jump_moves_program_counter() {
    // JR +2 at 0x100 lands at 0x104.
    let rom = build_rom(&[(0x0100, 0x18), (0x0101, 0x02)]);
    let mut cpu = CPU::new(Vec::new(), rom).unwrap();
    let t = cpu.step();
    assert_eq!(cpu.pc, 0x0104);
    assert_eq!(t, 12);
}

#[test]
fn work_ram_banking_follows_bank_select_when_unlocked() {
    let rom = build_rom(&[]);
    let mut mmu = MMU::new(Vec::new(), rom).unwrap();
    mmu.cgb.cgb_unlock(0x80);
    mmu.write(0xFF70, 2);
    mmu.write(0xD000, 0x22);
    mmu.write(0xFF70, 3);
    assert_eq!(mmu.read(0xD000), 0x00);
    mmu.write(0xD000, 0x33);
    mmu.write(0xFF70, 2);
    assert_eq!(mmu.read(0xD000), 0x22);
}

#[test]
fn conditional_jump_taken_and_untaken() {
    // ADD 0 leaves Z set for A == 0; JP NZ skips, JP Z takes.
    let rom = build_rom(&[
        (0x0100, 0xC6),
        (0x0101, 0x00),
        (0x0102, 0xC2),
        (0x0103, 0x00),
        (0x0104, 0x20),
        (0x0105, 0xCA),
        (0x0106, 0x00),
        (0x0107, 0x30),
    ]);
    let mut cpu = CPU::new(Vec::new(), rom).unwrap();
    cpu.step();
    let t1 = cpu.step();
    assert_eq!(cpu.pc, 0x0105);
    assert_eq!(t1, 12);
    let t2 = cpu.step();
    assert_eq!(cpu.pc, 0x3000);
    assert_eq!(t2, 16);
}

#[test]
fn halt_requires_interrupt_master_enable() {
    let rom = build_rom(&[(0x0100, 0x76)]);
    let mut cpu = CPU::new(Vec::new(), rom).unwrap();
    cpu.step();
    assert!(!cpu.halted);
    let mut cpu2 = CPU::new(Vec::new(), build_rom(&[(0x0100, 0xFB), (0x0101, 0x76)])).unwrap();
    cpu2.step();
    cpu2.step();
    assert!(cpu2.halted);
}

#[test]
fn stack_pointer_displacement_flags_use_low_byte() {
    // LD SP, 0x00FF; ADD SP, 0x01 -> SP == 0x0100, H and C set from the low
    // byte, Z and N clear.
    let rom = build_rom(&[
        (0x0100, 0x31),
        (0x0101, 0xFF),
        (0x0102, 0x00),
        (0x0103, 0xE8),
        (0x0104, 0x01),
    ]);
    let mut cpu = CPU::new(Vec::new(), rom).unwrap();
    cpu.step();
    cpu.step();
    assert_eq!(cpu.sp, 0x0100);
    assert_eq!(cpu.reg_f & 0x80, 0x00);
    assert_eq!(cpu.reg_f & 0x40, 0x00);
    assert_eq!(cpu.reg_f & 0x20, 0x20);
    assert_eq!(cpu.reg_f & 0x10, 0x10);
}

#[test]
fn rotate_through_carry_chains_bits() {
    // SCF; LD A, 0x80; RLA -> A == 0x01 (carry in), carry out set.
    let rom = build_rom(&[(0x0100, 0x37), (0x0101, 0x3E), (0x0102, 0x80), (0x0103, 0x17)]);
    let mut cpu = CPU::new(Vec::new(), rom).unwrap();
    cpu.step();
    cpu.step();
    cpu.step();
    assert_eq!(cpu.reg_a, 0x01);
    assert_eq!(cpu.reg_f & 0x10, 0x10);
}

#[test]
fn halted_step_consumes_four_cycles_and_advances_bus() {
    let rom = build_rom(&[]);
    let mut cpu = CPU::new(Vec::new(), rom).unwrap();
    cpu.halted = true;
    cpu.ime = true;
    let pc0 = cpu.pc;
    let t = cpu.step();
    assert_eq!(t, 4);
    assert_eq!(cpu.pc, pc0);
    assert!(cpu.halted);
    // Time passed on the bus: the free-running timer counter advanced.
    assert_eq!(cpu.mmu.timer.cnt, 4);
}

#[test]
fn neither_group_selected_reads_all_ones_low_nibble() {
    let mut pad = GamePad::new();
    pad.keydown(Key::A);
    pad.keydown(Key::Up);
    pad.write(0xFF00, 0x30);
    assert_eq!(pad.read(0xFF00) & 0x0F, 0x0F);
}

#[test]
fn vram_dma_copies_into_vram_window() {
    let rom = build_rom(&[]);
    let mut mmu = MMU::new(Vec::new(), rom).unwrap();
    for i in 0..16u16 {
        mmu.write(0xC000 + i, 0xA0 + i as u8);
    }
    // Source 0xC000, destination 0x8800, H-blank mode: one 16-byte block.
    mmu.write(0xFF51, 0xC0);
    mmu.write(0xFF52, 0x00);
    mmu.write(0xFF53, 0x88);
    mmu.write(0xFF54, 0x00);
    mmu.write(0xFF55, 0x80);
    // The start register marks the transfer complete.
    assert_eq!(mmu.cgb.hdma5, 0xFF);
    for i in 0..16u16 {
        assert_eq!(mmu.read(0x8800 + i), 0xA0 + i as u8);
    }
    // The transfer stayed inside its destination envelope.
    assert_eq!(mmu.read(0xC005), 0xA5);
}
