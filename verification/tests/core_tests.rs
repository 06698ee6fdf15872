use oolio151_nes::apu::dmc::DmcChannel;
use oolio151_nes::apu::noise::NoiseChannel;
use oolio151_nes::apu::pulse::PulseChannel;
use oolio151_nes::apu::APU;
use oolio151_nes::cartridge::Mirroring;
use oolio151_nes::cpu::mapper::{BusConflicts, Mapper, Uxrom};
use oolio151_nes::cpu::opcodes::{decode, execute, is_known_opcode, Instruction};
use oolio151_nes::cpu::ops::bitwise::bit;
use oolio151_nes::cpu::ops::branch::{bmi, bne, bpl};
use oolio151_nes::cpu::{Bus, Flag, FlatBus, CPU};
use oolio151_nes::emulator::Emulator;
use oolio151_nes::input::{button_changed, Button};
use oolio151_nes::ppu::PPU;
use oolio151_nes::savestate::{capture, restore};

fn flat_cpu() -> CPU<FlatBus> {
    CPU::new(Box::new(FlatBus::new()))
}

#[test]
fn decode_maps_0x5d_to_eor_absolute_x() {
    let mut cpu = flat_cpu();
    cpu.pc = 0x0200;
    cpu.x = 0x01;
    cpu.y = 0x02;
    cpu.a = 0x00;
    cpu.write(0x0200, 0x00);
    cpu.write(0x0201, 0x10);
    cpu.write(0x1001, 0x0F);
    cpu.write(0x1002, 0xF0);
    let (instruction, cycles) = decode(0x5D);
    assert!(matches!(instruction, Instruction::EorAbsolutex));
    assert_eq!(cycles, 4);
    assert_eq!(execute(&mut cpu, instruction), 0);
    assert_eq!(cpu.a, 0x0F);
    assert_eq!(cpu.pc, 0x0202);
    assert!(!cpu.get_flag(Flag::Zero));
    assert!(!cpu.get_flag(Flag::Negative));

    let (instruction, cycles) = decode(0x59);
    assert!(matches!(instruction, Instruction::EorAbsolutey));
    assert_eq!(cycles, 4);
}

#[test]
fn decode_knows_the_documented_opcodes() {
    let expected: [(u8, u8); 18] = [
        (0x85, 3), // STA zp
        (0x8D, 4), // STA abs
        (0x86, 3), // STX zp
        (0x84, 3), // STY zp
        (0xAA, 2), // TAX
        (0xA8, 2), // TAY
        (0xBA, 2), // TSX
        (0x8A, 2), // TXA
        (0x9A, 2), // TXS
        (0x98, 2), // TYA
        (0x60, 6), // RTS
        (0x40, 6), // RTI
        (0x38, 2), // SEC
        (0xF8, 2), // SED
        (0x78, 2), // SEI
        (0xE9, 2), // SBC #
        (0xF9, 4), // SBC abs,Y
        (0x00, 7), // BRK
    ];
    for (opcode, cycles) in expected {
        assert!(is_known_opcode(opcode), "opcode {:02X}", opcode);
        assert_eq!(decode(opcode).1, cycles, "opcode {:02X}", opcode);
    }
    assert!(!is_known_opcode(0x02));
}

#[test]
fn bne_branches_when_zero_is_clear() {
    let mut cpu = flat_cpu();
    cpu.pc = 0x0201;
    cpu.write(0x0201, 0x10);
    cpu.p = 0x20;
    assert_eq!(bne(&mut cpu), 1);
    assert_eq!(cpu.pc, 0x0212);

    let mut cpu = flat_cpu();
    cpu.pc = 0x0201;
    cpu.write(0x0201, 0x10);
    cpu.p = 0x22;
    assert_eq!(bne(&mut cpu), 0);
    assert_eq!(cpu.pc, 0x0202);
}

#[test]
fn bmi_branches_backwards_when_negative() {
    let mut cpu = flat_cpu();
    cpu.pc = 0x0201;
    cpu.write(0x0201, 0xFE);
    cpu.p = 0xA0;
    assert_eq!(bmi(&mut cpu), 1);
    assert_eq!(cpu.pc, 0x0200);

    let mut cpu = flat_cpu();
    cpu.pc = 0x0201;
    cpu.write(0x0201, 0xFE);
    cpu.p = 0x20;
    assert_eq!(bmi(&mut cpu), 0);
    assert_eq!(cpu.pc, 0x0202);
}

#[test]
fn bpl_crossing_a_page_costs_two() {
    let mut cpu = flat_cpu();
    cpu.pc = 0x02F0;
    cpu.write(0x02F0, 0x20);
    cpu.p = 0x20;
    assert_eq!(bpl(&mut cpu), 2);
    assert_eq!(cpu.pc, 0x0311);

    let mut cpu = flat_cpu();
    cpu.pc = 0x02F0;
    cpu.write(0x02F0, 0x20);
    cpu.p = 0xA0;
    assert_eq!(bpl(&mut cpu), 0);
    assert_eq!(cpu.pc, 0x02F1);
}

#[test]
fn bit_sets_zero_from_the_and_and_copies_bits_6_and_7() {
    let mut cpu = flat_cpu();
    cpu.a = 0x01;
    cpu.p = 0x22;
    bit(&mut cpu, 0x01);
    assert_eq!(cpu.p, 0x20);
    assert_eq!(cpu.a, 0x01);

    let mut cpu = flat_cpu();
    cpu.a = 0x01;
    cpu.p = 0x20;
    bit(&mut cpu, 0xC2);
    assert!(cpu.get_flag(Flag::Zero));
    assert!(cpu.get_flag(Flag::Overflow));
    assert!(cpu.get_flag(Flag::Negative));
}

#[test]
fn tick_runs_bne_through_the_decoder() {
    let mut cpu = flat_cpu();
    cpu.pc = 0x0200;
    cpu.write(0x0200, 0xD0);
    cpu.write(0x0201, 0x10);
    cpu.p = 0x20;
    assert!(cpu.can_execute_now());
    assert_eq!(cpu.tick(), 3);
    assert_eq!(cpu.pc, 0x0212);
}

#[test]
fn tick_runs_stores_transfers_and_flag_sets() {
    let mut cpu = flat_cpu();
    cpu.pc = 0x0200;
    let program: [u8; 10] = [
        0xA9, 0x42, // LDA #$42
        0x85, 0x10, // STA $10
        0xAA, // TAX
        0x38, // SEC
        0xE9, 0x02, // SBC #$02
        0x78, // SEI
        0xA8, // TAY
    ];
    for (i, byte) in program.iter().enumerate() {
        cpu.write(0x0200 + i as u16, *byte);
    }
    let mut cycles = 0u32;
    for _ in 0..7 {
        assert!(cpu.can_execute_now());
        cycles += cpu.tick() as u32;
    }
    assert_eq!(cpu.read(0x0010), 0x42);
    assert_eq!(cpu.x, 0x42);
    assert_eq!(cpu.a, 0x40);
    assert_eq!(cpu.y, 0x40);
    assert!(cpu.get_flag(Flag::Carry));
    assert!(cpu.get_flag(Flag::InterruptDisable));
    assert_eq!(cpu.pc, 0x020A);
    assert_eq!(cycles, 2 + 3 + 2 + 2 + 2 + 2 + 2);
}

#[test]
fn tick_runs_jsr_and_rts() {
    let mut cpu = flat_cpu();
    cpu.pc = 0x0300;
    cpu.write(0x0300, 0x20); // JSR $0400
    cpu.write(0x0301, 0x00);
    cpu.write(0x0302, 0x04);
    cpu.write(0x0400, 0x60); // RTS
    assert_eq!(cpu.tick(), 6);
    assert_eq!(cpu.pc, 0x0400);
    assert_eq!(cpu.tick(), 6);
    assert_eq!(cpu.pc, 0x0303);
    assert_eq!(cpu.s, 0xFD);
}

#[test]
fn sbc_borrows_without_carry() {
    let mut cpu = flat_cpu();
    cpu.pc = 0x0200;
    cpu.a = 0x00;
    cpu.p = 0x20;
    cpu.write(0x0200, 0xE9); // SBC #$01 with the carry clear: 0 - 1 - 1
    cpu.write(0x0201, 0x01);
    cpu.tick();
    assert_eq!(cpu.a, 0xFE);
    assert!(!cpu.get_flag(Flag::Carry));
    assert!(cpu.get_flag(Flag::Negative));
}

#[test]
fn pulse_channels_negate_their_sweep_differently() {
    let mut p1 = PulseChannel::new(false);
    let mut p2 = PulseChannel::new(true);
    for p in [&mut p1, &mut p2] {
        p.write_timer_lo(0x00);
        p.write_length_timer_hi(0x01);
        p.write_sweep(0x89);
        assert_eq!(p.save_state().timer_period, 0x100);
        p.clock_sweep();
    }
    assert_eq!(p1.save_state().timer_period, 0x007F);
    assert_eq!(p2.save_state().timer_period, 0x0080);
    assert!(!p1.save_state().sweep_reload);
    assert!(!p2.save_state().sweep_reload);
}

#[test]
fn channels_power_on_cleared() {
    assert!(PulseChannel::new(true).save_state().is_channel2);
    assert!(!PulseChannel::new(false).save_state().is_channel2);

    let dmc = DmcChannel::new().save_state();
    assert_eq!(dmc.timer_period, 428);
    assert_eq!(dmc.current_addr, 0xC000);
    assert_eq!(dmc.bits_remaining, 8);
    assert!(dmc.silence_flag);
    assert!(!dmc.enabled && !dmc.irq_enable && !dmc.loop_flag);

    let apu = APU::new().save_state();
    assert!(!apu.pulse1.is_channel2);
    assert!(apu.pulse2.is_channel2);
    assert_eq!(apu.noise.shift_reg, 1);
    assert_eq!(apu.dmc.timer_period, 428);
}

#[test]
fn dmc_level_holds_while_silenced() {
    let mut dmc = DmcChannel::new();
    dmc.write_direct_load(0x40);
    assert_eq!(dmc.output(), 0x40);
    for _ in 0..5000 {
        dmc.tick_timer();
        assert_eq!(dmc.output(), 0x40);
    }
}

#[test]
fn dmc_level_moves_by_two_per_bit() {
    let mut dmc = DmcChannel::new();
    dmc.write_direct_load(0x40);
    dmc.write_sample_length(0);
    dmc.set_enabled(true);
    let address = dmc.fetch_request().unwrap();
    assert_eq!(address, 0xC000);
    dmc.provide_byte(0b0000_0101);
    let mut last = dmc.output() as i32;
    let mut levels = Vec::new();
    for _ in 0..(429 * 24) {
        dmc.tick_timer();
        let level = dmc.output() as i32;
        assert!(level == last || level == last + 2 || level == last - 2);
        if level != last {
            levels.push(level);
        }
        last = level;
    }
    // The byte loads at the end of the first (silent) eight bits, then plays
    // 1, 0, 1, 0, 0, 0, 0, 0.
    assert_eq!(levels, vec![0x42, 0x40, 0x42, 0x40, 0x3E, 0x3C, 0x3A, 0x38]);
}

#[test]
fn noise_shift_register_never_reaches_zero() {
    for mode in [0x00u8, 0x80u8] {
        let mut noise = NoiseChannel::new();
        noise.write_mode_period(mode);
        assert_eq!(noise.save_state().shift_reg, 1);
        for _ in 0..200_000 {
            noise.tick_timer();
            assert_ne!(noise.save_state().shift_reg, 0);
        }
    }
}

#[test]
fn ppu_first_data_read_returns_the_stale_buffer() {
    let mut ppu = PPU::new(Mirroring::Horizontal, vec![0u8; 0x2000]);
    ppu.write_register(6, 0x20);
    ppu.write_register(6, 0x00);
    ppu.write_register(7, 0x55);
    ppu.write_register(6, 0x20);
    ppu.write_register(6, 0x00);
    assert_eq!(ppu.read_register(7), 0x00);
    assert_eq!(ppu.read_register(7), 0x55);
    assert_eq!(ppu.save_state().v, 0x2002);
}

#[test]
fn ppu_power_on_state() {
    let ppu = PPU::new(Mirroring::Vertical, vec![0u8; 0x2000]);
    let state = ppu.save_state();
    assert_eq!(state.vram_addr_inc, 1);
    assert_eq!(state.sprite_pattern_table_addr, 0);
    assert_eq!(state.x, 0);
    assert_eq!(state.read_buffer, 0);
    assert_eq!(state.io_latch, 0);
    assert_eq!(state.scanline, -1);
    assert_eq!(state.dot, 0);
    assert!(!state.sprite0_hit && !state.sprite_overflow && !state.vblank_flag);
}

#[test]
fn ppu_scroll_and_ctrl_writes_fill_t() {
    let mut ppu = PPU::new(Mirroring::Vertical, vec![0u8; 0x2000]);
    ppu.write_register(0, 0x07); // nametable 3, step 32
    ppu.write_register(5, 0x7D); // coarse X 15, fine X 5
    ppu.write_register(5, 0x5E); // coarse Y 11, fine Y 6
    let state = ppu.save_state();
    assert_eq!(state.x, 5);
    assert_eq!(state.vram_addr_inc, 32);
    assert_eq!(state.t, (6 << 12) | (3 << 10) | (11 << 5) | 15);
    assert!(!state.w);
}

#[test]
fn ppu_render_cycle_idles_with_rendering_off() {
    let mut ppu = PPU::new(Mirroring::Vertical, vec![0u8; 0x2000]);
    // Run to line 250, dot 100, with rendering off.
    for _ in 0..(251 * 341 + 100) {
        ppu.tick();
    }
    let before = ppu.save_state();
    assert_eq!((before.scanline, before.dot), (250, 100));
    ppu.run_render_cycle();
    let after = ppu.save_state();
    assert_eq!((after.v, after.t, after.x), (before.v, before.t, before.x));
    assert_eq!(after.bg_shift_lo, before.bg_shift_lo);
    assert_eq!(after.framebuffer, before.framebuffer);
}

#[test]
fn ppu_prerender_tick_clears_the_status_flags() {
    let mut ppu = PPU::new(Mirroring::Vertical, vec![0u8; 0x2000]);
    // To line 241, dot 2: vblank has started.
    for _ in 0..(242 * 341 + 2) {
        ppu.tick();
    }
    assert_eq!(ppu.peek_register(2) & 0x80, 0x80);
    // On to the pre-render line, dot 2.
    for _ in 0..(20 * 341) {
        ppu.tick();
    }
    let state = ppu.save_state();
    assert_eq!((state.scanline, state.dot), (-1, 2));
    assert_eq!(ppu.peek_register(2) & 0xE0, 0);
}

#[test]
fn uxrom_bank_switch_selects_the_low_bank() {
    let mut prg = vec![0u8; 0x4000 * 8];
    for bank in 0..8 {
        prg[bank * 0x4000 + 0x10] = 0x10 + bank as u8;
    }
    let mut uxrom = Uxrom::new(prg, Mirroring::Horizontal, BusConflicts::NoConflict).unwrap();
    assert_eq!(uxrom.read(0x8010), 0x10);
    uxrom.write(0x8000, 0x0D); // masked to three bits: bank 5
    assert_eq!(uxrom.read(0x8010), 0x15);
    assert_eq!(uxrom.read(0xC010), 0x17);
}

/// A 16 KiB NROM image that enables the vblank NMI and loops; the NMI handler at
/// 0x8010 loops too.
fn nmi_rom() -> Vec<u8> {
    let mut rom = vec![0x4E, 0x45, 0x53, 0x1A, 1, 1, 0, 0, 0, 0, 0, 0, 0, 0, 0, 0];
    let mut prg = vec![0u8; 0x4000];
    let program: [u8; 8] = [
        0xA9, 0x80, // LDA #$80
        0x8D, 0x00, 0x20, // STA $2000
        0x4C, 0x05, 0x80, // JMP $8005
    ];
    prg[..8].copy_from_slice(&program);
    prg[0x10] = 0x4C; // JMP $8010
    prg[0x11] = 0x10;
    prg[0x12] = 0x80;
    prg[0x3FFA] = 0x10; // NMI vector -> $8010
    prg[0x3FFB] = 0x80;
    prg[0x3FFC] = 0x00; // reset vector -> $8000
    prg[0x3FFD] = 0x80;
    rom.extend_from_slice(&prg);
    rom.extend_from_slice(&vec![0u8; 0x2000]);
    rom
}

#[test]
fn a_step_that_takes_an_nmi_ends_at_the_vector() {
    let mut emu = Emulator::from_rom(&nmi_rom(), "nmi.nes".to_string()).unwrap();
    let mut fired = false;
    for _ in 0..100_000 {
        assert!(emu.ready());
        if emu.step() {
            fired = true;
            break;
        }
    }
    assert!(fired);
    assert_eq!(emu.cpu.pc, 0x8010);
    assert!(emu.cpu.get_flag(Flag::InterruptDisable));
}

#[test]
fn tick_runs_stable_undocumented_opcodes() {
    let mut cpu = flat_cpu();
    cpu.pc = 0x0200;
    let program: [u8; 12] = [
        0xA7, 0x20, // LAX $20
        0xC7, 0x21, // DCP $21
        0x07, 0x22, // SLO $22
        0x87, 0x23, // SAX $23
        0x1A, // NOP (implied)
        0x3C, 0xFF, 0x12, // NOP $12FF,X (crosses a page with X = 0x81)
    ];
    for (i, byte) in program.iter().enumerate() {
        cpu.write(0x0200 + i as u16, *byte);
    }
    cpu.write(0x0020, 0x81);
    cpu.write(0x0021, 0x82);
    cpu.write(0x0022, 0x40);

    assert_eq!(cpu.tick(), 3); // LAX: A = X = 0x81
    assert_eq!((cpu.a, cpu.x), (0x81, 0x81));
    assert!(cpu.get_flag(Flag::Negative));

    assert_eq!(cpu.tick(), 5); // DCP: $21 = 0x81, compared with A = 0x81
    assert_eq!(cpu.read(0x0021), 0x81);
    assert!(cpu.get_flag(Flag::Zero));
    assert!(cpu.get_flag(Flag::Carry));

    assert_eq!(cpu.tick(), 5); // SLO: $22 = 0x80, A = 0x81 | 0x80
    assert_eq!(cpu.read(0x0022), 0x80);
    assert_eq!(cpu.a, 0x81);
    assert!(!cpu.get_flag(Flag::Carry));

    assert_eq!(cpu.tick(), 3); // SAX: $23 = A & X
    assert_eq!(cpu.read(0x0023), 0x81);

    assert_eq!(cpu.tick(), 2); // NOP
    assert_eq!(cpu.tick(), 5); // NOP abs,X with the page penalty
    assert_eq!(cpu.pc, 0x020C);
    assert_eq!(cpu.a, 0x81);
}

#[test]
fn buttons_press_and_release_their_own_bit() {
    let mut buttons = 0u8;
    buttons = button_changed(buttons, Button::Start, true);
    buttons = button_changed(buttons, Button::Left, true);
    assert_eq!(buttons, 0x48);
    buttons = button_changed(buttons, Button::Start, false);
    assert_eq!(buttons, 0x40);
    buttons = button_changed(buttons, Button::A, true);
    buttons = button_changed(buttons, Button::A, true);
    assert_eq!(buttons, 0x41);
}

/// A 16 KiB NROM image whose reset vector points at an endless `JMP $8000`.
fn loop_rom() -> Vec<u8> {
    let mut rom = vec![0x4E, 0x45, 0x53, 0x1A, 1, 1, 0, 0, 0, 0, 0, 0, 0, 0, 0, 0];
    let mut prg = vec![0u8; 0x4000];
    prg[0] = 0x4C;
    prg[1] = 0x00;
    prg[2] = 0x80;
    prg[0x3FFC] = 0x00;
    prg[0x3FFD] = 0x80;
    rom.extend_from_slice(&prg);
    rom.extend_from_slice(&vec![0u8; 0x2000]);
    rom
}

#[test]
fn restore_accepts_a_frame_cycle_past_the_last_boundary() {
    let mut emu = Emulator::from_rom(&loop_rom(), "loop.nes".to_string()).unwrap();
    let mut state = capture(&emu).unwrap();
    state.bus.apu.frame_cycle = 40000;
    assert!(restore(&mut emu, &state).is_ok());
    assert!(emu.ready());
    emu.step();
    // The sequencer catches up: a whole four-step sequence, then step 0 again.
    let after = capture(&emu).unwrap();
    assert_eq!(after.bus.apu.frame_cycle, 40000 + 3 - 29829);
    assert_eq!(after.bus.apu.frame_step, 1);
}

#[test]
fn apu_sequencer_catches_up_from_a_large_count() {
    let mut apu = APU::new();
    let mut state = apu.save_state();
    state.frame_cycle = 40000;
    apu.load_state(&state);
    apu.tick(1);
    let after = apu.save_state();
    assert_eq!(after.frame_cycle, 40001 - 29829);
    assert_eq!(after.frame_step, 1);
    assert!(apu.frame_irq_pending());
}

#[test]
fn apu_frame_irq_fires_at_29829_in_four_step_mode() {
    let mut apu = APU::new();
    apu.write_register(0x4017, 0x00);
    apu.tick(29828);
    assert!(!apu.frame_irq_pending());
    assert_eq!(apu.save_state().frame_step, 3);
    apu.tick(1);
    assert!(apu.frame_irq_pending());
    assert_eq!(apu.save_state().frame_step, 0);
    assert_eq!(apu.save_state().frame_cycle, 0);

    let mut five = APU::new();
    five.write_register(0x4017, 0x80);
    five.tick(40000);
    assert!(!five.frame_irq_pending());
}

#[test]
fn apu_status_write_enables_and_acknowledges() {
    let mut apu = APU::new();
    apu.write_register(0x4015, 0x01);
    apu.write_register(0x4003, 0x08);
    assert_eq!(apu.read_register(0x4015) & 0x01, 0x01);
    apu.write_register(0x4015, 0x00); // disabling clears the length counter
    assert_eq!(apu.read_register(0x4015) & 0x01, 0x00);
    apu.write_register(0x4013, 0x01); // 17-byte sample
    apu.write_register(0x4015, 0x10); // enabling the DMC starts it
    let state = apu.save_state();
    assert_eq!(state.dmc.bytes_remaining, 17);
    assert_eq!(state.dmc.current_addr, 0xC000);
    assert!(!state.dmc.irq_pending);
}

#[test]
fn ppu_status_bits_and_first_address_write() {
    let mut ppu = PPU::new(Mirroring::Vertical, vec![0u8; 0x2000]);
    ppu.write_register(0, 0x1F); // the latch now holds 0x1F
    assert_eq!(ppu.read_register(2), 0x1F);
    ppu.write_register(6, 0x7F);
    let state = ppu.save_state();
    assert_eq!(state.t, 0x3F00); // bits 8-13 from the byte; bits 10-11 of PPUCTRL overwritten, low byte kept
    assert!(state.w);
    assert_eq!(state.v, 0);
}

#[test]
fn noise_shift_register_stays_below_0x8000() {
    let mut noise = NoiseChannel::new();
    noise.write_mode_period(0x80);
    for _ in 0..50_000 {
        noise.tick_timer();
        let s = noise.save_state().shift_reg;
        assert!(s > 0 && s < 0x8000);
    }
}

#[test]
fn dmc_bit_counter_stays_between_one_and_eight() {
    let mut dmc = DmcChannel::new();
    dmc.write_sample_length(0);
    dmc.set_enabled(true);
    dmc.provide_byte(0xAA);
    for _ in 0..(429 * 40) {
        dmc.tick_timer();
        let bits = dmc.save_state().bits_remaining;
        assert!((1..=8).contains(&bits));
    }
}
