use oolio151_nes::apu::APU;
use oolio151_nes::cartridge::{load_rom, parse_header, Mirroring};
use oolio151_nes::cpu::mapper::{BusConflicts, Mapper, Nrom, Uxrom};
use oolio151_nes::cpu::{Bus, Flag, FlatBus, NesBus, CPU};
use oolio151_nes::emulator::Emulator;
use oolio151_nes::input::ControllerState;
use oolio151_nes::ppu::PPU;
use oolio151_nes::savestate::{capture, decode_frame, encode_frame, restore, validate, HEADER_SIZE};

/// A 16 KiB NROM image whose reset vector points at an endless `JMP $8000`.
fn jmp_loop_rom() -> Vec<u8> {
    let mut rom = vec![0x4E, 0x45, 0x53, 0x1A, 1, 1, 0, 0, 0, 0, 0, 0, 0, 0, 0, 0];
    let mut prg = vec![0u8; 0x4000];
    prg[0] = 0x4C; // JMP $8000
    prg[1] = 0x00;
    prg[2] = 0x80;
    prg[0x3FFC] = 0x00; // reset vector -> $8000
    prg[0x3FFD] = 0x80;
    rom.extend_from_slice(&prg);
    rom.extend_from_slice(&vec![0u8; 0x2000]);
    rom
}

fn test_bus() -> NesBus<Nrom> {
    let chr = vec![0u8; 0x2000];
    NesBus::new(Box::new(Nrom::new(vec![0u8; 0x4000], chr.clone())), Mirroring::Vertical, chr)
}

#[test]
fn sha256_fingerprint_of_known_bytes() {
    // The machine remembers the SHA-256 digest of the image it was started from.
    let rom = jmp_loop_rom();
    let emu = Emulator::from_rom(&rom, "loop.nes".to_string()).unwrap();
    let again = Emulator::from_rom(&rom, "loop.nes".to_string()).unwrap();
    assert_eq!(emu.rom_fingerprint(), again.rom_fingerprint());
    assert_ne!(emu.rom_fingerprint(), [0u8; 32]);
    assert_eq!(emu.rom_file_name(), "loop.nes");

    // The frame's payload digest is the SHA-256 of "abc".
    let framed = encode_frame(&[7u8; 32], b"abc");
    let expected: [u8; 32] = [
        0xba, 0x78, 0x16, 0xbf, 0x8f, 0x01, 0xcf, 0xea, 0x41, 0x41, 0x40, 0xde, 0x5d, 0xae, 0x22, 0x23,
        0xb0, 0x03, 0x61, 0xa3, 0x96, 0x17, 0x7a, 0x9c, 0xb4, 0x10, 0xff, 0x61, 0xf2, 0x00, 0x15, 0xad,
    ];
    assert_eq!(&framed[44..76], &expected);
}

#[test]
fn emulator_boots_at_reset_vector_and_finishes_frames() {
    let mut emu = Emulator::from_rom(&jmp_loop_rom(), "loop.nes".to_string()).unwrap();
    assert_eq!(emu.cpu.pc, 0x8000);
    assert_eq!(emu.cpu.s, 0xFD);
    assert_eq!(emu.cpu.p, 0x20);
    assert!(emu.ready());
    let nmi = emu.step();
    assert!(!nmi);
    assert_eq!(emu.cpu.pc, 0x8000);
    assert_eq!(emu.cpu.cycle_count, 3);
    assert!(emu.run_one_frame());
    assert_eq!(emu.cpu.framebuffer().len(), 61440);
}

#[test]
fn emulator_reset_reloads_the_vector() {
    let mut emu = Emulator::from_rom(&jmp_loop_rom(), "loop.nes".to_string()).unwrap();
    emu.cpu.a = 0x55;
    emu.cpu.pc = 0x1234;
    emu.reset();
    assert_eq!(emu.cpu.a, 0);
    assert_eq!(emu.cpu.pc, 0x8000);
    assert_eq!(emu.cpu.cycle_count, 0);
}

#[test]
fn load_rom_rejects_bad_signature() {
    let mut rom = jmp_loop_rom();
    rom[0] = b'X';
    assert!(load_rom(&rom).is_err());
    assert!(parse_header(&rom).is_err());
    assert!(Emulator::from_rom(&rom, "bad.nes".to_string()).is_err());
}

#[test]
fn load_rom_rejects_truncated_image() {
    let rom = jmp_loop_rom();
    assert!(load_rom(&rom[..0x3000]).is_err());
    let header = parse_header(&rom).unwrap();
    assert_eq!(header.prg_rom_size, 0x4000);
    assert_eq!(header.chr_rom_size, 0x2000);
    assert_eq!(header.mapper_number, 0);
}

#[test]
fn nes_bus_oam_dma_copies_a_page_and_takes_514_cycles() {
    let mut bus = test_bus();
    for i in 0..256u16 {
        bus.write(0x0200 + i, i as u8);
    }
    bus.write(0x2003, 0); // OAMADDR
    bus.write(0x4014, 0x02);
    assert_eq!(bus.take_dma_cycles(), 514);
    assert_eq!(bus.take_dma_cycles(), 0);
    bus.write(0x2003, 0x10);
    assert_eq!(bus.read(0x2004), 0x10);
    bus.write(0x2003, 0xFF);
    assert_eq!(bus.read(0x2004), 0xFF);
}

#[test]
fn nes_bus_controller_port_reads_buttons_in_order() {
    let mut bus = test_bus();
    bus.set_controller1(0b1000_0101); // A, Select, Right
    bus.write(0x4016, 1);
    bus.write(0x4016, 0);
    let bits: Vec<u8> = (0..8).map(|_| bus.read(0x4016)).collect();
    assert_eq!(bits, vec![1, 0, 1, 0, 0, 0, 0, 1]);
    assert_eq!(bus.read(0x4016), 1);
    assert_eq!(bus.read(0x4018), 0);
}

#[test]
fn controller_serial_readout() {
    let mut c = ControllerState::new();
    c.set_buttons(0b0000_0011);
    c.write_strobe(1);
    assert_eq!(c.read(), 1); // strobing: always A
    assert_eq!(c.read(), 1);
    c.write_strobe(0);
    assert_eq!(c.read(), 1);
    assert_eq!(c.read(), 1);
    for _ in 0..6 {
        assert_eq!(c.read(), 0);
    }
    assert_eq!(c.read(), 1);
}

#[test]
fn ppu_oam_roundtrip_and_status_read() {
    let mut ppu = PPU::new(Mirroring::Horizontal, vec![0u8; 0x2000]);
    ppu.write_register(3, 0x40);
    ppu.write_register(4, 0xAB);
    ppu.write_register(3, 0x40);
    assert_eq!(ppu.read_register(4), 0xAB);

    // A fresh PPU is not in vblank; reading the status clears the write toggle.
    assert_eq!(ppu.read_register(2) & 0x80, 0);
}

#[test]
fn ppu_vblank_starts_at_line_241_and_raises_nmi() {
    let mut ppu = PPU::new(Mirroring::Horizontal, vec![0u8; 0x2000]);
    ppu.write_register(0, 0x80); // NMI on vblank
    // From (-1, 0) to (241, 1): 242 lines of 341 dots, plus one.
    for _ in 0..(242 * 341 + 1) {
        ppu.tick();
    }
    assert_eq!(ppu.read_register(2) & 0x80, 0); // the edge happens on the next tick
    ppu.tick();
    assert!(ppu.take_nmi());
    assert!(!ppu.take_nmi());
    assert!(ppu.frame_complete());
    assert!(!ppu.frame_complete());
    assert_eq!(ppu.read_register(2) & 0x80, 0x80);
    assert_eq!(ppu.read_register(2) & 0x80, 0);
}

#[test]
fn ppu_address_two_writes_then_data_port() {
    let mut ppu = PPU::new(Mirroring::Vertical, vec![0u8; 0x2000]);
    // Write 0x21 to palette entry 0x3F01, then read it back directly.
    ppu.write_register(6, 0x3F);
    ppu.write_register(6, 0x01);
    ppu.write_register(7, 0x21);
    ppu.write_register(6, 0x3F);
    ppu.write_register(6, 0x01);
    assert_eq!(ppu.read_register(7), 0x21);

    // Nametable reads lag by one through the read buffer.
    ppu.write_register(6, 0x20);
    ppu.write_register(6, 0x05);
    ppu.write_register(7, 0x99);
    ppu.write_register(6, 0x20);
    ppu.write_register(6, 0x05);
    let _stale = ppu.read_register(7);
    ppu.write_register(6, 0x20);
    ppu.write_register(6, 0x06);
    assert_eq!(ppu.read_register(7), 0x99);
}

#[test]
fn cpu_push_then_pull_roundtrip() {
    let mut cpu = CPU::new(Box::new(FlatBus::new()));
    let s = cpu.s;
    cpu.push(0x42);
    assert_eq!(cpu.s, s.wrapping_sub(1));
    assert_eq!(cpu.read(0x0100 + s as u16), 0x42);
    assert_eq!(cpu.pull(), 0x42);
    assert_eq!(cpu.s, s);
}

#[test]
fn cpu_flag_set_get() {
    let mut cpu = CPU::new(Box::new(FlatBus::new()));
    cpu.set_flag(Flag::Carry, true);
    cpu.set_flag(Flag::Negative, true);
    assert!(cpu.get_flag(Flag::Carry));
    assert!(cpu.get_flag(Flag::Negative));
    assert!(!cpu.get_flag(Flag::Zero));
    cpu.set_flag(Flag::Carry, false);
    assert!(!cpu.get_flag(Flag::Carry));
    assert!(cpu.get_flag(Flag::Negative));
    assert_eq!(cpu.p, 0b1010_0000);
}

#[test]
fn cpu_nmi_pushes_state_and_jumps_to_vector() {
    let mut cpu = CPU::new(Box::new(FlatBus::new()));
    cpu.write(0xFFFA, 0x34);
    cpu.write(0xFFFB, 0x12);
    cpu.pc = 0xABCD;
    cpu.nmi();
    assert_eq!(cpu.pc, 0x1234);
    assert_eq!(cpu.s, 0xFA);
    assert_eq!(cpu.read(0x01FD), 0xAB);
    assert_eq!(cpu.read(0x01FC), 0xCD);
    assert_eq!(cpu.read(0x01FB), 0x20);
    assert!(cpu.get_flag(Flag::InterruptDisable));
}

#[test]
fn cpu_irq_ignored_while_interrupts_disabled() {
    let mut cpu = CPU::new(Box::new(FlatBus::new()));
    cpu.set_flag(Flag::InterruptDisable, true);
    cpu.pc = 0x8000;
    cpu.irq();
    assert_eq!(cpu.pc, 0x8000);
    assert_eq!(cpu.s, 0xFD);
}

#[test]
fn cpu_executes_lda_immediate() {
    let mut cpu = CPU::new(Box::new(FlatBus::new()));
    cpu.pc = 0x0200;
    cpu.write(0x0200, 0xA9); // LDA #$80
    cpu.write(0x0201, 0x80);
    assert!(cpu.can_execute_now());
    assert_eq!(cpu.tick(), 2);
    assert_eq!(cpu.a, 0x80);
    assert_eq!(cpu.pc, 0x0202);
    assert!(cpu.get_flag(Flag::Negative));
    assert!(!cpu.get_flag(Flag::Zero));
}

#[test]
fn cpu_refuses_unknown_opcode() {
    let mut cpu = CPU::new(Box::new(FlatBus::new()));
    cpu.pc = 0x0200;
    cpu.write(0x0200, 0x02); // a jam opcode; the decoder does not know it
    assert!(!cpu.can_execute_now());
}

#[test]
fn apu_status_reports_length_counters_and_frame_irq() {
    let mut apu = APU::new();
    apu.write_register(0x4015, 0x01); // enable pulse 1
    apu.write_register(0x4003, 0x08); // length index 1 -> 254
    assert_eq!(apu.read_register(0x4015) & 0x01, 0x01);
    // Four-step mode with IRQs allowed: the last step raises the frame IRQ.
    apu.write_register(0x4017, 0x00);
    apu.tick(29829);
    assert!(apu.frame_irq_pending());
    assert_eq!(apu.read_register(0x4015) & 0x40, 0x40);
    assert!(!apu.frame_irq_pending());
}

#[test]
fn nrom_prg_ram_and_uxrom_last_bank() {
    let mut nrom = Nrom::new(vec![0u8; 0x8000], vec![0u8; 0x2000]);
    nrom.write(0x6123, 0x77);
    assert_eq!(nrom.read(0x6123), 0x77);

    let mut prg = vec![0u8; 0x4000 * 4];
    for bank in 0..4 {
        prg[bank * 0x4000] = bank as u8;
    }
    let mut uxrom = Uxrom::new(prg, Mirroring::Vertical, BusConflicts::NoConflict).unwrap();
    assert_eq!(uxrom.read(0xC000), 3);
    uxrom.write(0x8000, 2);
    assert_eq!(uxrom.read(0x8000), 2);
    assert_eq!(uxrom.read(0xC000), 3);
}

#[test]
fn uxrom_rejects_bad_prg_size() {
    assert!(Uxrom::new(vec![0u8; 0x3000], Mirroring::Vertical, BusConflicts::NoConflict).is_err());
}

#[test]
fn savestate_frame_roundtrip() {
    let fingerprint = [9u8; 32];
    let payload = vec![1u8, 2, 3, 4, 5];
    let bytes = encode_frame(&fingerprint, &payload);
    assert_eq!(bytes.len(), HEADER_SIZE + payload.len());
    assert_eq!(&bytes[..8], b"NESSTATE");
    assert_eq!(&bytes[8..12], &[2, 0, 0, 0]);
    assert_eq!(decode_frame(&fingerprint, &bytes).unwrap(), payload);
}

#[test]
fn savestate_frame_errors() {
    let fingerprint = [9u8; 32];
    let bytes = encode_frame(&fingerprint, &[1, 2, 3]);

    assert_eq!(decode_frame(&fingerprint, &bytes[..10]).unwrap_err(), "invalid savestate size");

    let mut bad_magic = bytes.clone();
    bad_magic[0] = b'X';
    assert_eq!(decode_frame(&fingerprint, &bad_magic).unwrap_err(), "unsupported savestate format or version");

    let mut bad_version = bytes.clone();
    bad_version[8] = 3;
    assert_eq!(decode_frame(&fingerprint, &bad_version).unwrap_err(), "unsupported savestate format or version");

    assert_eq!(decode_frame(&[1u8; 32], &bytes).unwrap_err(), "savestate belongs to a different ROM");

    let mut bad_payload = bytes.clone();
    let last = bad_payload.len() - 1;
    bad_payload[last] ^= 0xFF;
    assert_eq!(decode_frame(&fingerprint, &bad_payload).unwrap_err(), "savestate checksum mismatch");
}

#[test]
fn savestate_capture_restore_roundtrip() {
    let mut emu = Emulator::from_rom(&jmp_loop_rom(), "loop.nes".to_string()).unwrap();
    emu.cpu.write(0x0010, 0x5A);
    let state = capture(&emu).unwrap();
    assert!(validate(&state).is_ok());

    emu.cpu.write(0x0010, 0x00);
    emu.run_one_frame();
    emu.cpu.a = 0x99;
    restore(&mut emu, &state).unwrap();
    assert_eq!(emu.cpu.read(0x0010), 0x5A);
    assert_eq!(emu.cpu.a, state.cpu.a);
    assert_eq!(emu.cpu.cycle_count, state.cpu.cycle_count);

    let again = capture(&emu).unwrap();
    assert_eq!(again.cpu, state.cpu);
    assert_eq!(again.bus.cpu_ram, state.bus.cpu_ram);
    assert_eq!(again.bus.apu, state.bus.apu);
    assert_eq!(again.bus.ppu.framebuffer, state.bus.ppu.framebuffer);
    assert_eq!(again.bus.ppu.scanline, state.bus.ppu.scanline);
}

#[test]
fn savestate_restore_rejects_invalid_component_data() {
    let mut emu = Emulator::from_rom(&jmp_loop_rom(), "loop.nes".to_string()).unwrap();
    let mut state = capture(&emu).unwrap();
    state.bus.ppu.x = 8;
    assert_eq!(validate(&state).unwrap_err(), "invalid savestate component data");
    let pc = emu.cpu.pc;
    assert_eq!(restore(&mut emu, &state).unwrap_err(), "invalid savestate component data");
    assert_eq!(emu.cpu.pc, pc);
}

#[test]
fn cpu_interrupt_then_rti_returns() {
    let mut cpu = CPU::new(Box::new(FlatBus::new()));
    cpu.write(0xFFFA, 0x00);
    cpu.write(0xFFFB, 0x90);
    cpu.pc = 0x8123;
    cpu.p = 0b1101_0011;
    cpu.nmi();
    assert_eq!(cpu.pc, 0x9000);
    oolio151_nes::cpu::ops::jump::rti(&mut cpu);
    assert_eq!(cpu.pc, 0x8123);
    assert_eq!(cpu.s, 0xFD);
    assert_eq!(cpu.p, 0b1110_0011);
}

#[test]
fn cpu_jsr_then_rts_returns_after_the_call() {
    let mut cpu = CPU::new(Box::new(FlatBus::new()));
    // JSR $4000 at $0300: the opcode has been fetched, pc is at the operand.
    cpu.write(0x0301, 0x00);
    cpu.write(0x0302, 0x40);
    cpu.pc = 0x0301;
    oolio151_nes::cpu::ops::jump::jsr(&mut cpu);
    assert_eq!(cpu.pc, 0x4000);
    assert_eq!(cpu.read(0x01FD), 0x03);
    assert_eq!(cpu.read(0x01FC), 0x02);
    oolio151_nes::cpu::ops::jump::rts(&mut cpu);
    assert_eq!(cpu.pc, 0x0303);
    assert_eq!(cpu.s, 0xFD);
}

#[test]
fn ppu_palette_and_nametable_mirrors() {
    let mut ppu = PPU::new(Mirroring::Horizontal, vec![0u8; 0x2000]);
    ppu.write_register(6, 0x3F);
    ppu.write_register(6, 0x10);
    ppu.write_register(7, 0x2A);
    ppu.write_register(6, 0x3F);
    ppu.write_register(6, 0x00);
    assert_eq!(ppu.read_register(7), 0x2A);
    ppu.write_register(6, 0x3F);
    ppu.write_register(6, 0x20);
    assert_eq!(ppu.read_register(7), 0x2A);

    // Horizontal mirroring: 0x2400 shows 0x2000, 0x2800 does not.
    ppu.write_register(6, 0x20);
    ppu.write_register(6, 0x10);
    ppu.write_register(7, 0x77);
    ppu.write_register(6, 0x24);
    ppu.write_register(6, 0x10);
    let _ = ppu.read_register(7);
    assert_eq!(ppu.read_register(7), 0x77);
    ppu.write_register(6, 0x28);
    ppu.write_register(6, 0x10);
    let _ = ppu.read_register(7);
    assert_eq!(ppu.read_register(7), 0x00);
}

#[test]
fn apu_frame_counter_write_inhibits_irq() {
    let mut apu = APU::new();
    apu.tick(29829);
    assert!(apu.frame_irq_pending());
    apu.write_register(0x4017, 0x40);
    assert!(!apu.frame_irq_pending());
    apu.tick(29829);
    assert!(!apu.frame_irq_pending());
}

