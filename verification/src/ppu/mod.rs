pub mod palette;
pub mod bg_fetch;
pub mod oam;
pub mod rendering;
pub mod scroll;
pub mod sprite;

use vstd::prelude::*;
use crate::cartridge::Mirroring;
use crate::savestate::{PpuState, ppu_states_agree, ppu_power_on};
use palette::NES_PALETTE;

verus! {

// NTSC timing.
// https://www.nesdev.org/wiki/PPU_programmer_reference

/// The eight CPU-visible PPU registers, 0x2000..=0x2007.
pub enum PPURegister {
    PPUCTRL,  // W
    PPUMASK,  // W
    PPUSTATUS,  // R
    OAMADDR,  // W
    OAMDATA,  // RW
    PPUSCROLL,  // Wx2
    PPUADDR,  // Wx2
    PPUDATA,  // RW
}

/// Pixels in one frame: 256 by 240.
pub const FRAME_PIXELS: usize = 61440;

/// The register that index `i` (taken modulo 8) selects.
pub open spec fn register_of(i: u8) -> PPURegister {
    let r = i % 8;
    if r == 0 {
        PPURegister::PPUCTRL
    } else if r == 1 {
        PPURegister::PPUMASK
    } else if r == 2 {
        PPURegister::PPUSTATUS
    } else if r == 3 {
        PPURegister::OAMADDR
    } else if r == 4 {
        PPURegister::OAMDATA
    } else if r == 5 {
        PPURegister::PPUSCROLL
    } else if r == 6 {
        PPURegister::PPUADDR
    } else {
        PPURegister::PPUDATA
    }
}

/// PPUCTRL as last written.
#[derive(Clone, Copy)]
struct Control {
    nmi_enable: bool,
    sprites_8x16: bool,
    bg_pattern_table_addr: u16,  // 0x0000 or 0x1000
    sprite_pattern_table_addr: u16,  // 0x0000 or 0x1000, ignored in 8x16 mode
    vram_addr_inc: u8,  // 1 or 32 per PPUDATA access
}

/// PPUMASK as last written.
#[derive(Clone, Copy)]
struct Mask {
    emphasize_blue: bool,
    emphasize_green: bool,
    emphasize_red: bool,
    sprite_rendering: bool,
    bg_rendering: bool,
    show_sprites_in_leftmost: bool,
    show_bg_in_leftmost: bool,
    grayscale: bool,
}

/// The three PPUSTATUS flags.
#[derive(Clone, Copy)]
struct Status {
    vblank: bool,
    sprite0_hit: bool,
    sprite_overflow: bool,
}

/// The internal address registers and the CPU-facing latches.
#[derive(Clone, Copy)]
struct Internal {
    v: u16,  // current VRAM address / scroll position while rendering
    t: u16,  // temporary VRAM address: scroll or address before it moves to v
    x: u8,  // fine X scroll
    w: bool,  // first or second write of PPUSCROLL / PPUADDR; cleared by reading PPUSTATUS
    read_buffer: u8,  // PPUDATA reads lag by one access
    io_latch: u8,  // open bus: the last byte written or read
    oam_addr: u8,
}

/// Where the beam is, and what it has signalled.
#[derive(Clone, Copy)]
struct Timing {
    scanline: i16,  // -1 pre-render, 0-239 visible, 240 post-render, 241-260 vblank
    dot: u16,  // 0..=340
    odd_frame: bool,
    nmi_pending: bool,
    frame_complete: bool,
}

/// The background fetch latches and shift registers.
#[derive(Clone, Copy)]
struct Background {
    shift_lo: u16,
    shift_hi: u16,
    attr_shift_lo: u8,
    attr_shift_hi: u8,
    attr_latch_lo: bool,
    attr_latch_hi: bool,
    nt_latch: u8,
    at_latch: u8,
    lo_latch: u8,
    hi_latch: u8,
}

/// The eight sprites loaded for the current line.
#[derive(Clone, Copy)]
struct SpriteLine {
    pattern_lo: [u8; 8],
    pattern_hi: [u8; 8],
    attr: [u8; 8],
    x: [u8; 8],
    zero_next: bool,
    zero_current: bool,
}

pub struct PPU {
    ctrl: Control,
    mask: Mask,
    status: Status,
    regs: Internal,
    timing: Timing,
    oam: [u8; 256],
    oam2: [u8; 32],  // secondary OAM: up to 8 sprites for the next line
    vram: [u8; 2048],
    palette_ram: [u8; 32],
    mirroring: Mirroring,
    chr_rom: Vec<u8>,
    bg: Background,
    sprites: SpriteLine,
    framebuffer: [(u8, u8, u8); 61440],
}

impl PPU {
    #[verifier::type_invariant]
    spec fn inv(self) -> bool {
        &&& -1 <= self.timing.scanline <= 260
        &&& self.timing.dot <= 340
        &&& self.regs.x < 8
        &&& self.chr_rom.len() >= 0x2000
        &&& (self.ctrl.bg_pattern_table_addr == 0 || self.ctrl.bg_pattern_table_addr == 0x1000)
        &&& (self.ctrl.sprite_pattern_table_addr == 0 || self.ctrl.sprite_pattern_table_addr == 0x1000)
    }

    pub closed spec fn scanline(&self) -> i16 {
        self.timing.scanline
    }

    pub closed spec fn dot(&self) -> u16 {
        self.timing.dot
    }

    pub closed spec fn odd(&self) -> bool {
        self.timing.odd_frame
    }

    pub closed spec fn nmi_pending(&self) -> bool {
        self.timing.nmi_pending
    }

    pub closed spec fn frame_done(&self) -> bool {
        self.timing.frame_complete
    }

    pub closed spec fn nmi_enabled(&self) -> bool {
        self.ctrl.nmi_enable
    }

    pub closed spec fn vblank(&self) -> bool {
        self.status.vblank
    }

    /// The open-bus latch: the last byte written to or read from a register.
    pub closed spec fn io_latch(&self) -> u8 {
        self.regs.io_latch
    }

    pub closed spec fn sprite0_hit(&self) -> bool {
        self.status.sprite0_hit
    }

    pub closed spec fn sprite_overflow(&self) -> bool {
        self.status.sprite_overflow
    }

    pub closed spec fn oam_view(&self) -> Seq<u8> {
        self.oam@
    }

    pub closed spec fn oam_addr(&self) -> u8 {
        self.regs.oam_addr
    }

    pub closed spec fn framebuffer_view(&self) -> Seq<(u8, u8, u8)> {
        self.framebuffer@
    }

    pub closed spec fn vram_address(&self) -> u16 {
        self.regs.v
    }

    pub closed spec fn temp_address(&self) -> u16 {
        self.regs.t
    }

    /// The byte the next PPUDATA read outside the palettes returns.
    pub closed spec fn read_buffer(&self) -> u8 {
        self.regs.read_buffer
    }

    pub closed spec fn write_toggle(&self) -> bool {
        self.regs.w
    }

    /// How far a PPUDATA access steps the address: 1 or 32, from PPUCTRL.
    pub closed spec fn address_step(&self) -> u8 {
        self.ctrl.vram_addr_inc
    }

    /// Where background tiles are fetched from: 0x0000 or 0x1000.
    pub closed spec fn bg_pattern_table(&self) -> u16 {
        self.ctrl.bg_pattern_table_addr
    }

    /// Where 8x8 sprite tiles are fetched from: 0x0000 or 0x1000.
    pub closed spec fn sprite_pattern_table(&self) -> u16 {
        self.ctrl.sprite_pattern_table_addr
    }

    /// Sprites are 8x16.
    pub closed spec fn tall_sprites(&self) -> bool {
        self.ctrl.sprites_8x16
    }

    pub closed spec fn bg_enabled(&self) -> bool {
        self.mask.bg_rendering
    }

    pub closed spec fn sprites_enabled(&self) -> bool {
        self.mask.sprite_rendering
    }

    /// The background shows in the leftmost eight pixels.
    pub closed spec fn bg_left_shown(&self) -> bool {
        self.mask.show_bg_in_leftmost
    }

    /// Sprites show in the leftmost eight pixels.
    pub closed spec fn sprites_left_shown(&self) -> bool {
        self.mask.show_sprites_in_leftmost
    }

    pub closed spec fn grayscale(&self) -> bool {
        self.mask.grayscale
    }

    /// Fine X scroll, set by the first PPUSCROLL write.
    pub closed spec fn fine_x(&self) -> u8 {
        self.regs.x
    }

    pub closed spec fn pattern_tables(&self) -> Seq<u8> {
        self.chr_rom@
    }

    pub closed spec fn mirroring_of(&self) -> Mirroring {
        self.mirroring
    }

    pub closed spec fn rendering_enabled(&self) -> bool {
        self.mask.bg_rendering || self.mask.sprite_rendering
    }

    /// Which physical nametable byte a nametable address lands on.
    pub closed spec fn nametable_index(self, addr: u16) -> int
        recommends
            addr >= 0x2000,
    {
        let a = (addr - 0x2000) % 0x1000;
        let table = a / 0x0400;
        let offset = a % 0x0400;
        let physical_table = match self.mirroring {
            Mirroring::Horizontal => table / 2,
            Mirroring::Vertical | Mirroring::FourScreen => table % 2,
            Mirroring::SingleScreenLower => 0,
            Mirroring::SingleScreenUpper => 1,
        };
        physical_table * 0x0400 + offset
    }

    /// Which palette RAM byte a palette address lands on: 32 bytes repeating, with
    /// the sprite palettes' entry 0 mirroring the background's.
    pub open spec fn palette_index(addr: u16) -> int
        recommends
            addr >= 0x3F00,
    {
        let index = (addr - 0x3F00) % 0x20;
        if index >= 0x10 && index % 4 == 0 { index - 0x10 } else { index }
    }

    /// The byte at `addr` in the 14-bit PPU address space: pattern tables from CHR,
    /// nametables from VRAM, palettes from palette RAM.
    pub closed spec fn vram_value(self, addr: u16) -> u8 {
        let a = addr & 0x3FFF;
        if a < 0x2000 {
            self.chr_rom@[a as int]
        } else if a < 0x3F00 {
            self.vram@[self.nametable_index(a)]
        } else {
            self.palette_ram@[Self::palette_index(a)]
        }
    }

    /// The PPU after `data` is written at `addr`: pattern writes are ignored.
    pub closed spec fn vram_written(self, addr: u16, data: u8) -> Self {
        let a = addr & 0x3FFF;
        if a < 0x2000 {
            self
        } else if a < 0x3F00 {
            PPU { vram: vstd::array::spec_array_update(self.vram, self.nametable_index(a), data), ..self }
        } else {
            PPU {
                palette_ram: vstd::array::spec_array_update(self.palette_ram, Self::palette_index(a), data),
                ..self
            }
        }
    }

    /// PPUSTATUS: vblank in bit 7, sprite 0 hit in bit 6, overflow in bit 5, and the
    /// open-bus latch below.
    pub closed spec fn status_byte(self) -> u8 {
        (if self.status.vblank { 0x80u8 } else { 0 }) | (if self.status.sprite0_hit { 0x40u8 } else { 0 }) | (
        if self.status.sprite_overflow {
            0x20u8
        } else {
            0
        }) | (self.regs.io_latch & 0x1F)
    }

    /// What a CPU read of register `register` returns.
    pub closed spec fn register_value(self, register: u8) -> u8 {
        match register_of(register) {
            PPURegister::PPUSTATUS => self.status_byte(),
            PPURegister::OAMDATA => self.oam@[self.regs.oam_addr as int],
            PPURegister::PPUDATA => if self.regs.v & 0x3F00 == 0x3F00 {
                self.vram_value(self.regs.v)
            } else {
                self.regs.read_buffer
            },
            _ => self.regs.io_latch,
        }
    }

    /// The PPU after a CPU read of register `register`: PPUSTATUS clears vblank and
    /// the write toggle; PPUDATA refills the read buffer and steps the address.
    pub closed spec fn after_register_read(self, register: u8) -> Self {
        match register_of(register) {
            PPURegister::PPUSTATUS => PPU {
                status: Status { vblank: false, ..self.status },
                regs: Internal { w: false, io_latch: self.status_byte(), ..self.regs },
                ..self
            },
            PPURegister::OAMDATA => PPU {
                regs: Internal { io_latch: self.oam@[self.regs.oam_addr as int], ..self.regs },
                ..self
            },
            PPURegister::PPUDATA => PPU {
                regs: Internal {
                    read_buffer: if self.regs.v & 0x3F00 == 0x3F00 {
                        self.vram_value(self.regs.v.wrapping_sub(0x1000))
                    } else {
                        self.vram_value(self.regs.v)
                    },
                    v: self.regs.v.wrapping_add(self.ctrl.vram_addr_inc as u16),
                    ..self.regs
                },
                ..self
            },
            _ => self,
        }
    }

    /// The PPU after a CPU write of `data` to register `reg`; every write fills the
    /// open-bus latch.
    pub closed spec fn register_written(self, reg: u8, data: u8) -> Self {
        let p = self.register_effect(reg, data);
        PPU { regs: Internal { io_latch: data, ..p.regs }, ..p }
    }

    /// What a write of `data` to register `reg` does, apart from the latch.
    pub closed spec fn register_effect(self, reg: u8, data: u8) -> Self {
        match register_of(reg) {
            PPURegister::PPUCTRL => self.ctrl_written(data),
            PPURegister::PPUMASK => self.mask_written(data),
            PPURegister::PPUSTATUS => self,
            PPURegister::OAMADDR => PPU { regs: Internal { oam_addr: data, ..self.regs }, ..self },
            PPURegister::OAMDATA => self.oam_data_written(data),
            PPURegister::PPUSCROLL => self.scroll_written(data),
            PPURegister::PPUADDR => self.addr_written(data),
            PPURegister::PPUDATA => self.data_port_written(data),
        }
    }

    /// OAMDATA: the byte goes to OAM at OAMADDR, which steps on.
    pub closed spec fn oam_data_written(self, data: u8) -> Self {
        PPU {
            oam: vstd::array::spec_array_update(self.oam, self.regs.oam_addr as int, data),
            regs: Internal { oam_addr: self.regs.oam_addr.wrapping_add(1), ..self.regs },
            ..self
        }
    }

    /// PPUDATA: the byte goes to the PPU address space at v, which steps by the
    /// PPUCTRL increment.
    pub closed spec fn data_port_written(self, data: u8) -> Self {
        let p = self.vram_written(self.regs.v, data);
        PPU { regs: Internal { v: self.regs.v.wrapping_add(self.ctrl.vram_addr_inc as u16), ..self.regs }, ..p }
    }

    /// PPUCTRL: NMI enable, sprite size, pattern tables, address step, and the
    /// nametable select into t.
    pub closed spec fn ctrl_written(self, data: u8) -> Self {
        PPU {
            ctrl: Control {
                nmi_enable: data & 0b1000_0000 != 0,
                sprites_8x16: data & 0b0010_0000 != 0,
                bg_pattern_table_addr: if data & 0b0001_0000 != 0 { 0x1000 } else { 0x0000 },
                sprite_pattern_table_addr: if data & 0b0000_1000 != 0 { 0x1000 } else { 0x0000 },
                vram_addr_inc: if data & 0b0000_0100 != 0 { 32 } else { 1 },
            },
            regs: Internal { t: (self.regs.t & 0b0111_0011_1111_1111) | (((data as u16) & 0b0000_0011) << 10u16), ..self.regs },
            ..self
        }
    }

    /// PPUMASK: one flag per bit.
    pub closed spec fn mask_written(self, data: u8) -> Self {
        PPU {
            mask: Mask {
                grayscale: data & 0b0000_0001 != 0,
                show_bg_in_leftmost: data & 0b0000_0010 != 0,
                show_sprites_in_leftmost: data & 0b0000_0100 != 0,
                bg_rendering: data & 0b0000_1000 != 0,
                sprite_rendering: data & 0b0001_0000 != 0,
                emphasize_red: data & 0b0010_0000 != 0,
                emphasize_green: data & 0b0100_0000 != 0,
                emphasize_blue: data & 0b1000_0000 != 0,
            },
            ..self
        }
    }

    /// PPUSCROLL: the first write sets fine and coarse X, the second fine and
    /// coarse Y, both into t.
    pub closed spec fn scroll_written(self, data: u8) -> Self {
        let r = self.regs;
        if !r.w {
            PPU {
                regs: Internal {
                    x: data & 0x07,
                    t: (r.t & 0b1111_1111_1110_0000) | ((data as u16) >> 3u16),
                    w: true,
                    ..r
                },
                ..self
            }
        } else {
            PPU {
                regs: Internal {
                    t: (r.t & 0b0000_1100_0001_1111) | ((((data as u16) >> 3u16) & 0x1F) << 5u16) | (((
                    data as u16) & 0x07) << 12u16),
                    w: false,
                    ..r
                },
                ..self
            }
        }
    }

    /// PPUADDR: the first write sets the high six bits of t, the second the low
    /// byte, and then v takes t.
    pub closed spec fn addr_written(self, data: u8) -> Self {
        let r = self.regs;
        if !r.w {
            PPU { regs: Internal { t: (r.t & 0x00FF) | (((data as u16) & 0x3F) << 8u16), w: true, ..r }, ..self }
        } else {
            let t = (r.t & 0xFF00) | (data as u16);
            PPU { regs: Internal { t, v: t, w: false, ..r }, ..self }
        }
    }

    /// The PPU one dot later. At (241, 1) vblank starts, the NMI is latched when
    /// enabled and the frame counts as complete; at (-1, 1) the status flags clear;
    /// odd frames skip the last dot of the pre-render line. Lines -1..=239 clear
    /// secondary OAM at dot 1, evaluate sprites at dot 65, and run the render pipeline.
    pub closed spec fn ticked(self) -> Self {
        let b = self.vblank_edges();
        if b.timing.odd_frame && b.timing.scanline == -1 && b.timing.dot == 339 {
            PPU { timing: Timing { dot: 0, scanline: 0, odd_frame: false, ..b.timing }, ..b }
        } else {
            let c = if -1 <= b.timing.scanline <= 239 { b.line_work() } else { b };
            c.dot_advanced()
        }
    }

    /// Vblank starting at (241, 1), with the NMI latched when enabled and the frame
    /// marked complete; the status flags clearing at (-1, 1).
    pub closed spec fn vblank_edges(self) -> Self {
        let a = if self.timing.scanline == 241 && self.timing.dot == 1 {
            PPU {
                status: Status { vblank: true, ..self.status },
                timing: Timing { nmi_pending: self.ctrl.nmi_enable, frame_complete: true, ..self.timing },
                ..self
            }
        } else {
            self
        };
        if a.timing.scanline == -1 && a.timing.dot == 1 {
            PPU { status: Status { vblank: false, sprite0_hit: false, sprite_overflow: false }, ..a }
        } else {
            a
        }
    }

    /// The work of one dot on a rendering line: sprite 0 handed over at dot 0,
    /// secondary OAM cleared at dot 1, sprites evaluated at dot 65, and the render
    /// pipeline.
    pub closed spec fn line_work(self) -> Self {
        let c1 = if self.timing.dot == 0 {
            PPU { sprites: SpriteLine { zero_current: self.sprites.zero_next, ..self.sprites }, ..self }
        } else {
            self
        };
        let c2 = if c1.timing.dot == 1 {
            PPU { oam2: vstd::array::spec_array_fill_for_copy_type::<u8, 32>(0xFFu8), ..c1 }
        } else {
            c1
        };
        let c3 = if c2.timing.dot == 65 { c2.sprites_evaluated() } else { c2 };
        c3.render_cycle()
    }

    /// The dot counter one step on, wrapping into the next line and, after line
    /// 260, into the next frame.
    pub closed spec fn dot_advanced(self) -> Self {
        let t = self.timing;
        let dot = t.dot + 1;
        if dot > 340 {
            let scanline = t.scanline + 1;
            if scanline > 260 {
                PPU { timing: Timing { dot: 0, scanline: -1i16, odd_frame: !t.odd_frame, ..t }, ..self }
            } else {
                PPU { timing: Timing { dot: 0, scanline: scanline as i16, ..t }, ..self }
            }
        } else {
            PPU { timing: Timing { dot: dot as u16, ..t }, ..self }
        }
    }

    pub fn new(mirroring: Mirroring, chr_rom: Vec<u8>) -> (ppu: Self)
        requires
            chr_rom@.len() >= 0x2000,
        ensures
            ppu.scanline() == -1,
            ppu.dot() == 0,
            !ppu.odd(),
            !ppu.nmi_pending(),
            !ppu.nmi_enabled(),
            !ppu.vblank(),
            !ppu.frame_done(),
            !ppu.write_toggle(),
            !ppu.rendering_enabled(),
            ppu.oam_addr() == 0,
            ppu.vram_address() == 0,
            ppu.temp_address() == 0,
            ppu.read_buffer() == 0,
            ppu.address_step() == 1,
            ppu.fine_x() == 0,
            ppu.mirroring_of() == mirroring,
            ppu.pattern_tables() == chr_rom@,
            forall|state: PpuState| #[trigger] ppu.saved_as(state) ==> ppu_power_on(state),
            ppu.oam_view() == Seq::new(256, |_i: int| 0u8),
            ppu.framebuffer_view() == Seq::new(61440, |_i: int| (0u8, 0u8, 0u8)),
            forall|a: u16| 0x2000 <= a & 0x3FFF ==> #[trigger] ppu.vram_value(a) == 0,
            forall|a: u16| a & 0x3FFF < 0x2000 ==> #[trigger] ppu.vram_value(a) == chr_rom@[(a & 0x3FFF) as int],
    {
        let ppu = Self {
            ctrl: Control {
                nmi_enable: false,
                sprites_8x16: false,
                bg_pattern_table_addr: 0,
                sprite_pattern_table_addr: 0,
                vram_addr_inc: 1,
            },
            mask: Mask {
                emphasize_blue: false,
                emphasize_green: false,
                emphasize_red: false,
                sprite_rendering: false,
                bg_rendering: false,
                show_sprites_in_leftmost: false,
                show_bg_in_leftmost: false,
                grayscale: false,
            },
            status: Status { vblank: false, sprite0_hit: false, sprite_overflow: false },
            regs: Internal { v: 0, t: 0, x: 0, w: false, read_buffer: 0, io_latch: 0, oam_addr: 0 },
            timing: Timing {
                scanline: -1,  // start on pre-render
                dot: 0,
                odd_frame: false,
                nmi_pending: false,
                frame_complete: false,
            },
            oam: [0; 256],
            oam2: [0; 32],
            vram: [0; 2048],
            palette_ram: [0; 32],
            mirroring,
            chr_rom,
            bg: Background {
                shift_lo: 0,
                shift_hi: 0,
                attr_shift_lo: 0,
                attr_shift_hi: 0,
                attr_latch_lo: false,
                attr_latch_hi: false,
                nt_latch: 0,
                at_latch: 0,
                lo_latch: 0,
                hi_latch: 0,
            },
            sprites: SpriteLine {
                pattern_lo: [0; 8],
                pattern_hi: [0; 8],
                attr: [0; 8],
                x: [0; 8],
                zero_next: false,
                zero_current: false,
            },
            framebuffer: [(0u8, 0u8, 0u8); 61440],
        };
        assert(ppu.oam@ =~= Seq::new(256, |_i: int| 0u8));
        assert(ppu.oam2@ =~= Seq::new(32, |_i: int| 0u8));
        assert(ppu.vram@ =~= Seq::new(2048, |_i: int| 0u8));
        assert(ppu.palette_ram@ =~= Seq::new(32, |_i: int| 0u8));
        assert(ppu.sprites.pattern_lo@ =~= Seq::new(8, |_i: int| 0u8));
        assert(ppu.sprites.pattern_hi@ =~= Seq::new(8, |_i: int| 0u8));
        assert(ppu.sprites.attr@ =~= Seq::new(8, |_i: int| 0u8));
        assert(ppu.sprites.x@ =~= Seq::new(8, |_i: int| 0u8));
        assert(ppu.framebuffer@ =~= Seq::new(61440, |_i: int| (0u8, 0u8, 0u8)));
        assert forall|a: u16| 0x2000 <= a & 0x3FFF implies #[trigger] ppu.vram_value(a) == 0 by {
            let b = a & 0x3FFF;
            if b < 0x3F00 {
                ppu.lemma_nametable_index_bounds(b);
            } else {
                Self::lemma_palette_index_bounds(b);
            }
        }
        ppu
    }

    proof fn lemma_nametable_index_bounds(self, addr: u16)
        requires
            0x2000 <= addr,
        ensures
            0 <= self.nametable_index(addr) < 2048,
    {
    }

    proof fn lemma_palette_index_bounds(addr: u16)
        requires
            0x3F00 <= addr,
        ensures
            0 <= Self::palette_index(addr) < 32,
    {
    }

    /// `state` records this PPU: every register, memory, latch and counter, and the
    /// picture. (The pattern tables and the mirroring come from the cartridge.)
    pub closed spec fn saved_as(&self, state: PpuState) -> bool {
        &&& state.nmi_enable == self.ctrl.nmi_enable
        &&& state.sprites_8x16 == self.ctrl.sprites_8x16
        &&& state.bg_pattern_table_addr == self.ctrl.bg_pattern_table_addr
        &&& state.sprite_pattern_table_addr == self.ctrl.sprite_pattern_table_addr
        &&& state.vram_addr_inc == self.ctrl.vram_addr_inc
        &&& state.emphasize_blue == self.mask.emphasize_blue
        &&& state.emphasize_green == self.mask.emphasize_green
        &&& state.emphasize_red == self.mask.emphasize_red
        &&& state.sprite_rendering == self.mask.sprite_rendering
        &&& state.bg_rendering == self.mask.bg_rendering
        &&& state.show_sprites_in_leftmost == self.mask.show_sprites_in_leftmost
        &&& state.show_bg_in_leftmost == self.mask.show_bg_in_leftmost
        &&& state.grayscale == self.mask.grayscale
        &&& state.vblank_flag == self.status.vblank
        &&& state.sprite0_hit == self.status.sprite0_hit
        &&& state.sprite_overflow == self.status.sprite_overflow
        &&& state.oam_addr == self.regs.oam_addr
        &&& state.oam == self.oam
        &&& state.oam2 == self.oam2
        &&& state.v == self.regs.v
        &&& state.t == self.regs.t
        &&& state.x == self.regs.x
        &&& state.w == self.regs.w
        &&& state.read_buffer == self.regs.read_buffer
        &&& state.io_latch == self.regs.io_latch
        &&& state.scanline == self.timing.scanline
        &&& state.dot == self.timing.dot
        &&& state.odd_frame == self.timing.odd_frame
        &&& state.nmi_pending == self.timing.nmi_pending
        &&& state.vram == self.vram
        &&& state.palette_ram == self.palette_ram
        &&& state.bg_shift_lo == self.bg.shift_lo
        &&& state.bg_shift_hi == self.bg.shift_hi
        &&& state.attr_shift_lo == self.bg.attr_shift_lo
        &&& state.attr_shift_hi == self.bg.attr_shift_hi
        &&& state.attr_latch_lo == self.bg.attr_latch_lo
        &&& state.attr_latch_hi == self.bg.attr_latch_hi
        &&& state.nt_latch == self.bg.nt_latch
        &&& state.at_latch == self.bg.at_latch
        &&& state.bg_lo_latch == self.bg.lo_latch
        &&& state.bg_hi_latch == self.bg.hi_latch
        &&& state.sprite_pattern_lo == self.sprites.pattern_lo
        &&& state.sprite_pattern_hi == self.sprites.pattern_hi
        &&& state.sprite_attr == self.sprites.attr
        &&& state.sprite_x == self.sprites.x
        &&& state.sprite_zero_next == self.sprites.zero_next
        &&& state.sprite_zero_current == self.sprites.zero_current
        &&& state.frame_complete_flag == self.timing.frame_complete
        &&& state.framebuffer@ == self.framebuffer@
    }

    /// A state that fits the PPU: a full picture, the beam on the frame, fine X
    /// below 8, and pattern tables at 0x0000 or 0x1000.
    pub open spec fn loadable(state: PpuState) -> bool {
        &&& state.framebuffer@.len() == 61440
        &&& -1 <= state.scanline <= 260
        &&& state.dot <= 340
        &&& state.x < 8
        &&& (state.bg_pattern_table_addr == 0 || state.bg_pattern_table_addr == 0x1000)
        &&& (state.sprite_pattern_table_addr == 0 || state.sprite_pattern_table_addr == 0x1000)
    }

    pub fn save_state(&self) -> (state: PpuState)
        ensures
            self.saved_as(state),
    {
        let framebuffer = vstd::slice::slice_to_vec(self.framebuffer.as_slice());
        PpuState {
            nmi_enable: self.ctrl.nmi_enable,
            sprites_8x16: self.ctrl.sprites_8x16,
            bg_pattern_table_addr: self.ctrl.bg_pattern_table_addr,
            sprite_pattern_table_addr: self.ctrl.sprite_pattern_table_addr,
            vram_addr_inc: self.ctrl.vram_addr_inc,
            emphasize_blue: self.mask.emphasize_blue,
            emphasize_green: self.mask.emphasize_green,
            emphasize_red: self.mask.emphasize_red,
            sprite_rendering: self.mask.sprite_rendering,
            bg_rendering: self.mask.bg_rendering,
            show_sprites_in_leftmost: self.mask.show_sprites_in_leftmost,
            show_bg_in_leftmost: self.mask.show_bg_in_leftmost,
            grayscale: self.mask.grayscale,
            vblank_flag: self.status.vblank,
            sprite0_hit: self.status.sprite0_hit,
            sprite_overflow: self.status.sprite_overflow,
            oam_addr: self.regs.oam_addr,
            oam: self.oam,
            oam2: self.oam2,
            v: self.regs.v,
            t: self.regs.t,
            x: self.regs.x,
            w: self.regs.w,
            read_buffer: self.regs.read_buffer,
            io_latch: self.regs.io_latch,
            scanline: self.timing.scanline,
            dot: self.timing.dot,
            odd_frame: self.timing.odd_frame,
            nmi_pending: self.timing.nmi_pending,
            vram: self.vram,
            palette_ram: self.palette_ram,
            bg_shift_lo: self.bg.shift_lo,
            bg_shift_hi: self.bg.shift_hi,
            attr_shift_lo: self.bg.attr_shift_lo,
            attr_shift_hi: self.bg.attr_shift_hi,
            attr_latch_lo: self.bg.attr_latch_lo,
            attr_latch_hi: self.bg.attr_latch_hi,
            nt_latch: self.bg.nt_latch,
            at_latch: self.bg.at_latch,
            bg_lo_latch: self.bg.lo_latch,
            bg_hi_latch: self.bg.hi_latch,
            sprite_pattern_lo: self.sprites.pattern_lo,
            sprite_pattern_hi: self.sprites.pattern_hi,
            sprite_attr: self.sprites.attr,
            sprite_x: self.sprites.x,
            sprite_zero_next: self.sprites.zero_next,
            sprite_zero_current: self.sprites.zero_current,
            frame_complete_flag: self.timing.frame_complete,
            framebuffer,
        }
    }

    pub fn load_state(&mut self, state: &PpuState)
        requires
            Self::loadable(*state),
        ensures
            final(self).saved_as(*state),
            final(self).pattern_tables() == old(self).pattern_tables(),
            final(self).mirroring_of() == old(self).mirroring_of(),
    {
        proof { use_type_invariant(&*self); }
        let mut framebuffer = [(0u8, 0u8, 0u8); 61440];
        let mut i: usize = 0;
        while i < 61440
            invariant
                i <= 61440,
                state.framebuffer@.len() == 61440,
                forall|j: int| 0 <= j < i ==> framebuffer@[j] == state.framebuffer@[j],
            decreases 61440 - i,
        {
            framebuffer[i] = state.framebuffer[i];
            i = i + 1;
        }
        assert(framebuffer@ =~= state.framebuffer@);
        self.ctrl = Control {
            nmi_enable: state.nmi_enable,
            sprites_8x16: state.sprites_8x16,
            bg_pattern_table_addr: state.bg_pattern_table_addr,
            sprite_pattern_table_addr: state.sprite_pattern_table_addr,
            vram_addr_inc: state.vram_addr_inc,
        };
        self.mask = Mask {
            emphasize_blue: state.emphasize_blue,
            emphasize_green: state.emphasize_green,
            emphasize_red: state.emphasize_red,
            sprite_rendering: state.sprite_rendering,
            bg_rendering: state.bg_rendering,
            show_sprites_in_leftmost: state.show_sprites_in_leftmost,
            show_bg_in_leftmost: state.show_bg_in_leftmost,
            grayscale: state.grayscale,
        };
        self.status = Status {
            vblank: state.vblank_flag,
            sprite0_hit: state.sprite0_hit,
            sprite_overflow: state.sprite_overflow,
        };
        self.regs = Internal {
            v: state.v,
            t: state.t,
            x: state.x,
            w: state.w,
            read_buffer: state.read_buffer,
            io_latch: state.io_latch,
            oam_addr: state.oam_addr,
        };
        self.timing = Timing {
            scanline: state.scanline,
            dot: state.dot,
            odd_frame: state.odd_frame,
            nmi_pending: state.nmi_pending,
            frame_complete: state.frame_complete_flag,
        };
        self.oam = state.oam;
        self.oam2 = state.oam2;
        self.vram = state.vram;
        self.palette_ram = state.palette_ram;
        self.bg = Background {
            shift_lo: state.bg_shift_lo,
            shift_hi: state.bg_shift_hi,
            attr_shift_lo: state.attr_shift_lo,
            attr_shift_hi: state.attr_shift_hi,
            attr_latch_lo: state.attr_latch_lo,
            attr_latch_hi: state.attr_latch_hi,
            nt_latch: state.nt_latch,
            at_latch: state.at_latch,
            lo_latch: state.bg_lo_latch,
            hi_latch: state.bg_hi_latch,
        };
        self.sprites = SpriteLine {
            pattern_lo: state.sprite_pattern_lo,
            pattern_hi: state.sprite_pattern_hi,
            attr: state.sprite_attr,
            x: state.sprite_x,
            zero_next: state.sprite_zero_next,
            zero_current: state.sprite_zero_current,
        };
        self.framebuffer = framebuffer;
    }

    fn index_to_register(i: u8) -> (r: PPURegister)
        ensures
            r == register_of(i),
    {
        let r = i % 8;
        if r == 0 {
            PPURegister::PPUCTRL
        } else if r == 1 {
            PPURegister::PPUMASK
        } else if r == 2 {
            PPURegister::PPUSTATUS
        } else if r == 3 {
            PPURegister::OAMADDR
        } else if r == 4 {
            PPURegister::OAMDATA
        } else if r == 5 {
            PPURegister::PPUSCROLL
        } else if r == 6 {
            PPURegister::PPUADDR
        } else {
            PPURegister::PPUDATA
        }
    }

    /// What a read of `register` would return, without the read's side effects.
    pub fn peek_register(&self, register: u8) -> (r: u8)
        ensures
            r == self.register_value(register),
    {
        match Self::index_to_register(register) {
            PPURegister::PPUSTATUS => (if self.status.vblank { 0x80u8 } else { 0 }) | (if self.status.sprite0_hit {
                0x40u8
            } else {
                0
            }) | (if self.status.sprite_overflow { 0x20u8 } else { 0 }) | (self.regs.io_latch & 0x1F),
            PPURegister::OAMDATA => self.oam[self.regs.oam_addr as usize],
            PPURegister::PPUDATA => if self.regs.v & 0x3F00 == 0x3F00 {
                self.read_vram(self.regs.v)
            } else {
                self.regs.read_buffer
            },
            _ => self.regs.io_latch,
        }
    }

    pub fn read_register(&mut self, register: u8) -> (r: u8)
        ensures
            r == old(self).register_value(register),
            *final(self) == old(self).after_register_read(register),
    {
        proof { use_type_invariant(&*self); }
        let r = Self::index_to_register(register);

        match r {
            PPURegister::PPUSTATUS => {
                let status_bytes = (if self.status.vblank { 0x80u8 } else { 0 }) | (if self.status.sprite0_hit {
                    0x40u8
                } else {
                    0
                }) | (if self.status.sprite_overflow { 0x20u8 } else { 0 }) | (self.regs.io_latch & 0x1F);

                self.status = Status { vblank: false, ..self.status };
                self.regs = Internal { w: false, io_latch: status_bytes, ..self.regs };

                status_bytes
            },
            PPURegister::OAMDATA => {
                let oam_read = self.oam[self.regs.oam_addr as usize];
                self.regs = Internal { io_latch: oam_read, ..self.regs };
                oam_read
            },
            PPURegister::PPUDATA => {
                let ret;
                let v = self.regs.v;
                let buffered;
                if v & 0x3F00 == 0x3F00 {
                    ret = self.read_vram(v);
                    buffered = self.read_vram(v.wrapping_sub(0x1000));
                } else {
                    ret = self.regs.read_buffer;
                    buffered = self.read_vram(v);
                }
                let next = v.wrapping_add(self.ctrl.vram_addr_inc as u16);
                self.regs = Internal { read_buffer: buffered, v: next, ..self.regs };
                ret
            },
            _ => self.regs.io_latch,
        }
    }

    pub fn write_register(&mut self, reg: u8, data: u8)
        ensures
            *final(self) == old(self).register_written(reg, data),
    {
        proof { use_type_invariant(&*self); }
        self.apply_register_write(reg, data);
        proof { use_type_invariant(&*self); }
        self.regs = Internal { io_latch: data, ..self.regs };
    }

    fn apply_register_write(&mut self, reg: u8, data: u8)
        ensures
            *final(self) == old(self).register_effect(reg, data),
    {
        proof { use_type_invariant(&*self); }
        match Self::index_to_register(reg) {
            PPURegister::PPUCTRL => self.write_ctrl(data),
            PPURegister::PPUMASK => self.write_mask(data),
            PPURegister::PPUSTATUS => {},
            PPURegister::OAMADDR => {
                self.regs = Internal { oam_addr: data, ..self.regs };
            },
            PPURegister::OAMDATA => self.write_oam_data(data),
            PPURegister::PPUSCROLL => self.write_scroll(data),
            PPURegister::PPUADDR => self.write_addr(data),
            PPURegister::PPUDATA => self.write_data_port(data),
        }
    }

    fn write_oam_data(&mut self, data: u8)
        ensures
            *final(self) == old(self).oam_data_written(data),
    {
        proof { use_type_invariant(&*self); }
        let regs = self.regs;
        self.oam[regs.oam_addr as usize] = data;
        self.regs = Internal { oam_addr: regs.oam_addr.wrapping_add(1), ..regs };
    }

    fn write_data_port(&mut self, data: u8)
        ensures
            *final(self) == old(self).data_port_written(data),
    {
        proof { use_type_invariant(&*self); }
        let regs = self.regs;
        self.write_vram(regs.v, data);
        self.regs = Internal { v: regs.v.wrapping_add(self.ctrl.vram_addr_inc as u16), ..regs };
    }

    fn write_ctrl(&mut self, data: u8)
        ensures
            *final(self) == old(self).ctrl_written(data),
    {
        proof { use_type_invariant(&*self); }
        let regs = self.regs;
        self.ctrl = Control {
            nmi_enable: data & 0b1000_0000 != 0,
            sprites_8x16: data & 0b0010_0000 != 0,
            bg_pattern_table_addr: if data & 0b0001_0000 != 0 { 0x1000 } else { 0x0000 },
            sprite_pattern_table_addr: if data & 0b0000_1000 != 0 { 0x1000 } else { 0x0000 },
            vram_addr_inc: if data & 0b0000_0100 != 0 { 32 } else { 1 },
        };
        self.regs = Internal { t: (regs.t & 0b0111_0011_1111_1111) | (((data as u16) & 0b0000_0011) << 10u16), ..regs };
    }

    fn write_mask(&mut self, data: u8)
        ensures
            *final(self) == old(self).mask_written(data),
    {
        proof { use_type_invariant(&*self); }
        self.mask = Mask {
            grayscale: data & 0b0000_0001 != 0,
            show_bg_in_leftmost: data & 0b0000_0010 != 0,
            show_sprites_in_leftmost: data & 0b0000_0100 != 0,
            bg_rendering: data & 0b0000_1000 != 0,
            sprite_rendering: data & 0b0001_0000 != 0,
            emphasize_red: data & 0b0010_0000 != 0,
            emphasize_green: data & 0b0100_0000 != 0,
            emphasize_blue: data & 0b1000_0000 != 0,
        };
    }

    fn write_scroll(&mut self, data: u8)
        ensures
            *final(self) == old(self).scroll_written(data),
    {
        proof { use_type_invariant(&*self); }
        let regs = self.regs;
        if !regs.w {
            proof { crate::bits::lemma_byte_fields(data); }
            self.regs = Internal {
                x: data & 0x07,
                t: (regs.t & 0b1111_1111_1110_0000) | ((data as u16) >> 3u16),
                w: true,
                ..regs
            };
        } else {
            let coarse_y = ((data as u16) >> 3u16) & 0x1F;
            let fine_y = ((data as u16) & 0x07) << 12u16;
            self.regs = Internal { t: (regs.t & 0b0000_1100_0001_1111) | (coarse_y << 5u16) | fine_y, w: false, ..regs };
        }
    }

    fn write_addr(&mut self, data: u8)
        ensures
            *final(self) == old(self).addr_written(data),
    {
        proof { use_type_invariant(&*self); }
        let regs = self.regs;
        if !regs.w {
            self.regs = Internal { t: (regs.t & 0x00FF) | (((data as u16) & 0x3F) << 8u16), w: true, ..regs };
        } else {
            let t = (regs.t & 0xFF00) | (data as u16);
            self.regs = Internal { t, v: t, w: false, ..regs };
        }
    }

    pub fn tick(&mut self)
        ensures
            *final(self) == old(self).ticked(),
    {
        proof { use_type_invariant(&*self); }
        self.signal_vblank_edges();

        if self.timing.odd_frame && self.timing.scanline == -1 && self.timing.dot == 339 {
            self.timing = Timing { dot: 0, scanline: 0, odd_frame: false, ..self.timing };
            return;
        }

        if self.timing.scanline >= -1 && self.timing.scanline <= 239 {
            self.do_line_work();
        }
        self.advance_dot();
    }

    fn signal_vblank_edges(&mut self)
        ensures
            *final(self) == old(self).vblank_edges(),
    {
        proof { use_type_invariant(&*self); }
        if self.timing.scanline == 241 && self.timing.dot == 1 {
            self.status = Status { vblank: true, ..self.status };
            self.timing = Timing { nmi_pending: self.ctrl.nmi_enable, frame_complete: true, ..self.timing };
        }

        if self.timing.scanline == -1 && self.timing.dot == 1 {
            self.status = Status { vblank: false, sprite0_hit: false, sprite_overflow: false };
        }
    }

    fn do_line_work(&mut self)
        requires
            -1 <= old(self).scanline() <= 239,
        ensures
            *final(self) == old(self).line_work(),
    {
        proof { use_type_invariant(&*self); }
        if self.timing.dot == 0 {
            self.sprites = SpriteLine { zero_current: self.sprites.zero_next, ..self.sprites };
        }
        if self.timing.dot == 1 {
            self.oam2 = [0xFFu8; 32];
        }
        if self.timing.dot == 65 {
            self.evaluate_sprites();
        }
        self.run_render_cycle();
    }

    fn advance_dot(&mut self)
        ensures
            *final(self) == old(self).dot_advanced(),
    {
        proof { use_type_invariant(&*self); }
        let mut timing = self.timing;
        timing.dot = timing.dot + 1;
        if timing.dot > 340 {
            timing.dot = 0;
            timing.scanline = timing.scanline + 1;
            if timing.scanline > 260 {
                timing.scanline = -1;
                timing.odd_frame = !timing.odd_frame;
            }
        }
        self.timing = timing;
    }

    pub fn take_nmi(&mut self) -> (pending: bool)
        ensures
            pending == old(self).nmi_pending(),
            *final(self) == old(self).nmi_taken(),
    {
        proof { use_type_invariant(&*self); }
        let pending = self.timing.nmi_pending;
        self.timing = Timing { nmi_pending: false, ..self.timing };
        pending
    }

    /// The PPU with its pending NMI consumed.
    pub closed spec fn nmi_taken(self) -> Self {
        PPU { timing: Timing { nmi_pending: false, ..self.timing }, ..self }
    }

    /// Whether a frame has been completed since the last time anyone asked, and
    /// the PPU with that news consumed.
    pub fn frame_complete(&mut self) -> (done: bool)
        ensures
            done == old(self).frame_done(),
            *final(self) == old(self).frame_taken(),
    {
        proof { use_type_invariant(&*self); }
        let done = self.timing.frame_complete;
        self.timing = Timing { frame_complete: false, ..self.timing };
        done
    }

    pub closed spec fn frame_taken(self) -> Self {
        PPU { timing: Timing { frame_complete: false, ..self.timing }, ..self }
    }

    pub fn get_framebuffer(&self) -> (frame: &[(u8, u8, u8)])
        ensures
            frame@ == self.framebuffer_view(),
    {
        self.framebuffer.as_slice()
    }

    /// The PPU after a reset: control, mask and the write toggle cleared, timing
    /// back to the pre-render line, pending NMI and status flags dropped.
    pub closed spec fn reset_state(self) -> Self {
        PPU {
            ctrl: Control {
                nmi_enable: false,
                sprites_8x16: false,
                bg_pattern_table_addr: 0,
                sprite_pattern_table_addr: 0,
                vram_addr_inc: 1,
            },
            mask: Mask {
                emphasize_blue: false,
                emphasize_green: false,
                emphasize_red: false,
                sprite_rendering: false,
                bg_rendering: false,
                show_sprites_in_leftmost: false,
                show_bg_in_leftmost: false,
                grayscale: false,
            },
            status: Status { vblank: false, sprite0_hit: false, sprite_overflow: false },
            regs: Internal { w: false, x: 0, t: 0, read_buffer: 0, ..self.regs },
            timing: Timing { scanline: -1i16, dot: 0, odd_frame: false, nmi_pending: false, frame_complete: false },
            ..self
        }
    }

    pub fn reset(&mut self)
        ensures
            *final(self) == old(self).reset_state(),
    {
        proof { use_type_invariant(&*self); }
        self.timing = Timing { scanline: -1, dot: 0, odd_frame: false, nmi_pending: false, frame_complete: false };
        self.regs = Internal { w: false, x: 0, t: 0, read_buffer: 0, ..self.regs };
        self.ctrl = Control {
            nmi_enable: false,
            sprites_8x16: false,
            bg_pattern_table_addr: 0,
            sprite_pattern_table_addr: 0,
            vram_addr_inc: 1,
        };
        self.mask = Mask {
            emphasize_blue: false,
            emphasize_green: false,
            emphasize_red: false,
            sprite_rendering: false,
            bg_rendering: false,
            show_sprites_in_leftmost: false,
            show_bg_in_leftmost: false,
            grayscale: false,
        };
        self.status = Status { vblank: false, sprite0_hit: false, sprite_overflow: false };
    }

    fn read_vram(&self, addr: u16) -> (r: u8)
        ensures
            r == self.vram_value(addr),
    {
        proof { use_type_invariant(self); }
        let addr = addr & 0x3FFF;  // PPU address space is 14-bit
        if addr < 0x2000 {
            self.chr_rom[addr as usize]
        } else if addr < 0x3F00 {
            self.vram[self.mirror_nametable(addr)]
        } else {
            self.palette_ram[Self::mirror_palette(addr)]
        }
    }

    fn write_vram(&mut self, addr: u16, data: u8)
        ensures
            *final(self) == old(self).vram_written(addr, data),
    {
        proof { use_type_invariant(&*self); }
        let addr = addr & 0x3FFF;
        if addr < 0x2000 {
            // Pattern tables are CHR ROM here; writes to them are dropped.
        } else if addr < 0x3F00 {
            let index = self.mirror_nametable(addr);
            self.vram[index] = data;
        } else {
            self.palette_ram[Self::mirror_palette(addr)] = data;
        }
    }

    fn mirror_nametable(&self, addr: u16) -> (index: usize)
        requires
            addr >= 0x2000,
        ensures
            index == self.nametable_index(addr),
            index < 2048,
    {
        let addr = (addr - 0x2000) % 0x1000;
        let table = addr / 0x0400;
        let offset = addr % 0x0400;

        let physical_table = match self.mirroring {
            Mirroring::Horizontal => table / 2,
            Mirroring::Vertical | Mirroring::FourScreen => table % 2,
            Mirroring::SingleScreenLower => 0,
            Mirroring::SingleScreenUpper => 1,
        };

        (physical_table as usize * 0x0400) + offset as usize
    }

    fn mirror_palette(addr: u16) -> (index: usize)
        requires
            addr >= 0x3F00,
        ensures
            index == Self::palette_index(addr),
            index < 32,
    {
        let mut index = (addr - 0x3F00) % 0x20;
        if index >= 0x10 && index % 4 == 0 {
            index = index - 0x10;
        }
        index as usize
    }

    /// The 2-bit color of pixel (`row`, `col`) of tile `tile_index` in the pattern
    /// table at `table_base`: bit `7 - col` of the tile's two bit planes.
    pub closed spec fn tile_pixel_value(self, table_base: u16, tile_index: u8, row: u8, col: u8) -> u8 {
        let tile_addr = (table_base + tile_index * 16) as u16;
        let plane0 = self.vram_value((tile_addr + row) as u16);
        let plane1 = self.vram_value((tile_addr + row + 8) as u16);
        let bit = (7 - col) as u8;
        (((plane1 >> bit) & 1) << 1u8) | ((plane0 >> bit) & 1)
    }

    fn tile_pixel(&self, table_base: u16, tile_index: u8, row: u8, col: u8) -> (r: u8)
        requires
            table_base <= 0x1000,
            row < 8,
            col < 8,
        ensures
            r == self.tile_pixel_value(table_base, tile_index, row, col),
    {
        let tile_addr = table_base + (tile_index as u16 * 16);

        let plane0 = self.read_vram(tile_addr + row as u16);
        let plane1 = self.read_vram(tile_addr + row as u16 + 8);

        let bit = 7 - col;
        let lo = (plane0 >> bit) & 1;
        let hi = (plane1 >> bit) & 1;

        (hi << 1u8) | lo
    }

    /// The color of the background pixel under v, looked up without the pipeline:
    /// the tile from the nametable, its palette from the attribute table, the pixel
    /// at fine Y and fine X from the pattern table, and the color from palette RAM.
    pub closed spec fn background_color_value(self) -> (u8, u8, u8) {
        let v = self.regs.v;
        let tile_index = self.vram_value(0x2000 | (v & 0x0FFF));
        let attr_byte = self.vram_value(0x23C0 | (v & 0x0C00) | ((v >> 4u16) & 0x38) | ((v >> 2u16) & 0x07));
        let shift = ((v >> 4u16) & 0b100) | (v & 0b010);
        let palette_select = (attr_byte >> shift) & 0b11;
        let fine_y = ((v >> 12u16) & 0x07) as u8;
        let pattern_value = self.tile_pixel_value(self.ctrl.bg_pattern_table_addr, tile_index, fine_y, self.regs.x);
        let palette_addr = 0x3F00 | ((palette_select as u16) << 2u16) | (pattern_value as u16);
        NES_PALETTE[(self.vram_value(palette_addr) & 0x3F) as int]
    }

    fn background_pixel_color(&self) -> (color: (u8, u8, u8))
        ensures
            color == self.background_color_value(),
    {
        proof { use_type_invariant(self); }
        let v = self.regs.v;

        let tile_addr = 0x2000 | (v & 0x0FFF);
        let tile_index = self.read_vram(tile_addr);

        let attr_addr = 0x23C0 | (v & 0x0C00) | ((v >> 4u16) & 0x38) | ((v >> 2u16) & 0x07);
        let attr_byte = self.read_vram(attr_addr);

        let shift = ((v >> 4u16) & 0b100) | (v & 0b010);
        proof { crate::bits::lemma_word_fields(v); }
        let palette_select = (attr_byte >> shift) & 0b11;

        
        let fine_y = ((v >> 12u16) & 0x07) as u8;
        let col = self.regs.x;

        let pattern_value = self.tile_pixel(self.ctrl.bg_pattern_table_addr, tile_index, fine_y, col);

        let palette_addr = 0x3F00 | ((palette_select as u16) << 2u16) | (pattern_value as u16);

        let color_index = self.read_vram(palette_addr) & 0x3F;
        proof { crate::bits::lemma_byte_fields(self.vram_value(palette_addr)); }
        NES_PALETTE[color_index as usize]
    }
}

/// Writing a byte to OAMDATA stores it at OAMADDR and steps OAMADDR, so a byte
/// written after setting OAMADDR to `a` reads back after setting OAMADDR to `a`
/// again.
pub proof fn lemma_oam_roundtrip(p: PPU, a: u8, data: u8)
    ensures
        ({
            let written = p.register_written(3, a).register_written(4, data).register_written(3, a);
            written.register_value(4) == data
        }),
{
    assert(register_of(3) == PPURegister::OAMADDR);
    assert(register_of(4) == PPURegister::OAMDATA);
}

/// Reading PPUSTATUS reports vblank in bit 7, then clears vblank and the write
/// toggle.
pub proof fn lemma_status_read_clears_vblank(p: PPU)
    ensures
        (p.register_value(2) & 0x80 != 0) == p.vblank(),
        !p.after_register_read(2).vblank(),
        !p.after_register_read(2).write_toggle(),
{
    assert(register_of(2) == PPURegister::PPUSTATUS);
    let (vb, hit, ov, latch) = (p.status.vblank, p.status.sprite0_hit, p.status.sprite_overflow, p.regs.io_latch);
    assert(((if vb { 0x80u8 } else { 0 }) | (if hit { 0x40u8 } else { 0 }) | (if ov { 0x20u8 } else { 0 }) | (
    latch & 0x1F)) & 0x80 != 0 <==> vb) by (bit_vector);
}

/// The second write to PPUADDR copies the assembled address into v, so the next
/// PPUDATA access goes to (high & 0x3F) << 8 | low.
pub proof fn lemma_ppuaddr_two_writes(p: PPU, high: u8, low: u8)
    requires
        !p.write_toggle(),
    ensures
        p.register_written(6, high).register_written(6, low).vram_address() == (((high as u16) & 0x3F)
            << 8u16) | (low as u16),
        !p.register_written(6, high).register_written(6, low).write_toggle(),
{
    assert(register_of(6) == PPURegister::PPUADDR);
    let t = p.regs.t;
    let t1 = (t & 0x00FF) | (((high as u16) & 0x3F) << 8u16);
    assert((t1 & 0xFF00) | (low as u16) == (((high as u16) & 0x3F) << 8u16) | (low as u16)) by (bit_vector)
        requires
            t1 == (t & 0x00FF) | (((high as u16) & 0x3F) << 8u16),
    ;
}

/// A PPU state records one PPU in one way: two states that both record it agree.
pub proof fn lemma_saved_states_agree(p: PPU, a: PpuState, b: PpuState)
    requires
        p.saved_as(a),
        p.saved_as(b),
    ensures
        ppu_states_agree(a, b),
{
}

/// PPUDATA reads outside the palettes lag by one: the first read after setting
/// the address returns the stale buffer, the second the byte at that address.
pub proof fn lemma_ppudata_read_lags(p: PPU)
    requires
        p.vram_address() & 0x3F00 != 0x3F00,
    ensures
        p.register_value(7) == p.read_buffer(),
        p.after_register_read(7).register_value(7) == p.vram_value(p.vram_address())
            || p.after_register_read(7).vram_address() & 0x3F00 == 0x3F00,
{
    assert(register_of(7) == PPURegister::PPUDATA);
}

/// Entry 0 of each sprite palette is entry 0 of the matching background palette,
/// and the 32 palette bytes repeat through 0x3FFF.
pub proof fn lemma_palette_mirrors(addr: u16)
    requires
        0x3F00 <= addr <= 0x3FFF,
    ensures
        PPU::palette_index(addr) == PPU::palette_index((0x3F00 + (addr - 0x3F00) % 0x20) as u16),
        (addr - 0x3F00) % 0x20 >= 0x10 && addr % 4 == 0 ==> PPU::palette_index(addr) == PPU::palette_index(
            (addr - 0x10) as u16,
        ),
{
}

/// Horizontal mirroring shares a physical table between 0x2000 and 0x2400,
/// vertical mirroring between 0x2000 and 0x2800; 0x3000..0x3EFF repeats
/// 0x2000..0x2EFF.
pub proof fn lemma_nametable_mirroring(p: PPU, offset: u16)
    requires
        offset < 0x0400,
    ensures
        p.mirroring_of() == Mirroring::Horizontal ==> p.nametable_index((0x2000 + offset) as u16)
            == p.nametable_index((0x2400 + offset) as u16),
        p.mirroring_of() == Mirroring::Vertical ==> p.nametable_index((0x2000 + offset) as u16)
            == p.nametable_index((0x2800 + offset) as u16),
        p.nametable_index((0x3000 + offset) as u16) == p.nametable_index((0x2000 + offset) as u16),
{
}

/// At line 241, dot 1 vblank begins: the status flag is set, an NMI is latched
/// exactly when PPUCTRL enables it, and the frame counts as finished.
pub proof fn lemma_vblank_start(p: PPU)
    requires
        p.scanline() == 241,
        p.dot() == 1,
    ensures
        p.ticked().vblank(),
        p.ticked().nmi_pending() == p.nmi_enabled(),
        p.ticked().frame_done(),
        p.ticked().scanline() == 241,
        p.ticked().dot() == 2,
{
}

/// The pre-render line clears vblank, sprite 0 hit and overflow at dot 1, before
/// the line's rendering work.
pub proof fn lemma_prerender_clears_status(p: PPU)
    requires
        p.scanline() == -1,
        p.dot() == 1,
    ensures
        !p.vblank_edges().vblank(),
        p.vblank_edges().status_byte() & 0xE0 == 0,
        p.ticked() == p.vblank_edges().line_work().dot_advanced(),
{
    let latch = p.regs.io_latch;
    assert(((0u8 | 0u8) | 0u8 | (latch & 0x1F)) & 0xE0 == 0) by (bit_vector);
}

/// A write to OAMDATA stores its byte at OAMADDR and steps OAMADDR by one.
pub proof fn lemma_oam_data_write(p: PPU, data: u8)
    ensures
        p.register_written(4, data).oam_view() == p.oam_view().update(p.oam_addr() as int, data),
        p.register_written(4, data).oam_addr() == p.oam_addr().wrapping_add(1),
        p.register_written(4, data).oam_view().len() == 256,
        p.oam_view().len() == 256,
{
    assert(register_of(4) == PPURegister::OAMDATA);
    assert(p.register_written(4, data).oam_view() =~= p.oam_view().update(p.oam_addr() as int, data));
}

/// Each PPU clock moves the beam one dot on: past dot 340 to the next line, past
/// line 260 back to the pre-render line of the next frame; on odd frames the
/// pre-render line's last dot is skipped.
pub proof fn lemma_tick_advances(p: PPU)
    ensures
        ({
            let q = p.ticked();
            let (s, d) = (p.scanline(), p.dot());
            if p.odd() && s == -1 && d == 339 {
                q.scanline() == 0 && q.dot() == 0 && !q.odd()
            } else if d < 340 {
                q.scanline() == s && q.dot() == d + 1 && q.odd() == p.odd()
            } else if s < 260 {
                q.scanline() == s + 1 && q.dot() == 0 && q.odd() == p.odd()
            } else {
                q.scanline() == -1 && q.dot() == 0 && q.odd() == !p.odd()
            }
        }),
{
    let b = p.vblank_edges();
    let c1 = if b.timing.dot == 0 {
        PPU { sprites: SpriteLine { zero_current: b.sprites.zero_next, ..b.sprites }, ..b }
    } else {
        b
    };
    let c2 = if c1.timing.dot == 1 {
        PPU { oam2: vstd::array::spec_array_fill_for_copy_type::<u8, 32>(0xFFu8), ..c1 }
    } else {
        c1
    };
    oam::lemma_evaluation_keeps_timing(c2);
    let c3 = if c2.timing.dot == 65 { c2.sprites_evaluated() } else { c2 };
    rendering::lemma_render_keeps_timing(c3);
}

/// With rendering off, or on dot 0, a render-pipeline step changes nothing, on any
/// line.
pub proof fn lemma_render_cycle_idle(p: PPU)
    requires
        !p.rendering_enabled() || p.dot() == 0,
    ensures
        p.render_cycle() == p,
{
    rendering::lemma_render_idle(p);
}

/// A write to PPUCTRL sets NMI enable from bit 7 and the PPUDATA step from bit 2
/// (32 or 1), and puts the nametable select (bits 0-1) into bits 10-11 of t.
pub proof fn lemma_ctrl_write(p: PPU, data: u8)
    ensures
        p.register_written(0, data).nmi_enabled() == (data & 0x80 != 0),
        p.register_written(0, data).tall_sprites() == (data & 0x20 != 0),
        p.register_written(0, data).bg_pattern_table() == (if data & 0x10 != 0 { 0x1000u16 } else { 0u16 }),
        p.register_written(0, data).sprite_pattern_table() == (if data & 0x08 != 0 { 0x1000u16 } else { 0u16 }),
        p.register_written(0, data).address_step() == (if data & 0x04 != 0 { 32u8 } else { 1u8 }),
        p.register_written(0, data).temp_address() == (p.temp_address() & 0x73FF) | (((data as u16) & 0x03)
            << 10u16),
        p.register_written(0, data).vram_address() == p.vram_address(),
        p.register_written(0, data).write_toggle() == p.write_toggle(),
{
    assert(register_of(0) == PPURegister::PPUCTRL);
    assert(0b0111_0011_1111_1111u16 == 0x73FFu16);
}

/// The two PPUSCROLL writes: the first sets fine X from the low three bits and
/// coarse X in t from the high five; the second sets fine and coarse Y in t.
pub proof fn lemma_scroll_writes(p: PPU, data: u8)
    ensures
        !p.write_toggle() ==> {
            let q = p.register_written(5, data);
            &&& q.fine_x() == data & 0x07
            &&& q.temp_address() == (p.temp_address() & 0xFFE0) | ((data as u16) >> 3u16)
            &&& q.write_toggle()
        },
        p.write_toggle() ==> {
            let q = p.register_written(5, data);
            &&& q.fine_x() == p.fine_x()
            &&& q.temp_address() == (p.temp_address() & 0x0C1F) | ((((data as u16) >> 3u16) & 0x1F) << 5u16)
                | (((data as u16) & 0x07) << 12u16)
            &&& !q.write_toggle()
        },
        p.register_written(5, data).vram_address() == p.vram_address(),
{
    assert(register_of(5) == PPURegister::PPUSCROLL);
    assert(0b1111_1111_1110_0000u16 == 0xFFE0u16);
    assert(0b0000_1100_0001_1111u16 == 0x0C1Fu16);
}

/// A PPUDATA access, read or write, steps the address by the PPUCTRL step; a
/// byte written to a nametable or palette address reads back from it.
pub proof fn lemma_ppudata_access(p: PPU, data: u8)
    ensures
        p.after_register_read(7).vram_address() == p.vram_address().wrapping_add(p.address_step() as u16),
        p.after_register_read(7).address_step() == p.address_step(),
        p.register_written(7, data).vram_address() == p.vram_address().wrapping_add(p.address_step() as u16),
        p.register_written(7, data).address_step() == p.address_step(),
        p.register_written(7, data).read_buffer() == p.read_buffer(),
        0x2000 <= p.vram_address() & 0x3FFF ==> p.register_written(7, data).vram_value(p.vram_address())
            == data,
{
    assert(register_of(7) == PPURegister::PPUDATA);
    let a = p.regs.v & 0x3FFF;
    if 0x2000 <= a {
        if a < 0x3F00 {
            p.lemma_nametable_index_bounds(a);
        } else {
            PPU::lemma_palette_index_bounds(a);
        }
    }
}

/// A whole PPU clock at dot 1 of the pre-render line leaves vblank, sprite 0 hit
/// and sprite overflow all clear, whatever rendering does on that dot, and moves
/// the beam to dot 2.
pub proof fn lemma_prerender_tick_clears_status(p: PPU)
    requires
        p.scanline() == -1,
        p.dot() == 1,
    ensures
        !p.ticked().vblank(),
        !p.ticked().sprite0_hit(),
        !p.ticked().sprite_overflow(),
        p.ticked().status_byte() & 0xE0 == 0,
        p.ticked().scanline() == -1,
        p.ticked().dot() == 2,
{
    let b = p.vblank_edges();
    let c2 = PPU { oam2: vstd::array::spec_array_fill_for_copy_type::<u8, 32>(0xFFu8), ..b };
    rendering::lemma_render_keeps_timing(c2);
    assert(b.line_work() == c2.render_cycle());
    let latch = p.ticked().regs.io_latch;
    assert(((0u8 | 0u8) | 0u8 | (latch & 0x1F)) & 0xE0 == 0) by (bit_vector);
}

/// A PPUSTATUS read returns vblank in bit 7, sprite 0 hit in bit 6, overflow in
/// bit 5 and the low five bits of the open-bus latch; the latch then holds that
/// byte, and sprite 0 hit and overflow stay as they were.
pub proof fn lemma_status_byte(p: PPU)
    ensures
        ({
            let v = p.register_value(2);
            &&& (v & 0x80 != 0) == p.vblank()
            &&& (v & 0x40 != 0) == p.sprite0_hit()
            &&& (v & 0x20 != 0) == p.sprite_overflow()
            &&& v & 0x1F == p.io_latch() & 0x1F
        }),
        p.after_register_read(2).io_latch() == p.register_value(2),
        p.after_register_read(2).sprite0_hit() == p.sprite0_hit(),
        p.after_register_read(2).sprite_overflow() == p.sprite_overflow(),
{
    assert(register_of(2) == PPURegister::PPUSTATUS);
    let (vb, hit, ov, latch) = (p.status.vblank, p.status.sprite0_hit, p.status.sprite_overflow, p.regs.io_latch);
    let v = (if vb { 0x80u8 } else { 0 }) | (if hit { 0x40u8 } else { 0 }) | (if ov { 0x20u8 } else { 0 }) | (latch
        & 0x1F);
    assert({
        &&& (v & 0x80 != 0) == vb
        &&& (v & 0x40 != 0) == hit
        &&& (v & 0x20 != 0) == ov
        &&& v & 0x1F == latch & 0x1F
    }) by (bit_vector)
        requires
            v == (if vb { 0x80u8 } else { 0 }) | (if hit { 0x40u8 } else { 0 }) | (if ov { 0x20u8 } else { 0 })
                | (latch & 0x1F),
    ;
}

/// The first PPUADDR write puts the low six bits of the byte into bits 8-13 of t,
/// clears bit 14, keeps the low byte of t, and sets the write toggle; v, the read
/// buffer and the address step are untouched.
pub proof fn lemma_ppuaddr_first_write(p: PPU, high: u8)
    requires
        !p.write_toggle(),
    ensures
        p.register_written(6, high).temp_address() == (p.temp_address() & 0x00FF) | (((high as u16) & 0x3F)
            << 8u16),
        p.register_written(6, high).write_toggle(),
        p.register_written(6, high).vram_address() == p.vram_address(),
        p.register_written(6, high).read_buffer() == p.read_buffer(),
        p.register_written(6, high).address_step() == p.address_step(),
{
    assert(register_of(6) == PPURegister::PPUADDR);
}

/// After the two PPUADDR writes the read buffer still holds what it held: the
/// first PPUDATA read outside the palettes returns it, and refills the buffer
/// with the byte at the new address.
pub proof fn lemma_ppudata_read_after_address(p: PPU, high: u8, low: u8)
    requires
        !p.write_toggle(),
    ensures
        ({
            let q = p.register_written(6, high).register_written(6, low);
            let addr = (((high as u16) & 0x3F) << 8u16) | (low as u16);
            &&& q.vram_address() == addr
            &&& q.read_buffer() == p.read_buffer()
            &&& addr & 0x3F00 != 0x3F00 ==> q.register_value(7) == p.read_buffer()
            &&& addr & 0x3F00 != 0x3F00 ==> q.after_register_read(7).read_buffer() == q.vram_value(addr)
            &&& q.after_register_read(7).vram_address() == addr.wrapping_add(q.address_step() as u16)
        }),
{
    lemma_ppuaddr_two_writes(p, high, low);
    assert(register_of(6) == PPURegister::PPUADDR);
    assert(register_of(7) == PPURegister::PPUDATA);
}

/// A write to PPUMASK sets one switch per bit: grayscale (bit 0), background and
/// sprites in the leftmost eight pixels (bits 1, 2), background and sprite
/// rendering (bits 3, 4); rendering is on when either of bits 3 and 4 is.
pub proof fn lemma_mask_write(p: PPU, data: u8)
    ensures
        p.register_written(1, data).grayscale() == (data & 0x01 != 0),
        p.register_written(1, data).bg_left_shown() == (data & 0x02 != 0),
        p.register_written(1, data).sprites_left_shown() == (data & 0x04 != 0),
        p.register_written(1, data).bg_enabled() == (data & 0x08 != 0),
        p.register_written(1, data).sprites_enabled() == (data & 0x10 != 0),
        p.register_written(1, data).rendering_enabled() == (data & 0x18 != 0),
        p.register_written(1, data).vram_address() == p.vram_address(),
        p.register_written(1, data).temp_address() == p.temp_address(),
{
    assert(register_of(1) == PPURegister::PPUMASK);
    assert((data & 0x18 != 0) == (data & 0x08 != 0 || data & 0x10 != 0)) by (bit_vector);
}

} // verus!
