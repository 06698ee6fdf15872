use vstd::prelude::*;
use vstd::arithmetic::power2::{pow2, lemma_pow2_strictly_increases};
use vstd::bits::{lemma_usize_shl_is_mul, lemma_usize_pow2_no_overflow};
use crate::cpu::mapper::{
    AnyMapper, BusConflicts, Mapper, Nrom, Uxrom, uxrom_prg_size_ok,
};

verus! {

/// How the two physical nametables appear in the PPU's four nametable slots.
#[derive(Clone, Copy, Debug, PartialEq, Eq, Structural)]
pub enum Mirroring {
    Vertical,
    Horizontal,
    SingleScreenLower,
    SingleScreenUpper,
    FourScreen,
}

#[derive(Clone, Copy, Debug, PartialEq, Eq, Structural)]
pub enum HeaderFormat {
    INes,
    Nes2,
}

#[derive(Clone, Copy, Debug, PartialEq, Eq, Structural)]
pub enum Timing {
    Ntsc,
    Pal,
    MultiRegion,
    Dendy,
}

/// What the 16-byte iNES / NES 2.0 header says about a cartridge.
#[derive(Clone, Debug)]
pub struct CartridgeHeader {
    pub format: HeaderFormat,
    pub prg_rom_size: usize,
    pub chr_rom_size: usize,
    pub mapper_number: u16,
    pub submapper: u8,
    pub mirroring: Mirroring,
    pub has_trainer: bool,
    pub battery_backed: bool,
    pub prg_ram_size: usize,
    pub prg_nvram_size: usize,
    pub chr_ram_size: usize,
    pub chr_nvram_size: usize,
    pub timing: Timing,
    pub console_type: u8,
    pub console_detail: u8,
    pub misc_rom_count: u8,
    pub expansion_device: u8,
}

// The older public name, kept for callers of parse_header.
#[allow(non_camel_case_types)]
pub type iNESHeader = CartridgeHeader;

pub type CartridgeMetadata = CartridgeHeader;

/// The decimal digits of `n`.
pub open spec fn decimal(n: nat) -> Seq<char>
    decreases n,
{
    if n < 10 {
        seq![(48 + n) as char]
    } else {
        decimal(n / 10).push((48 + n % 10) as char)
    }
}

/// std's `format!`, which Verus does not read: the contract claims that formatting
/// `prefix`, `n` and `suffix` in turn gives `prefix`, then `n` in decimal digits
/// without leading zeros, then `suffix`.
#[verifier::external_body]
fn numbered_message(prefix: &str, n: u16, suffix: &str) -> (message: String)
    ensures
        message@ == prefix@ + decimal(n as nat) + suffix@,
{
    format!("{prefix}{n}{suffix}")
}

/// A ROM size in bytes from its low byte, its high nibble and its unit. High
/// nibble 15 selects the exponent-multiplier form 2^E * (2M + 1), where E is the
/// upper six bits of the low byte and M its lower two bits. `None` when the size
/// does not fit in the host's address space.
pub open spec fn rom_size_of(low: u8, high: u8, unit: usize) -> Option<usize> {
    let size: int = if high == 15 {
        pow2((low / 4) as nat) * ((low % 4) * 2 + 1)
    } else {
        (high * 256 + low) * unit
    };
    if size <= usize::MAX { Some(size as usize) } else { None }
}

/// A RAM size from its NES 2.0 shift count: none for 0, else 64 << shift bytes.
pub open spec fn ram_size_of(shift: u8) -> usize {
    if shift == 0 { 0 } else { (64 * pow2(shift as nat)) as usize }
}

fn rom_size(low: u8, high: u8, unit: usize) -> (r: Result<usize, String>)
    ensures
        match rom_size_of(low, high, unit) {
            Some(n) => r == Ok::<usize, String>(n),
            None => (r matches Err(e) && e@ == "ROM size exceeds host address space"@),
        },
{
    let size: Option<usize> = if high == 15 {
        let exponent: u8 = low / 4;
        let multiplier: usize = ((low % 4) * 2 + 1) as usize;
        if exponent as u32 >= usize::BITS {
            proof {
                vstd::arithmetic::power2::lemma2_to64();
                if exponent as nat > usize::BITS as nat {
                    lemma_pow2_strictly_increases(usize::BITS as nat, exponent as nat);
                }
                assert(pow2(exponent as nat) > usize::MAX);
                assert(pow2(exponent as nat) * multiplier >= pow2(exponent as nat)) by (nonlinear_arith)
                    requires
                        multiplier >= 1,
                ;
            }
            None
        } else {
            proof {
                lemma_usize_pow2_no_overflow(exponent as nat);
                lemma_usize_shl_is_mul(1, exponent as usize);
            }
            let power = 1usize << (exponent as usize);
            assert(power == pow2(exponent as nat));
            power.checked_mul(multiplier)
        }
    } else {
        ((high as usize) * 256 + low as usize).checked_mul(unit)
    };
    assert(size == rom_size_of(low, high, unit));
    match size {
        Some(n) => Ok(n),
        None => Err("ROM size exceeds host address space".to_owned()),
    }
}

fn ram_size(shift: u8) -> (size: usize)
    requires
        shift < 16,
    ensures
        size == ram_size_of(shift),
{
    if shift == 0 {
        0
    } else {
        proof {
            lemma_usize_pow2_no_overflow(shift as nat);
            vstd::arithmetic::power2::lemma2_to64();
            lemma_pow2_strictly_increases(shift as nat, 16);
            lemma_usize_shl_is_mul(64, shift as usize);
        }
        64usize << (shift as usize)
    }
}

/// The four signature bytes every cartridge image starts with: "NES" and 0x1A.
pub open spec fn has_signature(bytes: Seq<u8>) -> bool {
    bytes[0] == 0x4E && bytes[1] == 0x45 && bytes[2] == 0x53 && bytes[3] == 0x1A
}

/// The header that `bytes` declares, or why there is none.
///
/// Byte 7 bits 2-3 equal to 0b10 mark NES 2.0; otherwise the legacy iNES layout
/// applies, where battery-backed boards declare their PRG RAM as nonvolatile and
/// mapper 0 gets at least one 8 KiB RAM bank.
pub open spec fn parsed_header(bytes: Seq<u8>) -> Result<CartridgeHeader, Seq<char>> {
    if bytes.len() < 16 {
        Err("file too short to contain a cartridge header"@)
    } else if !has_signature(bytes) {
        Err("invalid NES signature"@)
    } else {
        let nes2 = bytes[7] & 0x0c == 0x08;
        let mapper_number = ((bytes[6] >> 4u8) as u16) | ((bytes[7] & 0xf0) as u16) | if nes2 {
            ((bytes[8] & 15) as u16) << 8u16
        } else {
            0
        };
        let battery_backed = bytes[6] & 2 != 0;
        let chr = rom_size_of(bytes[5], if nes2 { bytes[9] >> 4u8 } else { 0 }, 0x2000);
        let prg = rom_size_of(bytes[4], if nes2 { bytes[9] & 15 } else { 0 }, 0x4000);
        let legacy_ram: int = if mapper_number == 0 {
            (if bytes[8] == 0 { 1 } else { bytes[8] as int }) * 0x2000
        } else {
            bytes[8] * 0x2000
        };
        match (chr, prg) {
            (Some(chr_rom_size), Some(prg_rom_size)) => Ok(
                CartridgeHeader {
                    format: if nes2 { HeaderFormat::Nes2 } else { HeaderFormat::INes },
                    mapper_number,
                    submapper: if nes2 { bytes[8] >> 4u8 } else { 0 },
                    prg_rom_size,
                    chr_rom_size,
                    mirroring: if bytes[6] & 8 != 0 {
                        Mirroring::FourScreen
                    } else if bytes[6] & 1 != 0 {
                        Mirroring::Vertical
                    } else {
                        Mirroring::Horizontal
                    },
                    has_trainer: bytes[6] & 4 != 0,
                    battery_backed,
                    prg_ram_size: if nes2 {
                        ram_size_of(bytes[10] & 15)
                    } else if battery_backed {
                        0
                    } else {
                        legacy_ram as usize
                    },
                    prg_nvram_size: if nes2 {
                        ram_size_of(bytes[10] >> 4u8)
                    } else if battery_backed {
                        legacy_ram as usize
                    } else {
                        0
                    },
                    chr_ram_size: if nes2 {
                        ram_size_of(bytes[11] & 15)
                    } else if chr_rom_size == 0 {
                        0x2000
                    } else {
                        0
                    },
                    chr_nvram_size: if nes2 { ram_size_of(bytes[11] >> 4u8) } else { 0 },
                    timing: if nes2 {
                        if bytes[12] & 3 == 0 {
                            Timing::Ntsc
                        } else if bytes[12] & 3 == 1 {
                            Timing::Pal
                        } else if bytes[12] & 3 == 2 {
                            Timing::MultiRegion
                        } else {
                            Timing::Dendy
                        }
                    } else {
                        Timing::Ntsc
                    },
                    console_type: bytes[7] & 3,
                    console_detail: if nes2 { bytes[13] } else { 0 },
                    misc_rom_count: if nes2 { bytes[14] & 3 } else { 0 },
                    expansion_device: if nes2 { bytes[15] & 0x3f } else { 0 },
                },
            ),
            _ => Err("ROM size exceeds host address space"@),
        }
    }
}

/// Both nibbles of a byte are below 16.
/// What byte 6 of a header decides: bit 0 picks vertical (set) or horizontal
/// (clear) mirroring unless bit 3 asks for four screens; bit 1 marks a battery;
/// bit 2 a trainer; the high nibble is the low nibble of the mapper number, and
/// byte 7's high nibble the next one. In the iNES layout the ROM sizes are
/// byte 4 times 16 KiB and byte 5 times 8 KiB.
pub proof fn lemma_header_fields(bytes: Seq<u8>)
    ensures
        match parsed_header(bytes) {
            Ok(h) => {
                &&& bytes[6] & 8 == 0 ==> (h.mirroring == Mirroring::Vertical) == (bytes[6] & 1 != 0)
                &&& bytes[6] & 8 == 0 ==> (h.mirroring == Mirroring::Horizontal) == (bytes[6] & 1 == 0)
                &&& bytes[6] & 8 != 0 ==> h.mirroring == Mirroring::FourScreen
                &&& h.battery_backed == (bytes[6] & 2 != 0)
                &&& h.has_trainer == (bytes[6] & 4 != 0)
                &&& h.mapper_number % 16 == bytes[6] / 16
                &&& (h.mapper_number / 16) % 16 == bytes[7] / 16
                &&& bytes[7] & 0x0C != 0x08 ==> h.format == HeaderFormat::INes && h.prg_rom_size == bytes[4]
                    * 0x4000 && h.chr_rom_size == bytes[5] * 0x2000 && h.mapper_number < 256
            },
            Err(_) => true,
        },
        bytes.len() >= 16 && has_signature(bytes) && bytes[7] & 0x0C != 0x08 ==> parsed_header(bytes) is Ok,
{
    if bytes.len() >= 16 {
        let (b6, b7, b8) = (bytes[6], bytes[7], bytes[8]);
        let nes2 = b7 & 0x0c == 0x08;
        let hi: u16 = if nes2 { ((b8 & 15) as u16) << 8u16 } else { 0 };
        let m = ((b6 >> 4u8) as u16) | ((b7 & 0xf0) as u16) | hi;
        assert(m % 16 == b6 / 16 && (m / 16) % 16 == b7 / 16 && (hi == 0 ==> m < 256)) by (bit_vector)
            requires
                m == ((b6 >> 4u8) as u16) | ((b7 & 0xf0) as u16) | hi,
                hi == 0 || hi == ((b8 & 15) as u16) << 8u16,
        ;
    }
}

proof fn lemma_nibbles(b: u8)
    ensures
        b & 15 < 16,
        b >> 4u8 < 16,
{
    assert(b & 15 < 16) by (bit_vector);
    assert(b >> 4u8 < 16) by (bit_vector);
}

pub fn parse_header(bytes: &[u8]) -> (r: Result<CartridgeHeader, String>)
    ensures
        match parsed_header(bytes@) {
            Ok(header) => r == Ok::<CartridgeHeader, String>(header),
            Err(msg) => (r matches Err(e) && e@ == msg),
        },
{
    if bytes.len() < 16 {
        return Err("file too short to contain a cartridge header".to_owned());
    }
    if !(bytes[0] == 0x4E && bytes[1] == 0x45 && bytes[2] == 0x53 && bytes[3] == 0x1A) {
        return Err("invalid NES signature".to_owned());
    }
    let nes2 = bytes[7] & 0x0c == 0x08;
    let mapper_number = ((bytes[6] >> 4u8) as u16) | ((bytes[7] & 0xf0) as u16) | if nes2 {
        ((bytes[8] & 15) as u16) << 8u16
    } else {
        0
    };
    let battery_backed = bytes[6] & 2 != 0;
    let chr_rom_size = rom_size(bytes[5], if nes2 { bytes[9] >> 4u8 } else { 0 }, 0x2000)?;
    let prg_rom_size = rom_size(bytes[4], if nes2 { bytes[9] & 15 } else { 0 }, 0x4000)?;
    // Legacy iNES RAM declarations are ambiguous. Keep the defaults of the supported
    // boards; NES 2.0 sizes are always explicit.
    let legacy_ram: usize = if mapper_number == 0 {
        (if bytes[8] == 0 { 1 } else { bytes[8] as usize }) * 0x2000
    } else {
        bytes[8] as usize * 0x2000
    };
    proof {
        lemma_nibbles(bytes[10]);
        lemma_nibbles(bytes[11]);
    }
    Ok(
        CartridgeHeader {
            format: if nes2 { HeaderFormat::Nes2 } else { HeaderFormat::INes },
            mapper_number,
            submapper: if nes2 { bytes[8] >> 4u8 } else { 0 },
            prg_rom_size,
            chr_rom_size,
            mirroring: if bytes[6] & 8 != 0 {
                Mirroring::FourScreen
            } else if bytes[6] & 1 != 0 {
                Mirroring::Vertical
            } else {
                Mirroring::Horizontal
            },
            has_trainer: bytes[6] & 4 != 0,
            battery_backed,
            prg_ram_size: if nes2 {
                ram_size(bytes[10] & 15)
            } else if battery_backed {
                0
            } else {
                legacy_ram
            },
            prg_nvram_size: if nes2 {
                ram_size(bytes[10] >> 4u8)
            } else if battery_backed {
                legacy_ram
            } else {
                0
            },
            chr_ram_size: if nes2 {
                ram_size(bytes[11] & 15)
            } else if chr_rom_size == 0 {
                0x2000
            } else {
                0
            },
            chr_nvram_size: if nes2 { ram_size(bytes[11] >> 4u8) } else { 0 },
            timing: if nes2 {
                if bytes[12] & 3 == 0 {
                    Timing::Ntsc
                } else if bytes[12] & 3 == 1 {
                    Timing::Pal
                } else if bytes[12] & 3 == 2 {
                    Timing::MultiRegion
                } else {
                    Timing::Dendy
                }
            } else {
                Timing::Ntsc
            },
            console_type: bytes[7] & 3,
            console_detail: if nes2 { bytes[13] } else { 0 },
            misc_rom_count: if nes2 { bytes[14] & 3 } else { 0 },
            expansion_device: if nes2 { bytes[15] & 0x3f } else { 0 },
        },
    )
}

/// A cartridge image turned into a board, with its header.
pub struct LoadedRom {
    pub mapper: AnyMapper,
    pub metadata: CartridgeMetadata,
}

/// Where PRG ROM starts in the image: after the header and any 512-byte trainer.
pub open spec fn prg_start(header: CartridgeHeader) -> int {
    16 + if header.has_trainer { 512int } else { 0 }
}

/// PRG RAM and PRG NVRAM together.
pub open spec fn total_prg_ram(header: CartridgeHeader) -> int {
    header.prg_ram_size + header.prg_nvram_size
}

/// Why a board cannot be built for `header`, or `None` when it can.
pub open spec fn board_error(header: CartridgeHeader) -> Option<Seq<char>> {
    let prg_ram = total_prg_ram(header);
    if header.mapper_number == 0 {
        if !(header.prg_rom_size == 0x4000 || header.prg_rom_size == 0x8000) || !(header.chr_rom_size
            == 0 || header.chr_rom_size == 0x2000) {
            Some("unsupported NROM PRG/CHR size"@)
        } else if header.submapper != 0 {
            Some("unsupported NROM submapper "@ + decimal(header.submapper as nat))
        } else if !(prg_ram == 0 || prg_ram == 0x2000) || (header.prg_ram_size != 0
            && header.prg_nvram_size != 0) {
            Some("NROM supports either no PRG RAM or one 8 KiB volatile/nonvolatile RAM bank"@)
        } else if header.has_trainer && prg_ram == 0 {
            Some("NROM trainer requires PRG RAM"@)
        } else {
            None
        }
    } else if header.mapper_number == 2 {
        if header.chr_rom_size != 0 || header.battery_backed || prg_ram != 0 || header.has_trainer {
            Some("supported UxROM boards require CHR RAM and no PRG RAM, battery, or trainer"@)
        } else if header.submapper > 2 {
            Some("unsupported UxROM submapper "@ + decimal(header.submapper as nat))
        } else if !uxrom_prg_size_ok(header.prg_rom_size as int) {
            Some("UxROM requires power-of-two PRG size from 32 to 256 KiB"@)
        } else {
            None
        }
    } else {
        Some("mapper "@ + decimal(header.mapper_number as nat) + " not yet implemented"@)
    }
}

/// Why the image `bytes` cannot be loaded, or `None` when it can.
pub open spec fn rom_error(bytes: Seq<u8>) -> Option<Seq<char>> {
    match parsed_header(bytes) {
        Err(msg) => Some(msg),
        Ok(header) => {
            let prg_end = prg_start(header) + header.prg_rom_size;
            let chr_end = prg_end + header.chr_rom_size;
            if header.console_type != 0 {
                Some("unsupported console type (only NES/Famicom is supported)"@)
            } else if header.timing == Timing::Pal || header.timing == Timing::Dendy {
                Some("unsupported timing: this emulator runs NTSC"@)
            } else if header.misc_rom_count != 0 {
                Some("miscellaneous cartridge ROMs are not supported"@)
            } else if header.chr_nvram_size != 0 {
                Some("CHR NVRAM is not supported"@)
            } else if header.prg_nvram_size != 0 && !header.battery_backed {
                Some("NVRAM declared without the battery flag"@)
            } else if prg_end > usize::MAX {
                Some("PRG file offset overflow"@)
            } else if chr_end > usize::MAX {
                Some("CHR file offset overflow"@)
            } else if bytes.len() < chr_end {
                Some("file too short for declared ROM sizes"@)
            } else if total_prg_ram(header) > usize::MAX {
                Some("PRG RAM size overflow"@)
            } else if header.chr_ram_size != (if header.chr_rom_size == 0 { 0x2000int } else { 0 }) {
                Some(
                    "supported boards require 8 KiB CHR RAM without CHR ROM, or no CHR RAM with CHR ROM"@,
                )
            } else {
                board_error(header)
            }
        },
    }
}

/// `mapper` is the board that the image `bytes`, with header `header`, describes:
/// its ROM banks cut from the image, its RAM cleared (NROM with a trainer has the
/// trainer's 512 bytes at 0x7000), and its registers as the header selects.
pub open spec fn board_for(bytes: Seq<u8>, header: CartridgeHeader, mapper: AnyMapper) -> bool {
    let prg_end = prg_start(header) + header.prg_rom_size;
    let chr_end = prg_end + header.chr_rom_size;
    let prg_rom = bytes.subrange(prg_start(header), prg_end);
    let chr_rom = bytes.subrange(prg_end, chr_end);
    match mapper {
        AnyMapper::Nrom(m) => {
            &&& header.mapper_number == 0
            &&& m.prg_rom_view() == prg_rom
            &&& m.chr_is_ram() == (header.chr_rom_size == 0)
            &&& m.chr_view() == if header.chr_rom_size == 0 {
                Seq::new(0x2000, |_i: int| 0u8)
            } else {
                chr_rom
            }
            &&& m.prg_ram_enabled() == (total_prg_ram(header) != 0)
            &&& m.board_mirroring() == header.mirroring
            &&& m.prg_ram_view() == Seq::new(
                0x2000,
                |i: int|
                    if header.has_trainer && 0x1000 <= i < 0x1200 {
                        bytes[16 + i - 0x1000]
                    } else {
                        0u8
                    },
            )
        },
        AnyMapper::Uxrom(m) => {
            &&& header.mapper_number == 2
            &&& m.prg_rom_view() == prg_rom
            &&& m.chr_view() == Seq::new(0x2000, |_i: int| 0u8)
            &&& m.selected_bank() == 0
            &&& m.bank_mask() == if header.prg_rom_size <= 0x20000 { 7u8 } else { 15u8 }
            &&& m.board_mirroring() == header.mirroring
            &&& m.conflicts() == if header.submapper == 1 {
                BusConflicts::NoConflict
            } else {
                BusConflicts::And
            }
        },
        AnyMapper::Cnrom(_) => false,
    }
}

pub fn load_rom(bytes: &[u8]) -> (r: Result<LoadedRom, String>)
    ensures
        match r {
            Ok(rom) => {
                &&& rom_error(bytes@) is None
                &&& parsed_header(bytes@) == Ok::<CartridgeHeader, Seq<char>>(rom.metadata)
                &&& board_for(bytes@, rom.metadata, rom.mapper)
            },
            Err(e) => rom_error(bytes@) == Some(e@),
        },
{
    let header = parse_header(bytes)?;
    if header.console_type != 0 {
        return Err("unsupported console type (only NES/Famicom is supported)".to_owned());
    }
    if header.timing == Timing::Pal || header.timing == Timing::Dendy {
        return Err("unsupported timing: this emulator runs NTSC".to_owned());
    }
    if header.misc_rom_count != 0 {
        return Err("miscellaneous cartridge ROMs are not supported".to_owned());
    }
    if header.chr_nvram_size != 0 {
        return Err("CHR NVRAM is not supported".to_owned());
    }
    if header.prg_nvram_size != 0 && !header.battery_backed {
        return Err("NVRAM declared without the battery flag".to_owned());
    }
    let prg_start: usize = 16usize + if header.has_trainer { 512 } else { 0 };
    let prg_end = match prg_start.checked_add(header.prg_rom_size) {
        Some(end) => end,
        None => {
            return Err("PRG file offset overflow".to_owned());
        },
    };
    let chr_end = match prg_end.checked_add(header.chr_rom_size) {
        Some(end) => end,
        None => {
            return Err("CHR file offset overflow".to_owned());
        },
    };
    if bytes.len() < chr_end {
        return Err("file too short for declared ROM sizes".to_owned());
    }
    let prg_ram_size = match header.prg_ram_size.checked_add(header.prg_nvram_size) {
        Some(size) => size,
        None => {
            return Err("PRG RAM size overflow".to_owned());
        },
    };
    let expected_chr_ram: usize = if header.chr_rom_size == 0 { 0x2000 } else { 0 };
    if header.chr_ram_size != expected_chr_ram {
        return Err(
            "supported boards require 8 KiB CHR RAM without CHR ROM, or no CHR RAM with CHR ROM".to_owned(),
        );
    }

    let prg_rom = vstd::slice::slice_to_vec(vstd::slice::slice_subrange(bytes, prg_start, prg_end));
    let chr_rom = vstd::slice::slice_to_vec(vstd::slice::slice_subrange(bytes, prg_end, chr_end));

    let mapper: AnyMapper = if header.mapper_number == 0 {
        if !(prg_rom.len() == 0x4000 || prg_rom.len() == 0x8000) || !(chr_rom.len() == 0
            || chr_rom.len() == 0x2000) {
            return Err("unsupported NROM PRG/CHR size".to_owned());
        }
        if header.submapper != 0 {
            let message = numbered_message("unsupported NROM submapper ", header.submapper as u16, "");
            proof {
                reveal_strlit("");
                assert(message@ =~= "unsupported NROM submapper "@ + decimal(header.submapper as nat));
            }
            return Err(message);
        }
        if !(prg_ram_size == 0 || prg_ram_size == 0x2000) || (header.prg_ram_size != 0
            && header.prg_nvram_size != 0) {
            return Err(
                "NROM supports either no PRG RAM or one 8 KiB volatile/nonvolatile RAM bank".to_owned(),
            );
        }
        if header.has_trainer && prg_ram_size == 0 {
            return Err("NROM trainer requires PRG RAM".to_owned());
        }
        let mut mapper = Nrom::with_mirroring(prg_rom, chr_rom, header.mirroring);
        mapper.set_prg_ram_enabled(prg_ram_size != 0);
        if header.has_trainer {
            let ghost start = mapper.prg_ram_view();
            let mut offset: usize = 0;
            while offset < 512
                invariant
                    offset <= 512,
                    bytes@.len() >= 528,
                    mapper.prg_ram_enabled(),
                    mapper.prg_rom_view() == prg_rom@,
                    mapper.chr_is_ram() == (header.chr_rom_size == 0),
                    mapper.chr_view() == if header.chr_rom_size == 0 {
                        Seq::new(0x2000, |_i: int| 0u8)
                    } else {
                        chr_rom@
                    },
                    mapper.board_mirroring() == header.mirroring,
                    mapper.prg_ram_view().len() == 0x2000,
                    forall|i: int|
                        0 <= i < 0x2000 ==> #[trigger] mapper.prg_ram_view()[i] == if 0x1000 <= i
                            < 0x1000 + offset {
                            bytes@[16 + i - 0x1000]
                        } else {
                            0u8
                        },
                decreases 512 - offset,
            {
                proof { Nrom::lemma_cpu_written(mapper, (0x7000 + offset) as u16, bytes@[16 + offset as int]); }
                mapper.write(0x7000 + offset as u16, bytes[16 + offset]);
                offset = offset + 1;
            }
        }
        proof {
            Nrom::lemma_bank_sizes(mapper);
        }
        assert(mapper.prg_ram_view() =~= Seq::new(
            0x2000,
            |i: int|
                if header.has_trainer && 0x1000 <= i < 0x1200 {
                    bytes@[16 + i - 0x1000]
                } else {
                    0u8
                },
        ));
        AnyMapper::Nrom(mapper)
    } else if header.mapper_number == 2 {
        if !(chr_rom.len() == 0) || header.battery_backed || prg_ram_size != 0 || header.has_trainer {
            return Err(
                "supported UxROM boards require CHR RAM and no PRG RAM, battery, or trainer".to_owned(),
            );
        }
        let conflicts = if header.submapper == 0 || header.submapper == 2 {
            BusConflicts::And
        } else if header.submapper == 1 {
            BusConflicts::NoConflict
        } else {
            let message = numbered_message("unsupported UxROM submapper ", header.submapper as u16, "");
            proof {
                reveal_strlit("");
                assert(message@ =~= "unsupported UxROM submapper "@ + decimal(header.submapper as nat));
            }
            return Err(message);
        };
        AnyMapper::Uxrom(Uxrom::new(prg_rom, header.mirroring, conflicts)?)
    } else {
        return Err(numbered_message("mapper ", header.mapper_number, " not yet implemented"));
    };

    Ok(LoadedRom { mapper, metadata: header })
}

} // verus!
