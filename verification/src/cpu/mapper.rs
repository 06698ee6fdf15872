use vstd::prelude::*;
use crate::cartridge::Mirroring;
use crate::savestate::MapperState;

verus! {

/// A cartridge board as the CPU and PPU see it: PRG space at 0x4020..=0xFFFF,
/// CHR space at 0x0000..=0x1FFF, and the board's nametable mirroring.
pub trait Mapper: Sized {
    /// The byte a CPU read of `address` returns.
    spec fn cpu_value(&self, address: u16) -> u8;

    /// The board after the CPU writes `data` to `address`.
    spec fn cpu_written(&self, address: u16, data: u8) -> Self;

    /// The byte a PPU read of `address` returns.
    spec fn ppu_value(&self, address: u16) -> u8;

    /// The board after the PPU writes `data` to `address`.
    spec fn ppu_written(&self, address: u16, data: u8) -> Self;

    spec fn mirroring_of(&self) -> Mirroring;

    /// `state` records this board's RAM and bank registers.
    spec fn saved_as(&self, state: MapperState) -> bool;

    /// Why `state` cannot be loaded into this board, or `None` when it can.
    spec fn load_error(&self, state: MapperState) -> Option<Seq<char>>;

    /// `after` is this board once `state` has been loaded into it.
    spec fn loaded_from(&self, state: MapperState, after: Self) -> bool;

    fn save_state(&self) -> (r: Result<MapperState, String>)
        ensures
            (r matches Ok(state) && self.saved_as(state)),
    ;

    fn load_state(&mut self, state: &MapperState) -> (r: Result<(), String>)
        ensures
            match old(self).load_error(*state) {
                Some(msg) => (r matches Err(e) && e@ == msg) && *final(self) == *old(self),
                None => r is Ok && old(self).loaded_from(*state, *final(self)),
            },
    ;

    fn read(&self, address: u16) -> (r: u8)
        ensures
            r == self.cpu_value(address),
    ;

    fn write(&mut self, address: u16, data: u8)
        ensures
            *final(self) == old(self).cpu_written(address, data),
    ;

    fn ppu_read(&self, address: u16) -> (r: u8)
        ensures
            r == self.ppu_value(address),
    ;

    fn ppu_write(&mut self, address: u16, data: u8)
        ensures
            *final(self) == old(self).ppu_written(address, data),
    ;

    fn mirroring(&self) -> (m: Mirroring)
        ensures
            m == self.mirroring_of(),
    ;

    /// Lets a board watch the PPU address bus; the boards here ignore it.
    fn notify_ppu_address(&mut self, _address: u16)
        ensures
            *final(self) == *old(self),
    {
    }
}

/// Copies an 8 KiB bank into a vector.
fn bank_to_vec(bank: &[u8; 0x2000]) -> (v: Vec<u8>)
    ensures
        v@ == bank@,
{
    let mut v: Vec<u8> = Vec::new();
    let mut i: usize = 0;
    while i < 0x2000
        invariant
            i <= 0x2000,
            v@ == bank@.subrange(0, i as int),
        decreases 0x2000 - i,
    {
        v.push(bank[i]);
        i = i + 1;
        assert(v@ =~= bank@.subrange(0, i as int));
    }
    assert(v@ =~= bank@);
    v
}

/// Copies an 8 KiB vector into a bank.
fn vec_to_bank(v: &Vec<u8>) -> (bank: [u8; 0x2000])
    requires
        v@.len() == 0x2000,
    ensures
        bank@ == v@,
{
    let mut bank = [0u8; 0x2000];
    let mut i: usize = 0;
    while i < 0x2000
        invariant
            i <= 0x2000,
            v@.len() == 0x2000,
            forall|j: int| 0 <= j < i ==> bank@[j] == v@[j],
        decreases 0x2000 - i,
    {
        bank[i] = v[i];
        i = i + 1;
    }
    assert(bank@ =~= v@);
    bank
}

/// NROM (mapper 0): 16 or 32 KiB of PRG ROM at 0x8000, 8 KiB of CHR ROM or RAM,
/// and optionally 8 KiB of PRG RAM at 0x6000.
pub struct Nrom {
    prg_rom: Vec<u8>,
    chr: [u8; 0x2000],
    chr_is_ram: bool,
    prg_ram: [u8; 0x2000],
    prg_ram_enabled: bool,
    mirroring: Mirroring,
}

impl Nrom {
    #[verifier::type_invariant]
    spec fn inv(self) -> bool {
        self.prg_rom.len() == 0x4000 || self.prg_rom.len() == 0x8000
    }

    pub closed spec fn prg_rom_view(&self) -> Seq<u8> {
        self.prg_rom@
    }

    pub closed spec fn chr_view(&self) -> Seq<u8> {
        self.chr@
    }

    pub closed spec fn prg_ram_view(&self) -> Seq<u8> {
        self.prg_ram@
    }

    pub closed spec fn chr_is_ram(&self) -> bool {
        self.chr_is_ram
    }

    pub closed spec fn prg_ram_enabled(&self) -> bool {
        self.prg_ram_enabled
    }

    pub closed spec fn board_mirroring(&self) -> Mirroring {
        self.mirroring
    }

    /// The board's RAM banks are always 8 KiB.
    pub broadcast proof fn lemma_bank_sizes(m: Nrom)
        ensures
            #[trigger] m.prg_ram_view().len() == 0x2000,
            m.chr_view().len() == 0x2000,
    {
    }

    /// A CPU write changes at most one byte of PRG RAM, and nothing else.
    pub proof fn lemma_cpu_written(m: Nrom, address: u16, data: u8)
        ensures
            m.cpu_written(address, data).prg_ram_view() == if m.prg_ram_enabled() && 0x6000 <= address
                <= 0x7FFF {
                m.prg_ram_view().update(address - 0x6000, data)
            } else {
                m.prg_ram_view()
            },
            m.cpu_written(address, data).prg_rom_view() == m.prg_rom_view(),
            m.cpu_written(address, data).chr_view() == m.chr_view(),
            m.cpu_written(address, data).chr_is_ram() == m.chr_is_ram(),
            m.cpu_written(address, data).prg_ram_enabled() == m.prg_ram_enabled(),
            m.cpu_written(address, data).board_mirroring() == m.board_mirroring(),
    {
    }

    pub(crate) fn set_prg_ram_enabled(&mut self, enabled: bool)
        ensures
            final(self).prg_ram_enabled() == enabled,
            final(self).prg_rom_view() == old(self).prg_rom_view(),
            final(self).chr_view() == old(self).chr_view(),
            final(self).prg_ram_view() == old(self).prg_ram_view(),
            final(self).chr_is_ram() == old(self).chr_is_ram(),
            final(self).board_mirroring() == old(self).board_mirroring(),
    {
        proof { use_type_invariant(&*self); }
        self.prg_ram_enabled = enabled;
    }

    pub fn new(prg_rom: Vec<u8>, chr_rom: Vec<u8>) -> (m: Self)
        requires
            prg_rom@.len() == 0x4000 || prg_rom@.len() == 0x8000,
            chr_rom@.len() == 0 || chr_rom@.len() == 0x2000,
        ensures
            m.prg_rom_view() == prg_rom@,
            m.chr_is_ram() == (chr_rom@.len() == 0),
            m.chr_view() == if chr_rom@.len() == 0 { Seq::new(0x2000, |_i: int| 0u8) } else { chr_rom@ },
            m.prg_ram_view() == Seq::new(0x2000, |_i: int| 0u8),
            m.prg_ram_enabled(),
            m.board_mirroring() == Mirroring::Horizontal,
    {
        Self::with_mirroring(prg_rom, chr_rom, Mirroring::Horizontal)
    }

    pub fn with_mirroring(prg_rom: Vec<u8>, chr_rom: Vec<u8>, mirroring: Mirroring) -> (m: Self)
        requires
            prg_rom@.len() == 0x4000 || prg_rom@.len() == 0x8000,
            chr_rom@.len() == 0 || chr_rom@.len() == 0x2000,
        ensures
            m.prg_rom_view() == prg_rom@,
            m.chr_is_ram() == (chr_rom@.len() == 0),
            m.chr_view() == if chr_rom@.len() == 0 { Seq::new(0x2000, |_i: int| 0u8) } else { chr_rom@ },
            m.prg_ram_view() == Seq::new(0x2000, |_i: int| 0u8),
            m.prg_ram_enabled(),
            m.board_mirroring() == mirroring,
    {
        let chr_is_ram = chr_rom.len() == 0;
        let chr = if chr_is_ram { [0u8; 0x2000] } else { vec_to_bank(&chr_rom) };
        let m = Self {
            prg_rom,
            chr,
            chr_is_ram,
            prg_ram: [0; 0x2000],
            prg_ram_enabled: true,
            mirroring,
        };
        assert(m.prg_ram@ =~= Seq::new(0x2000, |_i: int| 0u8));
        if chr_is_ram {
            assert(m.chr@ =~= Seq::new(0x2000, |_i: int| 0u8));
        }
        m
    }
}

impl Mapper for Nrom {
    open spec fn cpu_value(&self, address: u16) -> u8 {
        if 0x6000 <= address <= 0x7FFF && self.prg_ram_enabled() {
            self.prg_ram_view()[address - 0x6000]
        } else if address >= 0x8000 {
            self.prg_rom_view()[(address - 0x8000) % (self.prg_rom_view().len() as int)]
        } else {
            0
        }
    }

    closed spec fn cpu_written(&self, address: u16, data: u8) -> Self {
        if self.prg_ram_enabled && 0x6000 <= address <= 0x7FFF {
            Nrom {
                prg_ram: vstd::array::spec_array_update(self.prg_ram, address - 0x6000, data),
                ..*self
            }
        } else {
            *self
        }
    }

    open spec fn ppu_value(&self, address: u16) -> u8 {
        self.chr_view()[address as int % 0x2000]
    }

    closed spec fn ppu_written(&self, address: u16, data: u8) -> Self {
        if self.chr_is_ram {
            Nrom { chr: vstd::array::spec_array_update(self.chr, address as int % 0x2000, data), ..*self }
        } else {
            *self
        }
    }

    open spec fn mirroring_of(&self) -> Mirroring {
        self.board_mirroring()
    }

    open spec fn saved_as(&self, state: MapperState) -> bool {
        &&& state matches MapperState::Nrom { prg_ram, chr_ram }
        &&& prg_ram@ == self.prg_ram_view()
        &&& chr_ram@ == if self.chr_is_ram() { self.chr_view() } else { Seq::empty() }
    }

    open spec fn load_error(&self, state: MapperState) -> Option<Seq<char>> {
        match state {
            MapperState::Nrom { chr_ram, .. } => {
                if chr_ram@.len() != (if self.chr_is_ram() { 0x2000int } else { 0 }) {
                    Some("invalid NROM CHR RAM state"@)
                } else {
                    None
                }
            },
            _ => Some("savestate mapper mismatch"@),
        }
    }

    open spec fn loaded_from(&self, state: MapperState, after: Self) -> bool {
        &&& state matches MapperState::Nrom { prg_ram, chr_ram }
        &&& after.prg_ram_view() == prg_ram@
        &&& after.chr_view() == if self.chr_is_ram() { chr_ram@ } else { self.chr_view() }
        &&& after.prg_rom_view() == self.prg_rom_view()
        &&& after.chr_is_ram() == self.chr_is_ram()
        &&& after.prg_ram_enabled() == self.prg_ram_enabled()
        &&& after.board_mirroring() == self.board_mirroring()
    }

    fn save_state(&self) -> (r: Result<MapperState, String>) {
        Ok(
            MapperState::Nrom {
                prg_ram: self.prg_ram,
                chr_ram: if self.chr_is_ram { bank_to_vec(&self.chr) } else { Vec::new() },
            },
        )
    }

    fn load_state(&mut self, state: &MapperState) -> (r: Result<(), String>) {
        proof { use_type_invariant(&*self); }
        let (prg_ram, chr_ram) = match state {
            MapperState::Nrom { prg_ram, chr_ram } => (prg_ram, chr_ram),
            _ => {
                return Err("savestate mapper mismatch".to_owned());
            },
        };
        let expected: usize = if self.chr_is_ram { 0x2000 } else { 0 };
        if chr_ram.len() != expected {
            return Err("invalid NROM CHR RAM state".to_owned());
        }
        self.prg_ram = *prg_ram;
        if self.chr_is_ram {
            self.chr = vec_to_bank(chr_ram);
        }
        Ok(())
    }

    fn read(&self, address: u16) -> (r: u8) {
        proof { use_type_invariant(self); }
        if 0x6000 <= address && address <= 0x7FFF && self.prg_ram_enabled {
            self.prg_ram[(address - 0x6000) as usize]
        } else if address >= 0x8000 {
            self.prg_rom[(address as usize - 0x8000) % self.prg_rom.len()]
        } else {
            0
        }
    }

    fn write(&mut self, address: u16, data: u8) {
        proof { use_type_invariant(&*self); }
        if self.prg_ram_enabled && 0x6000 <= address && address <= 0x7fff {
            self.prg_ram[(address - 0x6000) as usize] = data;
        }
    }

    fn ppu_read(&self, address: u16) -> (r: u8) {
        self.chr[address as usize % 0x2000]
    }

    fn ppu_write(&mut self, address: u16, data: u8) {
        proof { use_type_invariant(&*self); }
        if self.chr_is_ram {
            self.chr[address as usize % 0x2000] = data;
        }
    }

    fn mirroring(&self) -> (m: Mirroring) {
        self.mirroring
    }
}


/// Whether a write to the bank register also sees the ROM byte driven onto the
/// bus at the same address (the two are ANDed).
#[derive(Clone, Copy, Debug)]
pub enum BusConflicts {
    NoConflict,
    And,
}

/// The PRG ROM sizes UxROM accepts: the powers of two from 32 to 256 KiB.
pub open spec fn uxrom_prg_size_ok(size: int) -> bool {
    size == 0x8000 || size == 0x10000 || size == 0x20000 || size == 0x40000
}

/// UxROM (mapper 2): a switchable 16 KiB PRG bank at 0x8000, the last bank fixed
/// at 0xC000, and 8 KiB of CHR RAM.
pub struct Uxrom {
    prg_rom: Vec<u8>,
    chr_ram: [u8; 0x2000],
    selected_bank: u8,
    bank_mask: u8,
    mirroring: Mirroring,
    bus_conflicts: BusConflicts,
}

impl Uxrom {
    #[verifier::type_invariant]
    spec fn inv(self) -> bool {
        uxrom_prg_size_ok(self.prg_rom.len() as int)
    }

    pub closed spec fn prg_rom_view(&self) -> Seq<u8> {
        self.prg_rom@
    }

    pub closed spec fn chr_view(&self) -> Seq<u8> {
        self.chr_ram@
    }

    pub closed spec fn selected_bank(&self) -> u8 {
        self.selected_bank
    }

    pub closed spec fn bank_mask(&self) -> u8 {
        self.bank_mask
    }

    pub closed spec fn board_mirroring(&self) -> Mirroring {
        self.mirroring
    }

    pub closed spec fn conflicts(&self) -> BusConflicts {
        self.bus_conflicts
    }

    /// The number of 16 KiB banks.
    pub open spec fn bank_count(&self) -> int {
        self.prg_rom_view().len() as int / 0x4000
    }

    pub fn new(prg_rom: Vec<u8>, mirroring: Mirroring, bus_conflicts: BusConflicts) -> (r: Result<
        Self,
        String,
    >)
        ensures
            match r {
                Ok(m) => {
                    &&& uxrom_prg_size_ok(prg_rom@.len() as int)
                    &&& m.prg_rom_view() == prg_rom@
                    &&& m.chr_view() == Seq::new(0x2000, |_i: int| 0u8)
                    &&& m.selected_bank() == 0
                    &&& m.bank_mask() == if prg_rom@.len() <= 0x20000 { 7u8 } else { 15u8 }
                    &&& m.board_mirroring() == mirroring
                    &&& m.conflicts() == bus_conflicts
                },
                Err(e) => !uxrom_prg_size_ok(prg_rom@.len() as int)
                    && e@ == "UxROM requires power-of-two PRG size from 32 to 256 KiB"@,
            },
    {
        let size = prg_rom.len();
        if !(size == 0x8000 || size == 0x10000 || size == 0x20000 || size == 0x40000) {
            return Err("UxROM requires power-of-two PRG size from 32 to 256 KiB".to_owned());
        }
        let m = Self {
            bank_mask: if size <= 0x20000 { 7 } else { 15 },
            prg_rom,
            chr_ram: [0; 0x2000],
            selected_bank: 0,
            mirroring,
            bus_conflicts,
        };
        assert(m.chr_ram@ =~= Seq::new(0x2000, |_i: int| 0u8));
        Ok(m)
    }
}

impl Mapper for Uxrom {
    open spec fn cpu_value(&self, address: u16) -> u8 {
        if address < 0x8000 {
            0
        } else {
            let bank = if address < 0xC000 {
                self.selected_bank() as int % self.bank_count()
            } else {
                self.bank_count() - 1
            };
            self.prg_rom_view()[bank * 0x4000 + address as int % 0x4000]
        }
    }

    closed spec fn cpu_written(&self, address: u16, data: u8) -> Self {
        if address >= 0x8000 {
            let effective = match self.bus_conflicts {
                BusConflicts::NoConflict => data,
                BusConflicts::And => data & self.cpu_value(address),
            };
            Uxrom { selected_bank: effective & self.bank_mask, ..*self }
        } else {
            *self
        }
    }

    open spec fn ppu_value(&self, address: u16) -> u8 {
        self.chr_view()[address as int % 0x2000]
    }

    closed spec fn ppu_written(&self, address: u16, data: u8) -> Self {
        Uxrom { chr_ram: vstd::array::spec_array_update(self.chr_ram, address as int % 0x2000, data), ..*self }
    }

    open spec fn mirroring_of(&self) -> Mirroring {
        self.board_mirroring()
    }

    open spec fn saved_as(&self, state: MapperState) -> bool {
        &&& state matches MapperState::Uxrom { selected_bank, chr_ram }
        &&& selected_bank == self.selected_bank()
        &&& chr_ram@ == self.chr_view()
    }

    open spec fn load_error(&self, state: MapperState) -> Option<Seq<char>> {
        match state {
            MapperState::Uxrom { selected_bank, .. } => {
                if selected_bank & !self.bank_mask() != 0 {
                    Some("invalid UxROM bank state"@)
                } else {
                    None
                }
            },
            _ => Some("savestate mapper mismatch"@),
        }
    }

    open spec fn loaded_from(&self, state: MapperState, after: Self) -> bool {
        &&& state matches MapperState::Uxrom { selected_bank, chr_ram }
        &&& after.selected_bank() == selected_bank
        &&& after.chr_view() == chr_ram@
        &&& after.prg_rom_view() == self.prg_rom_view()
        &&& after.bank_mask() == self.bank_mask()
        &&& after.board_mirroring() == self.board_mirroring()
        &&& after.conflicts() == self.conflicts()
    }

    fn save_state(&self) -> (r: Result<MapperState, String>) {
        Ok(MapperState::Uxrom { selected_bank: self.selected_bank, chr_ram: self.chr_ram })
    }

    fn load_state(&mut self, state: &MapperState) -> (r: Result<(), String>) {
        proof { use_type_invariant(&*self); }
        let (selected_bank, chr_ram) = match state {
            MapperState::Uxrom { selected_bank, chr_ram } => (selected_bank, chr_ram),
            _ => {
                return Err("savestate mapper mismatch".to_owned());
            },
        };
        if *selected_bank & !self.bank_mask != 0 {
            return Err("invalid UxROM bank state".to_owned());
        }
        self.selected_bank = *selected_bank;
        self.chr_ram = *chr_ram;
        Ok(())
    }

    fn read(&self, address: u16) -> (r: u8) {
        proof { use_type_invariant(self); }
        if address < 0x8000 {
            return 0;
        }
        let banks = self.prg_rom.len() / 0x4000;
        let bank = if address < 0xc000 { self.selected_bank as usize % banks } else { banks - 1 };
        self.prg_rom[bank * 0x4000 + (address as usize % 0x4000)]
    }

    fn write(&mut self, address: u16, data: u8) {
        proof { use_type_invariant(&*self); }
        if address >= 0x8000 {
            let effective = match self.bus_conflicts {
                BusConflicts::NoConflict => data,
                BusConflicts::And => data & self.read(address),
            };
            self.selected_bank = effective & self.bank_mask;
        }
    }

    fn ppu_read(&self, address: u16) -> (r: u8) {
        self.chr_ram[address as usize % 0x2000]
    }

    fn ppu_write(&mut self, address: u16, data: u8) {
        proof { use_type_invariant(&*self); }
        self.chr_ram[address as usize % 0x2000] = data;
    }

    fn mirroring(&self) -> (m: Mirroring) {
        self.mirroring
    }
}

/// CNROM (mapper 3): 16 or 32 KiB of PRG ROM and up to four switchable 8 KiB CHR
/// ROM banks.
pub struct Cnrom {
    prg_rom: Vec<u8>,
    chr_rom: Vec<u8>,
    selected_chr_bank: u8,
    mirroring: Mirroring,
    bus_conflicts: BusConflicts,
}

impl Cnrom {
    #[verifier::type_invariant]
    spec fn inv(self) -> bool {
        &&& self.prg_rom.len() == 0x4000 || self.prg_rom.len() == 0x8000
        &&& self.chr_rom.len() == 0x2000 || self.chr_rom.len() == 0x4000 || self.chr_rom.len() == 0x8000
    }

    pub closed spec fn prg_rom_view(&self) -> Seq<u8> {
        self.prg_rom@
    }

    pub closed spec fn chr_view(&self) -> Seq<u8> {
        self.chr_rom@
    }

    pub closed spec fn selected_chr_bank(&self) -> u8 {
        self.selected_chr_bank
    }

    pub closed spec fn board_mirroring(&self) -> Mirroring {
        self.mirroring
    }

    pub closed spec fn conflicts(&self) -> BusConflicts {
        self.bus_conflicts
    }

    pub fn new(prg_rom: Vec<u8>, chr_rom: Vec<u8>, mirroring: Mirroring, bus_conflicts: BusConflicts) -> (r:
        Result<Self, String>)
        ensures
            match r {
                Ok(m) => {
                    &&& prg_rom@.len() == 0x4000 || prg_rom@.len() == 0x8000
                    &&& chr_rom@.len() == 0x2000 || chr_rom@.len() == 0x4000 || chr_rom@.len() == 0x8000
                    &&& m.prg_rom_view() == prg_rom@
                    &&& m.chr_view() == chr_rom@
                    &&& m.selected_chr_bank() == 0
                    &&& m.board_mirroring() == mirroring
                    &&& m.conflicts() == bus_conflicts
                },
                Err(e) => if !(prg_rom@.len() == 0x4000 || prg_rom@.len() == 0x8000) {
                    e@ == "CNROM requires 16 or 32 KiB PRG ROM"@
                } else {
                    !(chr_rom@.len() == 0x2000 || chr_rom@.len() == 0x4000 || chr_rom@.len() == 0x8000)
                        && e@ == "CNROM requires 8, 16, or 32 KiB CHR ROM"@
                },
            },
    {
        if !(prg_rom.len() == 0x4000 || prg_rom.len() == 0x8000) {
            return Err("CNROM requires 16 or 32 KiB PRG ROM".to_owned());
        }
        if !(chr_rom.len() == 0x2000 || chr_rom.len() == 0x4000 || chr_rom.len() == 0x8000) {
            return Err("CNROM requires 8, 16, or 32 KiB CHR ROM".to_owned());
        }
        Ok(Self { prg_rom, chr_rom, selected_chr_bank: 0, mirroring, bus_conflicts })
    }
}

impl Mapper for Cnrom {
    open spec fn cpu_value(&self, address: u16) -> u8 {
        if address >= 0x8000 {
            self.prg_rom_view()[(address - 0x8000) % (self.prg_rom_view().len() as int)]
        } else {
            0
        }
    }

    closed spec fn cpu_written(&self, address: u16, data: u8) -> Self {
        if address >= 0x8000 {
            let effective = match self.bus_conflicts {
                BusConflicts::NoConflict => data,
                BusConflicts::And => data & self.cpu_value(address),
            };
            Cnrom { selected_chr_bank: effective & 3, ..*self }
        } else {
            *self
        }
    }

    open spec fn ppu_value(&self, address: u16) -> u8 {
        let bank = self.selected_chr_bank() as int % (self.chr_view().len() as int / 0x2000);
        self.chr_view()[bank * 0x2000 + address as int % 0x2000]
    }

    open spec fn ppu_written(&self, address: u16, data: u8) -> Self {
        *self
    }

    open spec fn mirroring_of(&self) -> Mirroring {
        self.board_mirroring()
    }

    open spec fn saved_as(&self, state: MapperState) -> bool {
        state == MapperState::Cnrom { selected_chr_bank: self.selected_chr_bank() }
    }

    open spec fn load_error(&self, state: MapperState) -> Option<Seq<char>> {
        match state {
            MapperState::Cnrom { selected_chr_bank } => {
                if selected_chr_bank > 3 {
                    Some("invalid CNROM bank state"@)
                } else {
                    None
                }
            },
            _ => Some("savestate mapper mismatch"@),
        }
    }

    open spec fn loaded_from(&self, state: MapperState, after: Self) -> bool {
        &&& state matches MapperState::Cnrom { selected_chr_bank }
        &&& after.selected_chr_bank() == selected_chr_bank
        &&& after.prg_rom_view() == self.prg_rom_view()
        &&& after.chr_view() == self.chr_view()
        &&& after.board_mirroring() == self.board_mirroring()
        &&& after.conflicts() == self.conflicts()
    }

    fn save_state(&self) -> (r: Result<MapperState, String>) {
        Ok(MapperState::Cnrom { selected_chr_bank: self.selected_chr_bank })
    }

    fn load_state(&mut self, state: &MapperState) -> (r: Result<(), String>) {
        proof { use_type_invariant(&*self); }
        let selected_chr_bank = match state {
            MapperState::Cnrom { selected_chr_bank } => selected_chr_bank,
            _ => {
                return Err("savestate mapper mismatch".to_owned());
            },
        };
        if *selected_chr_bank > 3 {
            return Err("invalid CNROM bank state".to_owned());
        }
        self.selected_chr_bank = *selected_chr_bank;
        Ok(())
    }

    fn read(&self, address: u16) -> (r: u8) {
        proof { use_type_invariant(self); }
        if address >= 0x8000 {
            self.prg_rom[(address as usize - 0x8000) % self.prg_rom.len()]
        } else {
            0
        }
    }

    fn write(&mut self, address: u16, data: u8) {
        proof { use_type_invariant(&*self); }
        if address >= 0x8000 {
            let effective = match self.bus_conflicts {
                BusConflicts::NoConflict => data,
                BusConflicts::And => data & self.read(address),
            };
            self.selected_chr_bank = effective & 3;
        }
    }

    fn ppu_read(&self, address: u16) -> (r: u8) {
        proof { use_type_invariant(self); }
        let bank = self.selected_chr_bank as usize % (self.chr_rom.len() / 0x2000);
        self.chr_rom[bank * 0x2000 + (address as usize % 0x2000)]
    }

    fn ppu_write(&mut self, _address: u16, _data: u8) {
    }

    fn mirroring(&self) -> (m: Mirroring) {
        self.mirroring
    }
}


/// Any of the boards this emulator supports.
pub enum AnyMapper {
    Nrom(Nrom),
    Uxrom(Uxrom),
    Cnrom(Cnrom),
}

impl Mapper for AnyMapper {
    open spec fn cpu_value(&self, address: u16) -> u8 {
        match self {
            AnyMapper::Nrom(m) => m.cpu_value(address),
            AnyMapper::Uxrom(m) => m.cpu_value(address),
            AnyMapper::Cnrom(m) => m.cpu_value(address),
        }
    }

    open spec fn cpu_written(&self, address: u16, data: u8) -> Self {
        match self {
            AnyMapper::Nrom(m) => AnyMapper::Nrom(m.cpu_written(address, data)),
            AnyMapper::Uxrom(m) => AnyMapper::Uxrom(m.cpu_written(address, data)),
            AnyMapper::Cnrom(m) => AnyMapper::Cnrom(m.cpu_written(address, data)),
        }
    }

    open spec fn ppu_value(&self, address: u16) -> u8 {
        match self {
            AnyMapper::Nrom(m) => m.ppu_value(address),
            AnyMapper::Uxrom(m) => m.ppu_value(address),
            AnyMapper::Cnrom(m) => m.ppu_value(address),
        }
    }

    open spec fn ppu_written(&self, address: u16, data: u8) -> Self {
        match self {
            AnyMapper::Nrom(m) => AnyMapper::Nrom(m.ppu_written(address, data)),
            AnyMapper::Uxrom(m) => AnyMapper::Uxrom(m.ppu_written(address, data)),
            AnyMapper::Cnrom(m) => AnyMapper::Cnrom(m.ppu_written(address, data)),
        }
    }

    open spec fn mirroring_of(&self) -> Mirroring {
        match self {
            AnyMapper::Nrom(m) => m.mirroring_of(),
            AnyMapper::Uxrom(m) => m.mirroring_of(),
            AnyMapper::Cnrom(m) => m.mirroring_of(),
        }
    }

    open spec fn saved_as(&self, state: MapperState) -> bool {
        match self {
            AnyMapper::Nrom(m) => m.saved_as(state),
            AnyMapper::Uxrom(m) => m.saved_as(state),
            AnyMapper::Cnrom(m) => m.saved_as(state),
        }
    }

    open spec fn load_error(&self, state: MapperState) -> Option<Seq<char>> {
        match self {
            AnyMapper::Nrom(m) => m.load_error(state),
            AnyMapper::Uxrom(m) => m.load_error(state),
            AnyMapper::Cnrom(m) => m.load_error(state),
        }
    }

    open spec fn loaded_from(&self, state: MapperState, after: Self) -> bool {
        match (self, after) {
            (AnyMapper::Nrom(m), AnyMapper::Nrom(a)) => m.loaded_from(state, a),
            (AnyMapper::Uxrom(m), AnyMapper::Uxrom(a)) => m.loaded_from(state, a),
            (AnyMapper::Cnrom(m), AnyMapper::Cnrom(a)) => m.loaded_from(state, a),
            _ => false,
        }
    }

    fn save_state(&self) -> (r: Result<MapperState, String>) {
        match self {
            AnyMapper::Nrom(m) => m.save_state(),
            AnyMapper::Uxrom(m) => m.save_state(),
            AnyMapper::Cnrom(m) => m.save_state(),
        }
    }

    fn load_state(&mut self, state: &MapperState) -> (r: Result<(), String>) {
        match self {
            AnyMapper::Nrom(m) => m.load_state(state),
            AnyMapper::Uxrom(m) => m.load_state(state),
            AnyMapper::Cnrom(m) => m.load_state(state),
        }
    }

    fn read(&self, address: u16) -> (r: u8) {
        match self {
            AnyMapper::Nrom(m) => m.read(address),
            AnyMapper::Uxrom(m) => m.read(address),
            AnyMapper::Cnrom(m) => m.read(address),
        }
    }

    fn write(&mut self, address: u16, data: u8) {
        match self {
            AnyMapper::Nrom(m) => m.write(address, data),
            AnyMapper::Uxrom(m) => m.write(address, data),
            AnyMapper::Cnrom(m) => m.write(address, data),
        }
    }

    fn ppu_read(&self, address: u16) -> (r: u8) {
        match self {
            AnyMapper::Nrom(m) => m.ppu_read(address),
            AnyMapper::Uxrom(m) => m.ppu_read(address),
            AnyMapper::Cnrom(m) => m.ppu_read(address),
        }
    }

    fn ppu_write(&mut self, address: u16, data: u8) {
        match self {
            AnyMapper::Nrom(m) => m.ppu_write(address, data),
            AnyMapper::Uxrom(m) => m.ppu_write(address, data),
            AnyMapper::Cnrom(m) => m.ppu_write(address, data),
        }
    }

    fn mirroring(&self) -> (m: Mirroring) {
        match self {
            AnyMapper::Nrom(m) => m.mirroring(),
            AnyMapper::Uxrom(m) => m.mirroring(),
            AnyMapper::Cnrom(m) => m.mirroring(),
        }
    }
}

/// With 16 KiB of PRG ROM, 0xC000..=0xFFFF mirrors 0x8000..=0xBFFF.
pub proof fn lemma_nrom_16k_mirrors(m: Nrom, address: u16)
    requires
        m.prg_rom_view().len() == 0x4000,
        0x8000 <= address < 0xC000,
    ensures
        m.cpu_value(address) == m.cpu_value((address + 0x4000) as u16),
{
}

/// With 32 KiB of PRG ROM, 0x8000..=0xFFFF maps the whole ROM with no mirror.
pub proof fn lemma_nrom_32k_maps_whole_rom(m: Nrom, address: u16)
    requires
        m.prg_rom_view().len() == 0x8000,
        0x8000 <= address,
    ensures
        m.cpu_value(address) == m.prg_rom_view()[address - 0x8000],
{
}

/// While PRG RAM is enabled, a byte written to 0x6000..=0x7FFF reads back, and
/// every other address reads as before.
pub proof fn lemma_nrom_ram_roundtrip(m: Nrom, address: u16, data: u8, other: u16)
    requires
        m.prg_ram_enabled(),
        0x6000 <= address <= 0x7FFF,
        other != address,
    ensures
        m.cpu_written(address, data).cpu_value(address) == data,
        m.cpu_written(address, data).cpu_value(other) == m.cpu_value(other),
{
}

/// Writes to the ROM range leave an NROM board unchanged.
pub proof fn lemma_nrom_rom_writes_ignored(m: Nrom, address: u16, data: u8)
    requires
        address >= 0x8000,
    ensures
        m.cpu_written(address, data) == m,
{
}

/// UxROM keeps its last bank at 0xC000..=0xFFFF whatever is written to the bank
/// register.
pub proof fn lemma_uxrom_last_bank_fixed(m: Uxrom, write_address: u16, data: u8, address: u16)
    requires
        address >= 0xC000,
    ensures
        m.cpu_written(write_address, data).cpu_value(address) == m.cpu_value(address),
{
}

/// Loading what a board saved is accepted and gives back a board that reads the
/// same on both buses.
pub proof fn lemma_nrom_save_load(m: Nrom, state: MapperState, after: Nrom, address: u16)
    requires
        m.saved_as(state),
        m.loaded_from(state, after),
    ensures
        m.load_error(state) is None,
        after.cpu_value(address) == m.cpu_value(address),
        after.ppu_value(address) == m.ppu_value(address),
{
}

/// Loading what a board saved is accepted and gives back a board that reads the
/// same on both buses.
pub proof fn lemma_uxrom_save_load(m: Uxrom, state: MapperState, after: Uxrom, address: u16)
    requires
        m.saved_as(state),
        m.loaded_from(state, after),
        m.selected_bank() & !m.bank_mask() == 0,
    ensures
        m.load_error(state) is None,
        after.cpu_value(address) == m.cpu_value(address),
        after.ppu_value(address) == m.ppu_value(address),
{
}

/// Loading what a board saved is accepted and gives back a board that reads the
/// same on both buses.
pub proof fn lemma_cnrom_save_load(m: Cnrom, state: MapperState, after: Cnrom, address: u16)
    requires
        m.saved_as(state),
        m.loaded_from(state, after),
        m.selected_chr_bank() <= 3,
    ensures
        m.load_error(state) is None,
        after.cpu_value(address) == m.cpu_value(address),
        after.ppu_value(address) == m.ppu_value(address),
{
}

/// A write to 0x8000..=0xFFFF selects the UxROM bank at 0x8000: the byte written
/// (ANDed with the ROM byte there on boards with bus conflicts), masked to the
/// bank register's width. Lower writes and the rest of the board are untouched.
pub proof fn lemma_uxrom_bank_switch(m: Uxrom, address: u16, data: u8)
    ensures
        address >= 0x8000 ==> m.cpu_written(address, data).selected_bank() == (match m.conflicts() {
            BusConflicts::NoConflict => data,
            BusConflicts::And => data & m.cpu_value(address),
        }) & m.bank_mask(),
        address < 0x8000 ==> m.cpu_written(address, data) == m,
        m.cpu_written(address, data).prg_rom_view() == m.prg_rom_view(),
        m.cpu_written(address, data).chr_view() == m.chr_view(),
        m.cpu_written(address, data).bank_mask() == m.bank_mask(),
        m.cpu_written(address, data).conflicts() == m.conflicts(),
        m.cpu_written(address, data).board_mirroring() == m.board_mirroring(),
{
}

/// A write to 0x8000..=0xFFFF selects the CNROM CHR bank: the low two bits of the
/// byte written (ANDed with the ROM byte there on boards with bus conflicts).
/// Lower writes and the rest of the board are untouched.
pub proof fn lemma_cnrom_bank_switch(m: Cnrom, address: u16, data: u8)
    ensures
        address >= 0x8000 ==> m.cpu_written(address, data).selected_chr_bank() == (match m.conflicts() {
            BusConflicts::NoConflict => data,
            BusConflicts::And => data & m.cpu_value(address),
        }) & 3,
        address < 0x8000 ==> m.cpu_written(address, data) == m,
        m.cpu_written(address, data).prg_rom_view() == m.prg_rom_view(),
        m.cpu_written(address, data).chr_view() == m.chr_view(),
        m.cpu_written(address, data).conflicts() == m.conflicts(),
        m.cpu_written(address, data).board_mirroring() == m.board_mirroring(),
{
}

} // verus!
