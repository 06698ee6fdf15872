pub mod cartridge;
pub mod cpu;
pub mod savestate;
pub mod input;
pub mod apu;
pub mod bits;
pub mod ppu;
pub mod emulator;
