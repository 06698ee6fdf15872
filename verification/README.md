# oolio151_nes

An NES emulator whose machine is a verified library.

- `src/` — the library, checked by Verus: iNES / NES 2.0 header parsing and
  cartridge boards (NROM, UxROM, CNROM), the 6502 core (every documented
  instruction and the stable undocumented ones), the main bus with RAM
  mirroring, OAM DMA and controller ports, the PPU (registers, scrolling,
  sprite evaluation, the render pipeline), the APU's channels and frame
  sequencer, the emulator loop, and savestate framing, validation, capture
  and restore.
- `app/` — the program around it: the window (winit, softbuffer), the
  notification font (font8x8), reading ROM and savestate files, savestate
  serialization (serde, bincode, tempfile) and the floating-point audio mixer.
- `tests/` — tests of the library on concrete values.

Controls: arrows, Z (A), X (B), A (Select), S (Start), R reset, T save state,
Y load state.

The picture is drawn through softbuffer. The audio mixer runs, but the program
opens no audio device, so its samples are not played.
