# lgba

A library for Game Boy Advance programs, verified with Verus, and the font generator that
builds its terminal fonts.

The library never touches the hardware itself: where the console needs a register written, a
function returns the writes (`io::IoWrite`), and where it needs a register read, the value is
an argument. Every function states in its contract which writes it returns and what it
computes.

## Layout

- `src/` — the verified library
  - `bits`, `io`, `mmio` — bit fields, register addresses, and the register layouts
  - `sync` — non-blocking locks shared by interrupt and normal code
  - `irq` — interrupt handler registration and dispatch
  - `timer`, `dma`, `sys`, `save` — timers, DMA requests, keypad, save media helpers
  - `display` — colors, layers, mode 0, video memory access, fonts and the text terminal
  - `debug` — emulator detection and debug output for mGBA and no$gba
  - `panic_screen` — the screen shown on a fatal error
  - `allocator` — heap zone planning and byte accounting
  - `header` — the cartridge header and its complement check
  - `convert` — little-endian data files
  - `font_builder` — the font generator's logic: reading the source fonts, choosing the
    characters of a font, assigning glyph slots and encoding the lookup tables
- `tests/` — tests of the library on concrete values
- `app/` — the font generator program, and the layer that performs register writes, runs
  the allocator, logging and the panic screen on the console

## Design notes

- The text terminal keeps its four tile maps and its palette in memory. Activating it returns
  how to upload the font's character data (a DMA request where the terminal has a DMA
  channel) and the writes that load the palette, set up the layers and the display control,
  and clear the maps; `show_writes` gives the writes that copy the terminal's current state
  to video memory.
- A font's lookup tables map a code point to its glyph slot through a check table that is
  searched slot by slot. The font generator writes that table in code point order; the
  built-in ASCII font keeps the slot order of its original perfect-hash tables, so the search
  does not rely on any order, and no hash displacement table is written.
