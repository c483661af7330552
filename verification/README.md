# rustyboi_ppu

A Game Boy picture processing unit in verified Rust: DMG, CGB and Super Game Boy
pictures, dot by dot.

- `src/` is the library. Every function states in its contract what it returns or
  changes, over plain views of the state (`PpuView`, `FetcherView`, `FramesView` and
  so on), and Verus proves it. What holds of several functions together stands in
  public proof functions whose names start with `law_`.
- `tests/` runs the library: the stored form of pictures, the tile fetcher, colours,
  register writes, and whole frames.
- `app/` holds what surrounds the library: the colour curve of an AGB panel, which is
  floating point, and serialised forms of the library's values.

Where to start reading:

| Module | Subject |
| :--- | :--- |
| `state` | the unit's state, what makes it well formed |
| `controller` | one dot: events, clock, the mode's own work |
| `modes`, `mode3`, `mode3_fetch`, `mode3_window`, `mode3_draw` | the four modes |
| `fetcher`, `fifo` | background and window tiles on their way to the screen |
| `oam_reader`, `oam_scan`, `objects`, `line_objs` | objects |
| `lcdc`, `lcdc_write` | how LCDC writes take effect |
| `stat_irq`, `timing`, `ly_counter` | events and clocks |
| `reads`, `hdma` | what the CPU and DMA see at a clock cycle |
| `color`, `color_mix`, `history`, `palette_writes` | from pixels to colours |
| `glitch`, `journal`, `replot` | writes that meet a fetch on the bus |
| `frames`, `frame_out`, `sgb_picture` | finished pictures |
| `fb_rle`, `fb_wire` | pictures in compact form |
| `snapshot` | the unit taken apart, to be saved |
| `phases`, `ranges`, `write_ranges`, `fast` | what a dot and a write keep |
