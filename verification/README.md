# probe_rs_ui

A desktop tool for flashing and inspecting embedded targets through
probe-rs debug probes: probe detection, automatic or manual target
selection (a brand / family / variant chip picker with search), flashing
ELF / Intel HEX / binary / UF2 images, reading flash back, a memory
viewer with hex dump and writes, an RTT terminal, and loading chip
descriptions (a family loaded again gains only the variants it lacked). The interface is bilingual (Chinese / English).

The library in `src/` is verified with Verus:

- `text`, `i18n`: strings, the message table and placeholder filling;
- `chips`, `chip_select`: the chip list grouped by brand, and the picker's
  filter and selection;
- `firmware`: which project files are firmware images and how they rank;
- `memview`: hex input parsing and the hex dump;
- `icon`: the window icon's pixels;
- `worker`: the commands and events exchanged with the probe thread, and the
  decisions that thread takes (attach retries, loaders, progress reports,
  RTT stops);
- `config`, `app_state`, `events`, `actions`: the interface state, its
  settings, how each worker event and each control changes it.

`app/` holds the window (eframe), the probe thread (probe-rs), the settings
file (serde / toml) and the folder walk; it calls the library for every
decision.
