# hibachi

The model behind Hibachi, a level editor for Super Mario Bros. ROMs, verified
with Verus.

- `src/` is the library, every function of it verified:
  - `area.rs`: areas and their objects, and the decoding of the terrain and
    sprite object streams that a ROM stores for each area;
  - `rom.rs`: the iNES header check, the level and area tables of an
    unpatched ROM, the organisation patch, reading the graphics, and opening
    a ROM;
  - `graphics.rs`: 2-bit-per-pixel tiles, sprites drawn from patches of
    tiles, the font, and the area palettes;
  - `color.rs`: colours and the NES master palette;
  - `editor.rs`: the editor's state and the edits of its windows;
  - `viewport.rs`: where the area editor draws sprites and name tags.
- `tests/` runs the library on synthetic ROM images.
- `app/` is the window (eframe/egui): dialogs, file reading, texture upload
  and drawing.
