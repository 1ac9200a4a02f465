use hibachi::area::{AreaMarioStartHeightSetting, SpriteObjectType};
use hibachi::color::{nes_color, Color};
use hibachi::editor::{area_list_heading, area_list_type, area_palette, area_type_name, palette_index, HibachiApp};
use hibachi::graphics::{
    decode_glyph, decode_glyph_sprite, decode_sprite, graphics_entry, letter_char, read_palette, MarioColor,
    MarioColorPalette, MarioGraphics,
};
use hibachi::rom::{find_graphics, rom_opens_cleanly, unpatched_rom_loadable};
use hibachi::viewport::{glyph_row_layout, paint_tag_layout, sprite_rect, tag_rect};

fn synthetic_rom() -> Vec<u8> {
    let mut rom = vec![0u8; 0xA000];
    rom[0] = 0x4e;
    rom[1] = 0x45;
    rom[2] = 0x53;
    rom[3] = 0x1a;
    let worlds = [0u8, 2, 4, 5, 6, 7, 8, 9];
    for (i, w) in worlds.iter().enumerate() {
        rom[0x1CC4 + i] = *w;
    }
    for k in 0..36usize {
        rom[0x1CCC + k] = (k as u8) | 0x20;
    }
    rom[0x1CCC] = 0x63;
    let starts = [0u8, 3, 10, 20];
    for (i, s) in starts.iter().enumerate() {
        rom[0x1CF0 + i] = *s;
        rom[0x1D38 + i] = *s;
    }
    let tile_cpu = 0x2000usize + 32752;
    let spr_cpu = 0x2010usize + 32752;
    for k in 0..34usize {
        rom[0x1CF4 + k] = (spr_cpu % 256) as u8;
        rom[0x1D16 + k] = (spr_cpu / 256) as u8;
        rom[0x1D3C + k] = (tile_cpu % 256) as u8;
        rom[0x1D5E + k] = (tile_cpu / 256) as u8;
    }
    rom[0x2000] = 0x98;
    rom[0x2001] = 0x61;
    rom[0x2002] = 0x35;
    rom[0x2003] = 0x24;
    rom[0x2004] = 0xFD;
    rom[0x2010] = 0x4A;
    rom[0x2011] = 0x06;
    rom[0x2012] = 0xFF;
    // palettes: the ground sky and the first ground colour
    rom[0x05E0] = 0x21;
    rom[0x0CDC] = 0x30;
    rom[0x0CDD] = 0x16;
    rom[0x0CDE] = 0x0F;
    // tile 0x32 (Mario's marker): first bit-plane all set
    for b in 0..8 {
        rom[0x8330 + b] = 0xFF;
    }
    // tile 0xA5 (a Koopa's head): leftmost pixel of row 0 has colour 3
    rom[0x8010 + 16 * 0xA5] = 0x80;
    rom[0x8010 + 16 * 0xA5 + 8] = 0x80;
    // tile 0x10A (the letter A): left half of row 0
    rom[0x90B0] = 0xF0;
    rom
}

fn white() -> Color {
    Color { r: 255, g: 255, b: 255, a: 255 }
}

fn clear() -> Color {
    Color { r: 0, g: 0, b: 0, a: 0 }
}

#[test]
fn initial_state() {
    let app = HibachiApp::default();
    assert_eq!(app.rom_path, "");
    assert!(app.rom.is_none());
    assert!(!app.is_rom_open());
    assert_eq!(app.lasterr, "Task failed successfully!");
    assert!(!app.error_pending);
    assert!(app.levels.iter().all(|w| w.is_empty()));
    assert!(app.areas.iter().all(|a| a.is_empty()));
    assert!(app.game_graphics.is_empty());
    assert!(app.current_editing_area.is_none());
}

#[test]
fn err_records_message() {
    let mut app = HibachiApp::default();
    app.err("unimplemented.");
    assert_eq!(app.lasterr, "unimplemented.");
    assert!(app.error_pending);
}

#[test]
fn validate_accepts_ines_header() {
    let mut app = HibachiApp::default();
    app.rom = Some(vec![0x4e, 0x45, 0x53, 0x1a, 0]);
    assert!(app.validate_rom());
    assert!(!app.error_pending);
    assert!(app.is_rom_open());
}

#[test]
fn validate_rejects_other_files() {
    let mut app = HibachiApp::default();
    app.rom = Some(vec![0x4e, 0x45, 0x53, 0x00]);
    assert!(!app.validate_rom());
    assert_eq!(app.lasterr, "ROM is not in iNES format!");
    assert!(app.error_pending);
}

#[test]
fn organisation_patch_marks_and_is_idempotent() {
    let rom = synthetic_rom();
    let mut app = HibachiApp::default();
    app.rom = Some(rom.clone());
    assert!(!app.is_patched_organisation());
    app.install_organisation_patch();
    assert!(app.is_patched_organisation());
    let once = app.rom.clone().unwrap();
    let changed: Vec<usize> = (0..rom.len()).filter(|&i| rom[i] != once[i]).collect();
    assert_eq!(changed, vec![0x1C27, 0x1C2F, 0x1C42, 0x1C4A, 0x1C4F, 0x1C57, 0x1C58, 0x5F3A, 0x5F3D]);
    assert_eq!(once[0x1C4F], 0x0A);
    app.install_organisation_patch();
    assert_eq!(app.rom.clone().unwrap(), once);
    assert!(app.validate_rom());
}

#[test]
fn reload_and_rewrite_change_nothing() {
    let mut app = HibachiApp::default();
    app.rom = Some(synthetic_rom());
    app.reload_levels_unpatched();
    app.reload_levels();
    app.rewrite_levels();
    assert_eq!(app.levels[0], vec![[3, 3], [1, 1]]);
    assert_eq!(app.areas[3].len(), 14);
}

#[test]
fn opening_unpatched_rom_reads_and_patches_it() {
    let rom = synthetic_rom();
    assert!(rom_opens_cleanly(&rom));
    let mut app = HibachiApp::default();
    app.current_editing_area = Some([1, 0]);
    app.open_rom(String::from("smb1.nes"), rom.clone());
    assert_eq!(app.rom_path, "smb1.nes");
    assert!(app.is_patched_organisation());
    assert!(app.current_editing_area.is_none());
    assert_eq!(app.levels[1], vec![[1, 2], [1, 3]]);
    assert_eq!(app.areas[2].len(), 10);
    assert_eq!(app.game_graphics.len(), 13);
    // opening the patched ROM again reads nothing in the unpatched layout
    let patched = app.rom.clone().unwrap();
    let mut again = HibachiApp::default();
    again.open_rom(String::from("smb1.nes"), patched);
    assert!(again.levels.iter().all(|w| w.is_empty()));
    assert_eq!(again.game_graphics.len(), 13);
}

#[test]
fn opening_foreign_file_closes_it() {
    let mut app = HibachiApp::default();
    let bytes = vec![1u8, 2, 3, 4, 5];
    assert!(rom_opens_cleanly(&bytes));
    app.open_rom(String::from("x.bin"), bytes);
    assert!(app.rom.is_none());
    assert_eq!(app.rom_path, "");
    assert_eq!(app.lasterr, "ROM is not in iNES format!");
    assert!(app.error_pending);
}

#[test]
fn short_files_cannot_be_opened() {
    assert!(!rom_opens_cleanly(&vec![0x4e, 0x45, 0x53]));
    let mut short = synthetic_rom();
    short.truncate(0x9000);
    assert!(!rom_opens_cleanly(&short));
    assert!(unpatched_rom_loadable(&short));
}

#[test]
fn master_palette_colours() {
    assert_eq!(nes_color(0x00), Color { r: 0x62, g: 0x62, b: 0x62, a: 255 });
    assert_eq!(nes_color(0x21), Color { r: 0x60, g: 0xb2, b: 0xff, a: 255 });
    assert_eq!(nes_color(0x30), Color { r: 0xff, g: 0xff, b: 0xff, a: 255 });
    assert_eq!(nes_color(0x0D), Color { r: 0, g: 0, b: 0, a: 255 });
    assert_eq!(nes_color(0x61), nes_color(0x21));
    assert_eq!(nes_color(0xFF), nes_color(0x3F));
    assert_eq!(Color::from_rgb(1, 2, 3), Color { r: 1, g: 2, b: 3, a: 255 });
}

#[test]
fn palettes_read_and_copied() {
    let rom = synthetic_rom();
    let p = read_palette(&rom, 0x0CD8);
    assert_eq!(p[0], [nes_color(0x30), nes_color(0x16), nes_color(0x0F)]);
    assert_eq!(p[7], [nes_color(0), nes_color(0), nes_color(0)]);
    let mut app = HibachiApp::default();
    app.rom = Some(rom);
    app.reload_palettes();
    let ground = app.game_palette[palette_index(MarioColorPalette::Ground)].unwrap();
    assert_eq!(ground, p);
    assert_eq!(app.game_palette[palette_index(MarioColorPalette::Night)].unwrap(), p);
    assert_eq!(app.game_palette[palette_index(MarioColorPalette::Mushroom)].unwrap(), p);
    assert_eq!(
        app.game_skycolor[palette_index(MarioColorPalette::Ground)].unwrap(),
        Color { r: 0x60, g: 0xb2, b: 0xff, a: 255 }
    );
    assert!(app.game_skycolor[palette_index(MarioColorPalette::Night)].is_none());
    let tints = app.sprite_tints(MarioColorPalette::Ground, MarioColor::Vegetation, false).unwrap();
    assert_eq!(tints, [nes_color(0x30), nes_color(0x16), nes_color(0x0F)]);
    let dark = app.sprite_tints(MarioColorPalette::Ground, MarioColor::Vegetation, true).unwrap();
    assert_eq!(dark, [nes_color(0x30), nes_color(0x30), nes_color(0x30)]);
    assert!(HibachiApp::default().sprite_tints(MarioColorPalette::Cave, MarioColor::Brick, false).is_none());
}

#[test]
fn sprite_masks_follow_tiles() {
    let rom = synthetic_rom();
    let (g, c, p) = graphics_entry(0);
    assert_eq!(g, MarioGraphics::MarioStart);
    assert_eq!(c, MarioColor::Mario);
    let sp = decode_sprite(&rom, &p, c);
    assert_eq!(sp.offset, [0, 0]);
    assert_eq!(sp.size, [16, 16]);
    assert_eq!(sp.slices[0].pixels.len(), 256);
    assert_eq!(sp.slices[0].pixels[0], white());
    assert_eq!(sp.slices[0].pixels[16 * 7 + 7], white());
    assert_eq!(sp.slices[0].pixels[8], clear());
    assert_eq!(sp.slices[0].pixels[16 * 8], clear());
    assert!(sp.slices[1].pixels.iter().all(|&px| px == clear()));
    assert!(sp.slices[2].pixels.iter().all(|&px| px == clear()));
}

#[test]
fn flipped_patches_mirror_their_tile() {
    let rom = synthetic_rom();
    let (g, c, p) = graphics_entry(4);
    assert_eq!(g, MarioGraphics::SpriteObject(SpriteObjectType::GreenKoopa));
    let sp = decode_sprite(&rom, &p, c);
    assert_eq!(sp.offset, [0, -8]);
    assert_eq!(sp.size, [16, 24]);
    assert_eq!(sp.slices[2].pixels[7], white());
    assert_eq!(sp.slices[2].pixels[0], clear());
    assert_eq!(sp.slices[0].pixels[7], clear());
}

#[test]
fn letters_of_the_font() {
    let rom = synthetic_rom();
    let img = decode_glyph(&rom, 0x10A);
    assert_eq!(img.size, [8, 8]);
    assert_eq!(img.pixels[0], white());
    assert_eq!(img.pixels[3], white());
    assert_eq!(img.pixels[4], clear());
    assert_eq!(img.pixels[8], clear());
    let mut app = HibachiApp::default();
    app.rom = Some(rom);
    app.reload_graphics();
    let a = app.font_glyph('A').unwrap();
    assert_eq!(a.slices[0].pixels, img.pixels);
    assert_eq!(a.slices[2].pixels, img.pixels);
    assert_eq!(a.palette, MarioColor::BlackEnemy);
    assert!(app.font_glyph('Z').is_some());
    assert!(app.font_glyph('0').is_none());
    assert!(app.font_glyph('a').is_none());
}

#[test]
fn graphics_table_and_lookup() {
    let mut app = HibachiApp::default();
    app.rom = Some(synthetic_rom());
    app.reload_graphics();
    assert_eq!(app.game_graphics.len(), 13);
    assert_eq!(app.game_graphics[12].0, MarioGraphics::SpriteObject(SpriteObjectType::BulletBill));
    let blooper = app.graphic(MarioGraphics::SpriteObject(SpriteObjectType::Blooper)).unwrap();
    assert_eq!(blooper.size, [16, 24]);
    assert!(app.graphic(MarioGraphics::SpriteObject(SpriteObjectType::Lakitu)).is_none());
    assert_eq!(
        app.sprite_object_graphics(SpriteObjectType::Lakitu),
        MarioGraphics::SpriteObject(SpriteObjectType::StupidRedKoopa)
    );
    assert_eq!(
        app.sprite_object_graphics(SpriteObjectType::Goomba),
        MarioGraphics::SpriteObject(SpriteObjectType::Goomba)
    );
    // reloading replaces, not duplicates
    app.reload_graphics();
    assert_eq!(app.game_graphics.len(), 13);
}

#[test]
fn area_window_labels() {
    assert_eq!(area_type_name(0), "Water");
    assert_eq!(area_type_name(3), "Castle");
    assert_eq!(area_type_name(9), "Invalid");
    assert_eq!((area_list_type(0), area_list_type(1), area_list_type(2), area_list_type(3)), (1, 2, 0, 3));
    assert_eq!(area_list_heading(2), "Water Areas");
    assert_eq!(area_list_heading(5), "uuuuuuhhhhhhhhhhhhhhhhhh???");
    assert_eq!(area_palette(0), MarioColorPalette::Water);
    assert_eq!(area_palette(2), MarioColorPalette::Cave);
    assert_eq!(area_palette(7), MarioColorPalette::Castle);
}

#[test]
fn level_editing() {
    let mut rom = synthetic_rom();
    rom[0x2000] = 0xA0; // the shared area now makes Mario walk in
    let mut app = HibachiApp::default();
    app.rom = Some(rom);
    app.reload_levels_unpatched();
    assert_eq!(app.areas[3][3].mario_height, AreaMarioStartHeightSetting::Autowalk);
    assert!(app.is_cutscene(0, 0));
    app.levels[0][1] = [0, 10];
    app.clamp_level_area_id(0, 1);
    assert_eq!(app.levels[0][1], [0, 0]);
    app.levels[0][1] = [0, 2];
    app.clamp_level_area_id(0, 1);
    assert_eq!(app.levels[0][1], [0, 2]);
}

#[test]
fn area_list_editing() {
    let mut app = HibachiApp::default();
    app.add_area(2);
    assert_eq!(app.areas[2].len(), 1);
    assert_eq!(app.areas[2][0].mario_height, AreaMarioStartHeightSetting::High);
    assert!(app.add_area_below(2, 0));
    assert!(app.add_area_above(2, 0));
    assert_eq!(app.areas[2].len(), 3);
    app.areas[2][1].initial_tilepat = 9;
    app.remove_area(2, 0);
    assert_eq!(app.areas[2].len(), 2);
    assert_eq!(app.areas[2][0].initial_tilepat, 9);
    while app.can_add_area(2) {
        assert!(app.add_area_below(2, 0));
    }
    assert_eq!(app.areas[2].len(), 0x20);
    assert!(!app.add_area_above(2, 5));
    assert!(!app.add_area_below(2, 5));
    assert_eq!(app.areas[2].len(), 0x20);
    app.insert_area(2, 0x20);
    assert_eq!(app.areas[2].len(), 0x21);
}

#[test]
fn sprite_and_tag_placement() {
    assert_eq!(sprite_rect(10, 20, [0, -8], [16, 24]), [10, 4, 42, 52]);
    assert_eq!(tag_rect(5, 6, 11), [5, 6, 197, 38]);
    let tag = paint_tag_layout(0, 0, "Entrance to", "Area 1").unwrap();
    assert_eq!(tag.rect, [0, 0, 192, 32]);
    assert_eq!(tag.glyphs.len(), 15);
    assert_eq!(tag.glyphs[0], ('E', [0, 0, 16, 16]));
    assert_eq!(tag.glyphs[1], ('N', [16, 0, 32, 16]));
    assert_eq!(tag.glyphs[9], ('O', [160, 0, 176, 16]));
    assert_eq!(tag.glyphs[10], ('A', [0, 16, 16, 32]));
    assert_eq!(tag.glyphs[14], ('1', [80, 16, 96, 32]));
    assert!(paint_tag_layout(isize::MAX - 10, 0, "ab", "").is_none());
}

#[test]
fn font_letters_and_glyph_sprites() {
    assert_eq!(letter_char(0), 'A');
    assert_eq!(letter_char(25), 'Z');
    let rom = synthetic_rom();
    let sp = decode_glyph_sprite(&rom, 0x10A);
    assert_eq!(sp.offset, [0, 0]);
    assert_eq!(sp.size, [8, 8]);
    assert_eq!(sp.slices[1].pixels, sp.slices[0].pixels);
    assert_eq!(sp.slices[0].pixels[2], white());
}

#[test]
fn glyph_rows_skip_spaces() {
    let row = glyph_row_layout(100, 7, "A B");
    assert_eq!(row, vec![('A', [100, 7, 116, 23]), ('B', [132, 7, 148, 23])]);
    assert!(glyph_row_layout(0, 0, "   ").is_empty());
}

#[test]
fn graphics_lookup_finds_first_entry() {
    let mut app = HibachiApp::default();
    app.rom = Some(synthetic_rom());
    app.reload_graphics();
    assert_eq!(find_graphics(&app.game_graphics, MarioGraphics::MarioStart), 0);
    assert_eq!(find_graphics(&app.game_graphics, MarioGraphics::TerrainCastleBrick), 3);
    assert_eq!(find_graphics(&app.game_graphics, MarioGraphics::SpriteObject(SpriteObjectType::Toad)), 13);
}
