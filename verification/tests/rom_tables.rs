use hibachi::area::{
    parse_area, parse_sprites, parse_terrain, Area, AreaBackdropSetting, AreaMarioStartHeightSetting,
    AreaScenerySetting, AreaSpecialSetting, AreaTimerSetting, SpriteObjectType, TerrainObjectType,
};
use hibachi::editor::HibachiApp;
use hibachi::rom::{rom_opens_cleanly, unpatched_rom_loadable};
use hibachi::rom_addr;

/// A ROM image big enough for every table the editor reads, with an iNES
/// header, four area types whose 34 pointers all name one small area, and
/// eight worlds of levels.
fn synthetic_rom() -> Vec<u8> {
    let mut rom = vec![0u8; 0xA000];
    rom[0] = 0x4e;
    rom[1] = 0x45;
    rom[2] = 0x53;
    rom[3] = 0x1a;
    // world offsets into the level list
    let worlds = [0u8, 2, 4, 5, 6, 7, 8, 9];
    for (i, w) in worlds.iter().enumerate() {
        rom[0x1CC4 + i] = *w;
    }
    // the level list: 36 entries
    for k in 0..36usize {
        rom[0x1CCC + k] = (k as u8) | 0x20; // type 1, area k % 32
    }
    rom[0x1CCC] = 0x63; // type 3 (0x60 / 0x20 = 3), area 3
    // where each area type starts in the pointer tables
    let starts = [0u8, 3, 10, 20];
    for (i, s) in starts.iter().enumerate() {
        rom[0x1CF0 + i] = *s;
        rom[0x1D38 + i] = *s;
    }
    // every pointer names the area at file offset 0x2000 / 0x2010
    let tile_cpu = 0x2000usize + 32752;
    let spr_cpu = 0x2010usize + 32752;
    for k in 0..34usize {
        rom[0x1CF4 + k] = (spr_cpu % 256) as u8;
        rom[0x1D16 + k] = (spr_cpu / 256) as u8;
        rom[0x1D3C + k] = (tile_cpu % 256) as u8;
        rom[0x1D5E + k] = (tile_cpu / 256) as u8;
    }
    // the area: header 0x98 (timer T300, start mid-air, overworld) and 0x61
    // (mushroom, hills, floor pattern 1); one brick row
    rom[0x2000] = 0x98;
    rom[0x2001] = 0x61;
    rom[0x2002] = 0x35;
    rom[0x2003] = 0x24;
    rom[0x2004] = 0xFD;
    // its sprites: one goomba
    rom[0x2010] = 0x4A;
    rom[0x2011] = 0x06;
    rom[0x2012] = 0xFF;
    rom
}

#[test]
fn rom_addr_subtracts_bank_base() {
    assert_eq!(rom_addr(32752), 0);
    assert_eq!(rom_addr(0x8000), 16);
    assert_eq!(rom_addr(0x9FF0), 0x2000);
}

#[test]
fn default_areas_per_type() {
    let w = Area::default_for_type(0);
    assert_eq!(w.timer, AreaTimerSetting::T300);
    assert_eq!(w.mario_height, AreaMarioStartHeightSetting::VeryHigh);
    assert_eq!(w.bg, AreaBackdropSetting::Underwater);
    assert_eq!(w.special, AreaSpecialSetting::Ordinary);
    assert_eq!(w.bg2, AreaScenerySetting::Blank);
    assert_eq!(w.initial_tilepat, 1);
    assert!(w.terrain.is_empty() && w.stuff.is_empty());
    let g = Area::default_for_type(1);
    assert_eq!(g.mario_height, AreaMarioStartHeightSetting::Ground);
    assert_eq!(g.special, AreaSpecialSetting::Mushroom);
    assert_eq!(g.bg2, AreaScenerySetting::Hills);
    let c = Area::default_for_type(2);
    assert_eq!(c.mario_height, AreaMarioStartHeightSetting::High);
    assert_eq!(c.special, AreaSpecialSetting::Cannon);
    let k = Area::default_for_type(3);
    assert_eq!(k.mario_height, AreaMarioStartHeightSetting::Midair);
    let other = Area::default_for_type(7);
    assert_eq!(other.timer, AreaTimerSetting::Sublevel);
    assert_eq!(other.bg, AreaBackdropSetting::Grayscale);
}

#[test]
fn terrain_records_decode() {
    // row 2, column 1: block row of 5; then a pipe that moves on a screen
    let rom = vec![0x12, 0x34, 0x57, 0xF9, 0xFD];
    let t = parse_terrain(&rom, 0).unwrap();
    assert_eq!(t.len(), 2);
    assert_eq!(t[0].x, 1);
    assert_eq!(t[0].y, 2);
    assert_eq!(t[0].variety, TerrainObjectType::BlockRow(4));
    assert_eq!(t[1].x, 16 + 5);
    assert_eq!(t[1].y, 7);
    assert_eq!(t[1].variety, TerrainObjectType::Pipe(true, 1));
}

#[test]
fn terrain_special_rows() {
    // row 12 hole, row 13 screen jump to screen 3, row 15 staircase,
    // row 14 backdrop switch, row 13 flagpole command
    let rom = vec![0x0C, 0x05, 0x0D, 0x03, 0x2F, 0x34, 0x3E, 0x42, 0x4D, 0x41, 0xFD];
    let t = parse_terrain(&rom, 0).unwrap();
    assert_eq!(t.len(), 4);
    assert_eq!(t[0].variety, TerrainObjectType::Hole(5));
    assert_eq!((t[0].x, t[0].y), (0, 0));
    assert_eq!(t[1].variety, TerrainObjectType::BlockStaircase(4));
    assert_eq!(t[1].x, 48 + 2);
    assert_eq!(t[2].variety, TerrainObjectType::BackdropSwitchCommand(2));
    assert_eq!(t[3].variety, TerrainObjectType::Flagpole);
    assert_eq!(t[3].x, 48 + 4);
}

#[test]
fn terrain_stream_must_end() {
    assert!(parse_terrain(&vec![0x12, 0x34], 0).is_none());
    assert!(parse_terrain(&vec![0x12], 0).is_none());
    assert!(parse_terrain(&vec![0xFD], 3).is_none());
    assert_eq!(parse_terrain(&vec![0xFD], 0).unwrap().len(), 0);
}

#[test]
fn sprite_records_decode() {
    // goomba at column 4, row 10; a late-game koopa on the next screen;
    // a three-byte row-14 record; a screen jump to screen 2; a lift
    let rom = vec![0x4A, 0x06, 0x23, 0xC0, 0x1E, 0x00, 0x00, 0x0F, 0x02, 0x31, 0x24, 0xFF];
    let s = parse_sprites(&rom, 0).unwrap();
    assert_eq!(s.len(), 3);
    assert_eq!(s[0].variety, SpriteObjectType::Goomba);
    assert_eq!((s[0].x, s[0].y, s[0].lategame), (4, 10, false));
    assert_eq!(s[1].variety, SpriteObjectType::GreenKoopa);
    assert_eq!((s[1].x, s[1].y, s[1].lategame), (16 + 2, 3, true));
    assert_eq!(s[2].variety, SpriteObjectType::BalanceLift);
    assert_eq!((s[2].x, s[2].y), (32 + 3, 1));
}

#[test]
fn sprite_unknown_kind_is_raw() {
    let rom = vec![0x11, 0x13, 0xFF];
    let s = parse_sprites(&rom, 0).unwrap();
    assert_eq!(s[0].variety, SpriteObjectType::RawHex(0x13));
    assert!(parse_sprites(&vec![0x11, 0x13], 0).is_none());
}

#[test]
fn area_header_decodes() {
    let rom = synthetic_rom();
    let a = parse_area(&rom, 0x2000, 0x2010).unwrap();
    assert_eq!(a.timer, AreaTimerSetting::T300);
    assert_eq!(a.mario_height, AreaMarioStartHeightSetting::Midair);
    assert_eq!(a.bg, AreaBackdropSetting::Overworld);
    assert_eq!(a.special, AreaSpecialSetting::Mushroom);
    assert_eq!(a.bg2, AreaScenerySetting::Hills);
    assert_eq!(a.initial_tilepat, 1);
    assert_eq!(a.terrain.len(), 1);
    assert_eq!(a.terrain[0].variety, TerrainObjectType::BrickRow(4));
    assert_eq!(a.stuff.len(), 1);
    assert!(parse_area(&rom, rom.len() - 1, 0x2010).is_none());
}

#[test]
fn unpatched_tables_load() {
    let rom = synthetic_rom();
    assert!(unpatched_rom_loadable(&rom));
    assert!(rom_opens_cleanly(&rom));
    let mut app = HibachiApp::default();
    app.rom = Some(rom);
    app.reload_levels_unpatched();
    assert_eq!(app.levels[0], vec![[3, 3], [1, 1]]);
    assert_eq!(app.levels[1], vec![[1, 2], [1, 3]]);
    assert_eq!(app.levels[6].len(), 1);
    assert_eq!(app.levels[7].len(), 36 - 9);
    let counts: Vec<usize> = app.areas.iter().map(|v| v.len()).collect();
    assert_eq!(counts, vec![3, 7, 10, 14]);
    for list in app.areas.iter() {
        for a in list {
            assert_eq!(a.terrain.len(), 1);
            assert_eq!(a.stuff[0].variety, SpriteObjectType::Goomba);
        }
    }
}

#[test]
fn level_entries_stay_in_range() {
    let mut rom = synthetic_rom();
    for k in 0..36usize {
        rom[0x1CCC + k] = 0xFF;
    }
    let mut app = HibachiApp::default();
    app.rom = Some(rom);
    app.reload_levels_unpatched();
    for w in app.levels.iter() {
        for e in w {
            assert_eq!(*e, [3, 31]);
        }
    }
}

#[test]
fn bad_pointer_makes_rom_unloadable() {
    let mut rom = synthetic_rom();
    rom[0x1D5E + 5] = 0x10; // a tile pointer below the bank
    assert!(!unpatched_rom_loadable(&rom));
    assert!(!rom_opens_cleanly(&rom));
    let mut short = synthetic_rom();
    short.truncate(0x1D00);
    assert!(!unpatched_rom_loadable(&short));
}

#[test]
fn area_runs_hold_at_most_34_areas() {
    let mut rom = synthetic_rom();
    for i in 0..4 {
        rom[0x1CF0 + i] = 0;
        rom[0x1D38 + i] = 0;
    }
    let mut app = HibachiApp::default();
    app.rom = Some(rom);
    app.reload_levels_unpatched();
    for list in app.areas.iter() {
        assert_eq!(list.len(), 34);
    }
}

#[test]
fn parsed_objects_stay_in_their_rows() {
    let mut rom = Vec::new();
    for i in 0..=255u8 {
        if i != 0xFD && i != 0xFF {
            rom.push(i);
            rom.push(i.wrapping_mul(37));
        }
    }
    rom.push(0xFD);
    rom.push(0xFF);
    let t = parse_terrain(&rom, 0).unwrap();
    assert!(!t.is_empty());
    assert!(t.iter().all(|o| o.y < 12));
    let s = parse_sprites(&rom, rom.len() - 1).unwrap();
    assert!(s.is_empty());
    let mut spr = Vec::new();
    for i in 0..=255u8 {
        if i % 16 != 14 && i != 0xFF {
            spr.push(i);
            spr.push(i.wrapping_mul(91));
        }
    }
    spr.push(0xFF);
    let s = parse_sprites(&spr, 0).unwrap();
    assert!(!s.is_empty());
    assert!(s.iter().all(|o| o.y < 14));
}
