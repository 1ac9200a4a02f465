//! Reading and patching the ROM image: its header check, the level and
//! area tables, the organisation patch, and the graphics it holds.
use vstd::prelude::*;
use crate::area::{Area, AreaView, parse_area, prepend, spec_load_area};
use crate::color::{nes_color, spec_nes_color};
use crate::editor::{HibachiApp, palette_index, spec_palette_index};
use crate::graphics::{
    MarioColor, MarioColorPalette, MarioGraphics, ViewportSprite, decode_glyph_sprite, decode_sprite,
    glyph_pixel, glyph_sprite_matches, graphics_entry, graphics_rom_len, graphics_table,
    lemma_graphics_codes, lemma_graphics_table_decodable, lemma_graphics_table_tiles,
    lemma_same_tiles_same_sprite, letter_tile, palette_at, read_palette, sprite_decodable, sprite_matches,
    tile_addr, tile_byte,
};
use crate::rom_addr;

verus! {

/// The file starts with the iNES signature "NES" followed by 0x1A.
pub open spec fn ines_header_ok(rom: Seq<u8>) -> bool {
    &&& rom[0] == 0x4e
    &&& rom[1] == 0x45
    &&& rom[2] == 0x53
    &&& rom[3] == 0x1a
}

/// The organisation patch is installed: its first byte is in place.
pub open spec fn rom_is_patched(rom: Seq<u8>) -> bool {
    rom[0x1C27] == 0xBC
}

/// The ROM with the organisation patch installed: nine bytes of the level
/// loading code redirected to the tables of the patched layout.
pub open spec fn organisation_patch(rom: Seq<u8>) -> Seq<u8> {
    rom.update(0x1C27, 0xBC).update(0x1C2F, 0xC4).update(0x1C42, 0xB4).update(0x1C4A, 0xE8).update(
        0x1C4F,
        0x0A,
    ).update(0x1C57, 0xB8).update(0x1C58, 0x9C).update(0x5F3A, 0xBC).update(0x5F3D, 0xC4)
}

/// The bytes that the organisation patch writes.
pub open spec fn patched_offset(i: int) -> bool {
    i == 0x1C27 || i == 0x1C2F || i == 0x1C42 || i == 0x1C4A || i == 0x1C4F || i == 0x1C57 || i
        == 0x1C58 || i == 0x5F3A || i == 0x5F3D
}

/// The ROM that the editor has open.
pub open spec fn rom_of(app: &HibachiApp) -> Seq<u8> {
    app.rom.unwrap()@
}

impl HibachiApp {
    /// Checks that the open ROM is in iNES format; where it is not, records
    /// the error "ROM is not in iNES format!".
    pub fn validate_rom(&mut self) -> (ok: bool)
        requires
            old(self).rom is Some,
            rom_of(old(self)).len() >= 4,
        ensures
            ok == ines_header_ok(rom_of(old(self))),
            ok ==> *final(self) == *old(self),
            !ok ==> final(self).lasterr@ == "ROM is not in iNES format!"@,
            !ok ==> *final(self) == (HibachiApp {
                lasterr: final(self).lasterr,
                error_pending: true,
                ..*old(self)
            }),
    {
        let ok = match &self.rom {
            Some(raw_rom) => raw_rom[0] == 0x4e && raw_rom[1] == 0x45 && raw_rom[2] == 0x53 && raw_rom[3]
                == 0x1a,
            None => false,
        };
        if !ok {
            self.err("ROM is not in iNES format!");
            return false;
        }
        true
    }

    /// Whether the organisation patch is installed in the open ROM.
    pub fn is_patched_organisation(&self) -> (r: bool)
        requires
            self.rom is Some,
            rom_of(self).len() > 0x1C27,
        ensures
            r == rom_is_patched(rom_of(self)),
    {
        match &self.rom {
            Some(raw_rom) => raw_rom[0x1C27] == 0xBC,
            None => false,
        }
    }

    /// Installs the organisation patch in the open ROM.
    pub fn install_organisation_patch(&mut self)
        requires
            old(self).rom is Some,
            rom_of(old(self)).len() > 0x5F3D,
        ensures
            final(self).rom is Some,
            rom_of(final(self)) == organisation_patch(rom_of(old(self))),
            *final(self) == (HibachiApp { rom: final(self).rom, ..*old(self) }),
    {
        let mut raw_rom = self.rom.take().unwrap();
        raw_rom.set(0x1C27, 0xBC);
        raw_rom.set(0x1C2F, 0xC4);
        raw_rom.set(0x1C42, 0xB4);
        raw_rom.set(0x1C4A, 0xE8);
        raw_rom.set(0x1C4F, 0x0A);
        raw_rom.set(0x1C57, 0xB8);
        raw_rom.set(0x1C58, 0x9C);
        raw_rom.set(0x5F3A, 0xBC);
        raw_rom.set(0x5F3D, 0xC4);
        self.rom = Some(raw_rom);
    }

    /// Whether a ROM is open.
    pub fn is_rom_open(&self) -> (r: bool)
        ensures
            r == self.rom is Some,
    {
        match &self.rom {
            Some(_) => true,
            None => false,
        }
    }
}

// ---------------------------------------------------------------------------
// The level and area tables of an unpatched ROM.
//
// 0x1CC4: for each world, where its levels start in the level list
// 0x1CCC: the level list, one byte per level: area type and area number
// 0x1CF0: for each area type, where its areas start in the sprite pointers
// 0x1CF4 / 0x1D16: the sprite pointers, low and high bytes
// 0x1D38: for each area type, where its areas start in the tile pointers
// 0x1D3C / 0x1D5E: the tile pointers, low and high bytes

/// Where the levels of world `n` start in the level list; the list of the
/// last world ends at 36.
pub open spec fn world_offset(rom: Seq<u8>, n: int) -> int {
    if n < 8 {
        rom[0x1CC4 + n] as int
    } else {
        36
    }
}

/// The level that a byte of the level list names: bits 6-5 are the area
/// type and bits 4-0 the area number.
pub open spec fn level_entry(arid: u8) -> [usize; 2] {
    [((arid / 0x20) % 4) as usize, (arid % 0x20) as usize]
}

/// The levels of world `n`.
pub open spec fn world_levels(rom: Seq<u8>, n: int) -> Seq<[usize; 2]> {
    let lo = world_offset(rom, n);
    let hi = world_offset(rom, n + 1);
    Seq::new(if lo < hi { (hi - lo) as nat } else { 0 }, |k: int| level_entry(rom[0x1CCC + lo + k]))
}

/// The levels of the eight worlds.
pub open spec fn unpatched_levels(rom: Seq<u8>) -> Seq<Seq<[usize; 2]>> {
    Seq::new(8, |n: int| world_levels(rom, n))
}

/// The level list of every world lies inside the ROM.
pub open spec fn levels_readable(rom: Seq<u8>) -> bool {
    forall|n: int|
        0 <= n < 8 && #[trigger] world_offset(rom, n) < world_offset(rom, n + 1) ==> 0x1CCC + world_offset(rom, n + 1)
            <= rom.len()
}

pub open spec fn sprite_offset(rom: Seq<u8>, n: int) -> int {
    rom[0x1CF0 + n] as int
}

pub open spec fn tile_offset(rom: Seq<u8>, n: int) -> int {
    rom[0x1D38 + n] as int
}

/// The areas of some type start at entry `k` of the pointer tables.
pub open spec fn is_list_start(rom: Seq<u8>, k: int) -> bool {
    sprite_offset(rom, 0) == k || sprite_offset(rom, 1) == k || sprite_offset(rom, 2) == k
        || sprite_offset(rom, 3) == k
}

/// Tile pointer `t`, a CPU address.
pub open spec fn tile_pointer(rom: Seq<u8>, t: int) -> int {
    rom[0x1D5E + t] * 256 + rom[0x1D3C + t]
}

/// Sprite pointer `k`, a CPU address.
pub open spec fn sprite_pointer(rom: Seq<u8>, k: int) -> int {
    rom[0x1D16 + k] * 256 + rom[0x1CF4 + k]
}

/// The areas read from sprite pointer `k` and tile pointer `t` on, up to
/// the start of the next area type or the end of the tables (34 entries).
/// `None` where a pointer lies outside the ROM's bank or an area cannot be
/// read.
pub open spec fn area_run(rom: Seq<u8>, k: int, t: int) -> Option<Seq<AreaView>>
    decreases 0x22 - k,
{
    if k >= 0x22 {
        Some(Seq::empty())
    } else if k < 0 || t < 0 || 0x1D5E + t >= rom.len() || 0x1D16 + k >= rom.len() {
        None
    } else if tile_pointer(rom, t) < 32752 || sprite_pointer(rom, k) < 32752 {
        None
    } else {
        match spec_load_area(rom, tile_pointer(rom, t) - 32752, sprite_pointer(rom, k) - 32752) {
            None => None,
            Some(a) => if is_list_start(rom, k + 1) {
                Some(seq![a])
            } else {
                prepend(seq![a], area_run(rom, k + 1, t + 1))
            },
        }
    }
}

/// The areas of type `n`.
pub open spec fn type_areas(rom: Seq<u8>, n: int) -> Option<Seq<AreaView>> {
    area_run(rom, sprite_offset(rom, n), tile_offset(rom, n))
}

/// The areas of the four types.
pub open spec fn unpatched_areas(rom: Seq<u8>) -> Option<Seq<Seq<AreaView>>> {
    match (type_areas(rom, 0), type_areas(rom, 1), type_areas(rom, 2), type_areas(rom, 3)) {
        (Some(a), Some(b), Some(c), Some(d)) => Some(seq![a, b, c, d]),
        _ => None,
    }
}

/// The level and area tables of an unpatched ROM can be read without
/// running off its end or meeting a pointer outside its bank.
pub open spec fn unpatched_loadable(rom: Seq<u8>) -> bool {
    &&& rom.len() >= 0x1D3C
    &&& levels_readable(rom)
    &&& unpatched_areas(rom) is Some
}

fn world_offset_at(rom: &Vec<u8>, n: usize) -> (r: usize)
    requires
        n <= 8,
        rom.len() >= 0x1D3C,
    ensures
        r == world_offset(rom@, n as int),
        r <= 255,
{
    if n < 8 {
        rom[0x1CC4 + n] as usize
    } else {
        36
    }
}

fn starts_list(rom: &Vec<u8>, k: usize) -> (r: bool)
    requires
        rom.len() >= 0x1D3C,
    ensures
        r == is_list_start(rom@, k as int),
{
    rom[0x1CF0] as usize == k || rom[0x1CF1] as usize == k || rom[0x1CF2] as usize == k || rom[0x1CF3] as usize == k
}

/// The file offsets that tile pointer `t` and sprite pointer `k` name.
fn area_pointers(rom: &Vec<u8>, k: usize, t: usize) -> (r: Option<(usize, usize)>)
    requires
        k < 0x22,
        t < 0x200,
    ensures
        r is Some <==> (0x1D5E + t < rom.len() && 0x1D16 + k < rom.len() && tile_pointer(rom@, t as int)
            >= 32752 && sprite_pointer(rom@, k as int) >= 32752),
        r is Some ==> r.unwrap().0 == tile_pointer(rom@, t as int) - 32752 && r.unwrap().1
            == sprite_pointer(rom@, k as int) - 32752,
{
    if 0x1D5E + t >= rom.len() || 0x1D16 + k >= rom.len() {
        return None;
    }
    let tp = (rom[0x1D5E + t] as usize) * 256 + (rom[0x1D3C + t] as usize);
    let sp = (rom[0x1D16 + k] as usize) * 256 + (rom[0x1CF4 + k] as usize);
    if tp < 32752 || sp < 32752 {
        return None;
    }
    Some((rom_addr(tp), rom_addr(sp)))
}

/// Reads the levels of world `n`.
fn read_world_levels(rom: &Vec<u8>, n: usize) -> (w: Vec<[usize; 2]>)
    requires
        n < 8,
        rom.len() >= 0x1D3C,
        levels_readable(rom@),
    ensures
        w@ == world_levels(rom@, n as int),
{
    let lo = world_offset_at(rom, n);
    let hi = world_offset_at(rom, n + 1);
    assert(world_offset(rom@, n as int) < world_offset(rom@, n + 1) ==> 0x1CCC + hi <= rom.len());
    let mut w: Vec<[usize; 2]> = Vec::new();
    let mut k = lo;
    while k < hi
        invariant
            lo == world_offset(rom@, n as int),
            hi == world_offset(rom@, n + 1),
            lo <= k,
            lo < hi ==> k <= hi,
            hi <= lo ==> k == lo,
            lo < hi ==> 0x1CCC + hi <= rom.len(),
            w@ =~= world_levels(rom@, n as int).take(k - lo),
        decreases hi - k,
    {
        let arid = rom[0x1CCC + k];
        w.push([((arid / 0x20) % 4) as usize, (arid % 0x20) as usize]);
        k = k + 1;
    }
    let ghost all = world_levels(rom@, n as int);
    if lo < hi {
        assert(k == hi);
        assert(all.len() == hi - lo);
        assert(all.take(k - lo) =~= all);
    } else {
        assert(k == lo);
        assert(all.len() == 0);
        assert(all.take(k - lo) =~= all);
    }
    assert(w@ == all.take(k - lo));
    assert(w@ =~= all);
    w
}

/// The views of a list of areas.
pub open spec fn area_views(v: Seq<Area>) -> Seq<AreaView> {
    v.map_values(|a: Area| a@)
}

/// Whether the level and area tables of `rom`, read as an unpatched ROM,
/// can be loaded.
pub fn unpatched_rom_loadable(rom: &Vec<u8>) -> (r: bool)
    ensures
        r == unpatched_loadable(rom@),
{
    if rom.len() < 0x1D3C {
        return false;
    }
    let mut n: usize = 0;
    while n < 8
        invariant
            n <= 8,
            rom.len() >= 0x1D3C,
            forall|m: int|
                0 <= m < n && #[trigger] world_offset(rom@, m) < world_offset(rom@, m + 1) ==> 0x1CCC
                    + world_offset(rom@, m + 1) <= rom.len(),
        decreases 8 - n,
    {
        let lo = world_offset_at(rom, n);
        let hi = world_offset_at(rom, n + 1);
        if lo < hi && 0x1CCC + hi > rom.len() {
            assert(!levels_readable(rom@));
            return false;
        }
        n = n + 1;
    }
    assert(levels_readable(rom@));
    let mut n: usize = 0;
    while n < 4
        invariant
            n <= 4,
            rom.len() >= 0x1D3C,
            forall|m: int| 0 <= m < n ==> (#[trigger] type_areas(rom@, m)) is Some,
        decreases 4 - n,
    {
        let mut k = rom[0x1CF0 + n] as usize;
        let mut t = rom[0x1D38 + n] as usize;
        let ghost k0 = k as int;
        let ghost t0 = t as int;
        loop
            invariant_except_break
                k0 == sprite_offset(rom@, n as int),
                t0 == tile_offset(rom@, n as int),
                k0 <= k,
                t == t0 + (k - k0),
                k0 < 0x22 ==> k <= 0x22,
                (area_run(rom@, k0, t0) is Some) == (area_run(rom@, k as int, t as int) is Some),
            invariant
                n < 4,
                rom.len() >= 0x1D3C,
                forall|m: int| 0 <= m < n ==> (#[trigger] type_areas(rom@, m)) is Some,
            ensures
                type_areas(rom@, n as int) is Some,
            decreases 0x22 - k,
        {
            if k >= 0x22 {
                break;
            }
            let ptrs = area_pointers(rom, k, t);
            match ptrs {
                None => {
                    return false;
                },
                Some((tile_start, spr_start)) => {
                    let a = parse_area(rom, tile_start, spr_start);
                    if a.is_none() {
                        return false;
                    }
                },
            }
            k = k + 1;
            t = t + 1;
            if starts_list(rom, k) {
                break;
            }
        }
        n = n + 1;
    }
    assert(unpatched_areas(rom@) is Some) by {
        assert(type_areas(rom@, 0) is Some);
        assert(type_areas(rom@, 1) is Some);
        assert(type_areas(rom@, 2) is Some);
        assert(type_areas(rom@, 3) is Some);
    }
    true
}

impl HibachiApp {
    /// Reads the area whose header and terrain stream start at `tile_start`
    /// and whose sprite stream starts at `spr_start`, and adds it to the
    /// areas of type `atype`.
    pub fn load_area_from_pointers(&mut self, atype: usize, tile_start: usize, spr_start: usize)
        requires
            atype < 4,
            old(self).rom is Some,
            spec_load_area(rom_of(old(self)), tile_start as int, spr_start as int) is Some,
        ensures
            final(self).areas[atype as int]@.len() == old(self).areas[atype as int]@.len() + 1,
            final(self).areas[atype as int]@.drop_last() == old(self).areas[atype as int]@,
            final(self).areas[atype as int]@.last()@ == spec_load_area(
                rom_of(old(self)),
                tile_start as int,
                spr_start as int,
            ).unwrap(),
            forall|m: int| 0 <= m < 4 && m != atype ==> final(self).areas[m] == old(self).areas[m],
            *final(self) == (HibachiApp { areas: final(self).areas, ..*old(self) }),
    {
        let a = match &self.rom {
            Some(raw_rom) => parse_area(raw_rom, tile_start, spr_start),
            None => None,
        };
        match a {
            Some(a) => {
                self.areas[atype].push(a);
                assert(self.areas[atype as int]@.drop_last() =~= old(self).areas[atype as int]@);
            },
            None => {},
        }
    }

    /// Reads the areas of type `n` (0 water, 1 ground, 2 cave, 3 castle)
    /// into the empty list of that type.
    fn load_areas_of_type(&mut self, n: usize)
        requires
            n < 4,
            old(self).rom is Some,
            unpatched_loadable(rom_of(old(self))),
            old(self).areas[n as int]@.len() == 0,
        ensures
            area_views(final(self).areas[n as int]@) == type_areas(rom_of(old(self)), n as int).unwrap(),
            forall|m: int| 0 <= m < 4 && m != n ==> final(self).areas[m] == old(self).areas[m],
            *final(self) == (HibachiApp { areas: final(self).areas, ..*old(self) }),
    {
        let ghost rom = rom_of(self);
        let ghost start = *self;
        let ghost full = type_areas(rom, n as int);
        assert(full is Some) by {
            assert(type_areas(rom, 0) is Some);
            assert(type_areas(rom, 1) is Some);
            assert(type_areas(rom, 2) is Some);
            assert(type_areas(rom, 3) is Some);
        }
        let (mut k, mut t) = {
            let raw_rom = self.rom.as_ref().unwrap();
            (raw_rom[0x1CF0 + n] as usize, raw_rom[0x1D38 + n] as usize)
        };
        let ghost k0 = k as int;
        let ghost t0 = t as int;
        assert(area_views(self.areas[n as int]@) =~= Seq::<AreaView>::empty());
        loop
            invariant_except_break
                k0 <= k,
                t == t0 + (k - k0),
                k0 < 0x22 ==> k <= 0x22,
                full == prepend(area_views(self.areas[n as int]@), area_run(rom, k as int, t as int)),
            invariant
                n < 4,
                k0 == sprite_offset(rom, n as int),
                t0 == tile_offset(rom, n as int),
                full == type_areas(rom, n as int),
                full is Some,
                self.rom is Some,
                rom == rom_of(self),
                unpatched_loadable(rom),
                forall|m: int| 0 <= m < 4 && m != n ==> self.areas[m] == start.areas[m],
                *self == (HibachiApp { areas: self.areas, ..start }),
            ensures
                full == Some(area_views(self.areas[n as int]@)),
            decreases 0x22 - k,
        {
            if k >= 0x22 {
                assert(area_views(self.areas[n as int]@) + Seq::<AreaView>::empty() =~= area_views(
                    self.areas[n as int]@,
                ));
                break;
            }
            let ptrs = area_pointers(self.rom.as_ref().unwrap(), k, t);
            let (tile_start, spr_start) = ptrs.unwrap();
            let ghost before = area_views(self.areas[n as int]@);
            self.load_area_from_pointers(n, tile_start, spr_start);
            let ghost a = spec_load_area(rom, tile_start as int, spr_start as int).unwrap();
            assert(area_views(self.areas[n as int]@) =~= before.push(a));
            k = k + 1;
            t = t + 1;
            if starts_list(self.rom.as_ref().unwrap(), k) {
                break;
            }
            proof {
                let rest = area_run(rom, k as int, t as int);
                if rest is Some {
                    assert(before + (seq![a] + rest.unwrap()) =~= area_views(self.areas[n as int]@)
                        + rest.unwrap());
                }
            }
        }
    }

    /// Reads the levels of the eight worlds and the areas of the four types
    /// out of an unpatched ROM, replacing what was read before.
    pub fn reload_levels_unpatched(&mut self)
        requires
            old(self).rom is Some,
            unpatched_loadable(rom_of(old(self))),
        ensures
            final(self).levels_view() == unpatched_levels(rom_of(old(self))),
            final(self).areas_view() == unpatched_areas(rom_of(old(self))).unwrap(),
            *final(self) == (HibachiApp { levels: final(self).levels, areas: final(self).areas, ..*old(self) }),
    {
        let ghost rom = rom_of(self);
        self.levels = [Vec::new(), Vec::new(), Vec::new(), Vec::new(), Vec::new(), Vec::new(), Vec::new(), Vec::new()];
        self.areas = [Vec::new(), Vec::new(), Vec::new(), Vec::new()];
        let ghost start = *self;
        let mut n: usize = 0;
        while n < 8
            invariant
                n <= 8,
                rom == rom_of(self),
                self.rom is Some,
                unpatched_loadable(rom),
                *self == (HibachiApp { levels: self.levels, ..start }),
                forall|m: int| 0 <= m < n ==> (#[trigger] self.levels[m])@ == world_levels(rom, m),
            decreases 8 - n,
        {
            let w = read_world_levels(self.rom.as_ref().unwrap(), n);
            self.levels[n] = w;
            n = n + 1;
        }
        assert(self.levels_view() =~= unpatched_levels(rom));
        let ghost areas_start = *self;
        let mut n: usize = 0;
        while n < 4
            invariant
                n <= 4,
                self.rom is Some,
                rom == rom_of(self),
                unpatched_loadable(rom),
                *self == (HibachiApp { areas: self.areas, ..areas_start }),
                forall|m: int| 0 <= m < n ==> area_views((#[trigger] self.areas[m])@) == type_areas(rom, m).unwrap(),
                forall|m: int| n <= m < 4 ==> (#[trigger] self.areas[m])@.len() == 0,
            decreases 4 - n,
        {
            self.load_areas_of_type(n);
            n = n + 1;
        }
        assert(self.areas_view() =~= unpatched_areas(rom).unwrap());
    }

    /// Reads the level and area tables of a ROM with the organisation patch
    /// installed. The patched layout is not read yet: nothing changes.
    pub fn reload_levels(&mut self)
        ensures
            *final(self) == *old(self),
    {
    }

    /// Writes the levels and areas back into the ROM. Not done yet: nothing
    /// changes.
    pub fn rewrite_levels(&mut self)
        ensures
            *final(self) == *old(self),
    {
    }
}

// ---------------------------------------------------------------------------
// Graphics and palettes.

/// Where the first entry with key `g` lies in `s` from `i` on; `s.len()` if
/// there is none.
pub open spec fn key_from(s: Seq<(MarioGraphics, ViewportSprite)>, g: MarioGraphics, i: int) -> int
    decreases s.len() - i,
{
    if i < 0 || i >= s.len() {
        s.len() as int
    } else if s[i].0 == g {
        i
    } else {
        key_from(s, g, i + 1)
    }
}

/// Where the entry with key `g` lies in `s`; `s.len()` if there is none.
pub open spec fn graphics_key_index(s: Seq<(MarioGraphics, ViewportSprite)>, g: MarioGraphics) -> int {
    key_from(s, g, 0)
}

proof fn lemma_key_absent(s: Seq<(MarioGraphics, ViewportSprite)>, g: MarioGraphics, i: int)
    requires
        0 <= i <= s.len(),
        forall|j: int| i <= j < s.len() ==> (#[trigger] s[j]).0 != g,
    ensures
        key_from(s, g, i) == s.len(),
    decreases s.len() - i,
{
    if i < s.len() {
        lemma_key_absent(s, g, i + 1);
    }
}

/// Finds the entry with key `g`.
pub fn find_graphics(list: &Vec<(MarioGraphics, ViewportSprite)>, g: MarioGraphics) -> (i: usize)
    ensures
        i == graphics_key_index(list@, g),
        i <= list@.len(),
        i < list@.len() ==> list@[i as int].0 == g,
{
    let mut i: usize = 0;
    while i < list.len()
        invariant
            i <= list@.len(),
            key_from(list@, g, 0) == key_from(list@, g, i as int),
        decreases list@.len() - i,
    {
        if list[i].0 == g {
            return i;
        }
        i = i + 1;
    }
    i
}

/// Where the area palette of `p` lies: the variants of the ground palette
/// use the ground palette, the Bowser palette the castle one.
pub open spec fn palette_offset(p: MarioColorPalette) -> int {
    match p {
        MarioColorPalette::Water => 0x0CB4,
        MarioColorPalette::Cave => 0x0CFC,
        MarioColorPalette::Castle => 0x0D20,
        MarioColorPalette::Bowser => 0x0D20,
        _ => 0x0CD8,
    }
}

/// Where the sky colour of `p` lies; only the four area types have one.
pub open spec fn sky_offset(p: MarioColorPalette) -> Option<int> {
    match p {
        MarioColorPalette::Water => Some(0x05DF),
        MarioColorPalette::Ground => Some(0x05E0),
        MarioColorPalette::Cave => Some(0x05E1),
        MarioColorPalette::Castle => Some(0x05E2),
        _ => None,
    }
}

/// `new` holds the palettes and sky colours read out of `rom`; the sky
/// colours that `rom` does not hold are those of `old`.
pub open spec fn palettes_read(old: HibachiApp, new: HibachiApp, rom: Seq<u8>) -> bool {
    &&& forall|p: MarioColorPalette|
        #![trigger new.game_palette[spec_palette_index(p) as int]]
        new.game_palette[spec_palette_index(p) as int] == Some(palette_at(rom, palette_offset(p)))
    &&& forall|p: MarioColorPalette|
        #![trigger new.game_skycolor[spec_palette_index(p) as int]]
        new.game_skycolor[spec_palette_index(p) as int] == match sky_offset(p) {
            Some(o) => Some(spec_nes_color(rom[o])),
            None => old.game_skycolor[spec_palette_index(p) as int],
        }
}

/// `new` holds the palettes and sky colours read out of `rom`, and is `old`
/// otherwise.
pub open spec fn palettes_loaded(old: HibachiApp, new: HibachiApp, rom: Seq<u8>) -> bool {
    &&& palettes_read(old, new, rom)
    &&& new == (HibachiApp { game_palette: new.game_palette, game_skycolor: new.game_skycolor, ..old })
}

/// `new` holds the font read out of `rom`, and is `old` otherwise.
pub open spec fn font_loaded(old: HibachiApp, new: HibachiApp, rom: Seq<u8>) -> bool {
    &&& forall|i: int|
        0 <= i < 26 ==> (#[trigger] new.game_font[i]) is Some && glyph_sprite_matches(
            rom,
            letter_tile(i),
            new.game_font[i].unwrap(),
        )
    &&& new == (HibachiApp { game_font: new.game_font, ..old })
}

/// `new` holds the sprites, palettes and font read out of `rom`; the sky
/// colours that `rom` does not hold are those of `old`.
pub open spec fn graphics_loaded(old: HibachiApp, new: HibachiApp, rom: Seq<u8>) -> bool {
    &&& new.game_graphics@.len() == 13
    &&& forall|i: int|
        0 <= i < 13 ==> (#[trigger] new.game_graphics@[i]).0 == graphics_table()[i].0 && sprite_matches(
            rom,
            graphics_table()[i].2,
            graphics_table()[i].1,
            new.game_graphics@[i].1,
        )
    &&& palettes_read(old, new, rom)
    &&& forall|i: int|
        0 <= i < 26 ==> (#[trigger] new.game_font[i]) is Some && glyph_sprite_matches(
            rom,
            letter_tile(i),
            new.game_font[i].unwrap(),
        )
}

impl HibachiApp {
    /// Reads the area palette at `offset` and the sky colour at
    /// `sky_offset` as those of `pal`.
    pub fn reload_palette(&mut self, pal: MarioColorPalette, offset: usize, sky_offset: usize)
        requires
            old(self).rom is Some,
            offset + 35 <= rom_of(old(self)).len(),
            sky_offset < rom_of(old(self)).len(),
        ensures
            final(self).game_skycolor@ == old(self).game_skycolor@.update(
                spec_palette_index(pal) as int,
                Some(spec_nes_color(rom_of(old(self))[sky_offset as int])),
            ),
            final(self).game_palette@ == old(self).game_palette@.update(
                spec_palette_index(pal) as int,
                Some(palette_at(rom_of(old(self)), offset as int)),
            ),
            *final(self) == (HibachiApp {
                game_palette: final(self).game_palette,
                game_skycolor: final(self).game_skycolor,
                ..*old(self)
            }),
    {
        let idx = palette_index(pal);
        let (sky, p) = {
            let raw_rom = self.rom.as_ref().unwrap();
            (nes_color(raw_rom[sky_offset]), read_palette(raw_rom, offset))
        };
        self.game_skycolor[idx] = Some(sky);
        self.game_palette[idx] = Some(p);
        assert(self.game_skycolor@ =~= old(self).game_skycolor@.update(idx as int, Some(sky)));
        assert(self.game_palette@ =~= old(self).game_palette@.update(idx as int, Some(p)));
    }

    /// Reads the palettes of the four area types and their sky colours; the
    /// night, snow and mushroom palettes copy the ground one and the Bowser
    /// palette the castle one.
    pub fn reload_palettes(&mut self)
        requires
            old(self).rom is Some,
            rom_of(old(self)).len() >= 0x0D43,
        ensures
            palettes_loaded(*old(self), *final(self), rom_of(old(self))),
    {
        self.reload_palette(MarioColorPalette::Water, 0x0CB4, 0x05DF);
        self.reload_palette(MarioColorPalette::Ground, 0x0CD8, 0x05E0);
        self.reload_palette(MarioColorPalette::Cave, 0x0CFC, 0x05E1);
        self.reload_palette(MarioColorPalette::Castle, 0x0D20, 0x05E2);
        self.game_palette[4] = self.game_palette[0];
        self.game_palette[5] = self.game_palette[0];
        self.game_palette[6] = self.game_palette[0];
        self.game_palette[7] = self.game_palette[0];
        self.game_palette[8] = self.game_palette[3];
        proof {
            let rom = rom_of(old(self));
            let ground = Some(palette_at(rom, 0x0CD8));
            let castle = Some(palette_at(rom, 0x0D20));
            assert(self.game_palette[0] == ground);
            assert(self.game_palette[1] == Some(palette_at(rom, 0x0CFC)));
            assert(self.game_palette[2] == Some(palette_at(rom, 0x0CB4)));
            assert(self.game_palette[3] == castle);
            assert(self.game_palette[4] == ground);
            assert(self.game_palette[5] == ground);
            assert(self.game_palette[6] == ground);
            assert(self.game_palette[7] == ground);
            assert(self.game_palette[8] == castle);
            assert(self.game_skycolor[0] == Some(spec_nes_color(rom[0x05E0])));
            assert(self.game_skycolor[1] == Some(spec_nes_color(rom[0x05E1])));
            assert(self.game_skycolor[2] == Some(spec_nes_color(rom[0x05DF])));
            assert(self.game_skycolor[3] == Some(spec_nes_color(rom[0x05E2])));
            assert(forall|k: int| 4 <= k < 9 ==> self.game_skycolor[k] == old(self).game_skycolor[k]);
            assert forall|p: MarioColorPalette|
                #![trigger self.game_palette[spec_palette_index(p) as int]]
                self.game_palette[spec_palette_index(p) as int] == Some(palette_at(rom, palette_offset(p))) by {
                match p {
                    MarioColorPalette::Ground => {},
                    MarioColorPalette::Cave => {},
                    MarioColorPalette::Water => {},
                    MarioColorPalette::Castle => {},
                    MarioColorPalette::Night => {},
                    MarioColorPalette::SnowDay => {},
                    MarioColorPalette::SnowNight => {},
                    MarioColorPalette::Mushroom => {},
                    MarioColorPalette::Bowser => {},
                }
            }
            assert forall|p: MarioColorPalette|
                #![trigger self.game_skycolor[spec_palette_index(p) as int]]
                self.game_skycolor[spec_palette_index(p) as int] == match sky_offset(p) {
                    Some(o) => Some(spec_nes_color(rom[o])),
                    None => old(self).game_skycolor[spec_palette_index(p) as int],
                } by {
                match p {
                    MarioColorPalette::Ground => {},
                    MarioColorPalette::Cave => {},
                    MarioColorPalette::Water => {},
                    MarioColorPalette::Castle => {},
                    MarioColorPalette::Night => {},
                    MarioColorPalette::SnowDay => {},
                    MarioColorPalette::SnowNight => {},
                    MarioColorPalette::Mushroom => {},
                    MarioColorPalette::Bowser => {},
                }
            }
        }
    }

    /// Draws `patches` as the sprite `g`, tinted by `p`, replacing what `g`
    /// was drawn as before.
    pub fn reload_sprite(&mut self, g: MarioGraphics, p: MarioColor, patches: Vec<[isize; 4]>)
        requires
            old(self).rom is Some,
            sprite_decodable(rom_of(old(self)), patches@),
        ensures
            ({
                let i = graphics_key_index(old(self).game_graphics@, g);
                let n = old(self).game_graphics@.len();
                &&& i < n ==> final(self).game_graphics@.len() == n
                &&& i == n ==> final(self).game_graphics@.len() == n + 1
                &&& forall|j: int| 0 <= j < n && j != i ==> #[trigger] final(self).game_graphics@[j] == old(self).game_graphics@[j]
                &&& final(self).game_graphics@[i].0 == g
                &&& sprite_matches(rom_of(old(self)), patches@, p, final(self).game_graphics@[i].1)
            }),
            *final(self) == (HibachiApp { game_graphics: final(self).game_graphics, ..*old(self) }),
    {
        let sp = decode_sprite(self.rom.as_ref().unwrap(), &patches, p);
        let i = find_graphics(&self.game_graphics, g);
        if i < self.game_graphics.len() {
            self.game_graphics.set(i, (g, sp));
        } else {
            self.game_graphics.push((g, sp));
        }
    }

    /// Draws the 26 letters of the font.
    pub fn reload_font(&mut self)
        requires
            old(self).rom is Some,
            rom_of(old(self)).len() >= tile_addr(letter_tile(26)),
        ensures
            font_loaded(*old(self), *final(self), rom_of(old(self))),
    {
        let ghost start = *self;
        let mut i: usize = 0;
        while i < 26
            invariant
                i <= 26,
                self.rom == start.rom,
                self.rom is Some,
                rom_of(self).len() >= tile_addr(letter_tile(26)),
                forall|j: int| 0 <= j < i ==> (#[trigger] self.game_font[j]) is Some && glyph_sprite_matches(
                    rom_of(&start),
                    letter_tile(j),
                    self.game_font[j].unwrap(),
                ),
                *self == (HibachiApp { game_font: self.game_font, ..start }),
            decreases 26 - i,
        {
            let sp = decode_glyph_sprite(self.rom.as_ref().unwrap(), 0x10A + i);
            self.game_font[i] = Some(sp);
            i = i + 1;
        }
    }

    /// Reads the sprites, the palettes and the font out of the open ROM.
    pub fn reload_graphics(&mut self)
        requires
            old(self).rom is Some,
            rom_of(old(self)).len() >= graphics_rom_len(),
        ensures
            graphics_loaded(*old(self), *final(self), rom_of(old(self))),
            *final(self) == (HibachiApp {
                game_graphics: final(self).game_graphics,
                game_palette: final(self).game_palette,
                game_skycolor: final(self).game_skycolor,
                game_font: final(self).game_font,
                ..*old(self)
            }),
    {
        let ghost rom = rom_of(self);
        self.game_graphics = Vec::new();
        let ghost cleared = *self;
        self.reload_palettes();
        let ghost with_palettes = *self;
        let mut i: usize = 0;
        while i < 13
            invariant
                i <= 13,
                self.rom is Some,
                rom == rom_of(self),
                rom.len() >= graphics_rom_len(),
                self.game_graphics@.len() == i,
                forall|j: int|
                    0 <= j < i ==> (#[trigger] self.game_graphics@[j]).0 == graphics_table()[j].0 && sprite_matches(
                        rom,
                        graphics_table()[j].2,
                        graphics_table()[j].1,
                        self.game_graphics@[j].1,
                    ),
                *self == (HibachiApp { game_graphics: self.game_graphics, ..with_palettes }),
            decreases 13 - i,
        {
            let (g, c, p) = graphics_entry(i);
            proof {
                lemma_graphics_table_decodable(rom, i as int);
                assert forall|j: int| 0 <= j < self.game_graphics@.len() implies (#[trigger] self.game_graphics@[j]).0 != g by {
                    lemma_graphics_codes(j);
                    lemma_graphics_codes(i as int);
                }
                lemma_key_absent(self.game_graphics@, g, 0);
            }
            self.reload_sprite(g, c, p);
            i = i + 1;
        }
        self.reload_font();
    }
}

// ---------------------------------------------------------------------------
// Opening a ROM.

/// Opening `rom` runs to its end: it has a header to check and, where the
/// header is an iNES one, the graphics and the level tables can be read.
pub open spec fn rom_openable(rom: Seq<u8>) -> bool {
    &&& rom.len() >= 4
    &&& ines_header_ok(rom) ==> rom.len() >= graphics_rom_len() && (rom_is_patched(rom) || unpatched_loadable(rom))
}

/// Whether [`HibachiApp::open_rom`] can take `rom`.
pub fn rom_opens_cleanly(rom: &Vec<u8>) -> (r: bool)
    ensures
        r == rom_openable(rom@),
{
    if rom.len() < 4 {
        return false;
    }
    if !(rom[0] == 0x4e && rom[1] == 0x45 && rom[2] == 0x53 && rom[3] == 0x1a) {
        return true;
    }
    if rom.len() < 0x9B90 {
        return false;
    }
    rom[0x1C27] == 0xBC || unpatched_rom_loadable(rom)
}

impl HibachiApp {
    /// Opens the ROM `bytes` read from `path`: checks its header (on failure
    /// records the error and closes the ROM), then reads its graphics,
    /// leaves the area editor, and reads its levels; a ROM without the
    /// organisation patch is read in the unpatched layout and then gets the
    /// patch.
    pub fn open_rom(&mut self, path: String, bytes: Vec<u8>)
        requires
            rom_openable(bytes@),
        ensures
            !ines_header_ok(bytes@) ==> final(self).lasterr@ == "ROM is not in iNES format!"@,
            !ines_header_ok(bytes@) ==> *final(self) == (HibachiApp {
                rom: None,
                lasterr: final(self).lasterr,
                error_pending: true,
                ..*old(self)
            }),
            ines_header_ok(bytes@) ==> {
                &&& final(self).rom is Some
                &&& final(self).rom_path@ == path@
                &&& final(self).current_editing_area is None
                &&& graphics_loaded(*old(self), *final(self), bytes@)
                &&& final(self).lasterr == old(self).lasterr
                &&& final(self).error_pending == old(self).error_pending
                &&& final(self).world_editor_selected_world == old(self).world_editor_selected_world
                &&& rom_is_patched(bytes@) ==> {
                    &&& rom_of(final(self)) == bytes@
                    &&& final(self).levels == old(self).levels
                    &&& final(self).areas == old(self).areas
                }
                &&& !rom_is_patched(bytes@) ==> {
                    &&& rom_of(final(self)) == organisation_patch(bytes@)
                    &&& final(self).levels_view() == unpatched_levels(bytes@)
                    &&& final(self).areas_view() == unpatched_areas(bytes@).unwrap()
                }
            },
    {
        self.rom = Some(bytes);
        if self.validate_rom() {
            self.rom_path = path;
            self.reload_graphics();
            self.current_editing_area = None;
            if self.is_patched_organisation() {
                self.reload_levels();
            } else {
                self.reload_levels_unpatched();
                self.install_organisation_patch();
            }
        } else {
            self.rom = None;
        }
    }

    /// The sprite drawn for `g`, where there is one.
    pub fn graphic(&self, g: MarioGraphics) -> (r: Option<&ViewportSprite>)
        ensures
            r is Some <==> graphics_key_index(self.game_graphics@, g) < self.game_graphics@.len(),
            r is Some ==> *r.unwrap() == self.game_graphics@[graphics_key_index(self.game_graphics@, g)].1,
    {
        let i = find_graphics(&self.game_graphics, g);
        if i < self.game_graphics.len() {
            Some(&self.game_graphics[i].1)
        } else {
            None
        }
    }

    /// What the area editor draws for a sprite object of kind `v`: its own
    /// sprite where there is one, a red Koopa otherwise.
    pub fn sprite_object_graphics(&self, v: crate::area::SpriteObjectType) -> (g: MarioGraphics)
        ensures
            g == if graphics_key_index(self.game_graphics@, MarioGraphics::SpriteObject(v))
                < self.game_graphics@.len() {
                MarioGraphics::SpriteObject(v)
            } else {
                MarioGraphics::SpriteObject(crate::area::SpriteObjectType::StupidRedKoopa)
            },
    {
        let g = MarioGraphics::SpriteObject(v);
        if find_graphics(&self.game_graphics, g) < self.game_graphics.len() {
            g
        } else {
            MarioGraphics::SpriteObject(crate::area::SpriteObjectType::StupidRedKoopa)
        }
    }

    /// The font sprite of `c`, where the font has one: only the capital
    /// letters are drawn.
    pub fn font_glyph(&self, c: char) -> (r: Option<&ViewportSprite>)
        ensures
            r is Some <==> ('A' <= c <= 'Z' && self.game_font[c as int - 65] is Some),
            r is Some ==> *r.unwrap() == self.game_font[c as int - 65].unwrap(),
    {
        if 'A' <= c && c <= 'Z' {
            let i = (c as u32 - 65) as usize;
            match &self.game_font[i] {
                Some(s) => Some(s),
                None => None,
            }
        } else {
            None
        }
    }
}

/// The pointer tables hold 34 areas in all: a run of areas starting at
/// entry `k` holds at most `34 - k` of them.
pub proof fn lemma_area_run_len(rom: Seq<u8>, k: int, t: int)
    requires
        0 <= k,
    ensures
        area_run(rom, k, t) is Some ==> area_run(rom, k, t).unwrap().len() <= if k < 0x22 { 0x22 - k } else { 0 },
    decreases 0x22 - k,
{
    if k < 0x22 {
        lemma_area_run_len(rom, k + 1, t + 1);
    }
}

/// A byte `b` of the level list names area type `(b / 32) % 4` and area
/// number `b % 32`: written back as `32 * type + number` it gives the byte
/// without its bit 7, which plays no part. The `k`-th level of world `w`
/// comes from the byte `k` places after where the world's levels start.
pub proof fn lemma_level_bytes(rom: Seq<u8>)
    ensures
        forall|w: int, k: int|
            0 <= w < 8 && 0 <= k < unpatched_levels(rom)[w].len() ==> {
                let e = #[trigger] unpatched_levels(rom)[w][k];
                let b = rom[0x1CCC + rom[0x1CC4 + w] + k];
                &&& 32 * e[0] + e[1] == b % 128
                &&& e[1] < 32
                &&& e[0] < 4
            },
{
    assert forall|w: int, k: int|
        0 <= w < 8 && 0 <= k < unpatched_levels(rom)[w].len() implies {
            let e = #[trigger] unpatched_levels(rom)[w][k];
            let b = rom[0x1CCC + rom[0x1CC4 + w] + k];
            &&& 32 * e[0] + e[1] == b % 128
            &&& e[1] < 32
            &&& e[0] < 4
        } by {
        let b = rom[0x1CCC + rom[0x1CC4 + w] + k];
        assert(unpatched_levels(rom)[w] == world_levels(rom, w));
        assert(32 * ((b / 0x20) % 4) + b % 0x20 == b % 128);
    }
}

/// Every level read out of an unpatched ROM names an area type below 4 and
/// an area number below 32.
pub proof fn lemma_level_entries_in_range(rom: Seq<u8>)
    ensures
        forall|w: int, n: int|
            0 <= w < 8 && 0 <= n < unpatched_levels(rom)[w].len() ==> (#[trigger] unpatched_levels(rom)[w][n])[0]
                < 4 && unpatched_levels(rom)[w][n][1] < 32,
{
}

/// A ROM that has been opened holds the organisation patch, so that opening
/// it again reads it in the patched layout.
pub proof fn lemma_opened_rom_is_patched(rom: Seq<u8>)
    requires
        rom_openable(rom),
        ines_header_ok(rom),
    ensures
        rom_is_patched(if rom_is_patched(rom) { rom } else { organisation_patch(rom) }),
{
}

/// The organisation patch leaves the graphics alone: a ROM shows the same
/// sprites, palettes and font before and after the patch is installed.
pub proof fn lemma_patch_keeps_graphics(rom: Seq<u8>, old: HibachiApp, new: HibachiApp)
    requires
        rom.len() >= graphics_rom_len(),
    ensures
        graphics_loaded(old, new, rom) == graphics_loaded(old, new, organisation_patch(rom)),
{
    let pr = organisation_patch(rom);
    lemma_patch_frame(rom);
    assert forall|i: int| 0 <= i < 13 implies sprite_matches(
        rom,
        graphics_table()[i].2,
        graphics_table()[i].1,
        #[trigger] new.game_graphics@[i].1,
    ) == sprite_matches(pr, graphics_table()[i].2, graphics_table()[i].1, new.game_graphics@[i].1) by {
        lemma_graphics_table_tiles(i);
        let p = graphics_table()[i].2;
        assert forall|j: int, d: int| 0 <= j < p.len() && 0 <= d < 16 implies #[trigger] tile_byte(rom, p, j, d)
            == tile_byte(pr, p, j, d) by {
            let a = tile_addr(p[j][2] as int) + d;
            assert(!patched_offset(a) && 0 <= a < rom.len());
        }
        lemma_same_tiles_same_sprite(rom, pr, p, graphics_table()[i].1, new.game_graphics@[i].1);
    }
    assert(palette_at(rom, 0x0CB4) == palette_at(pr, 0x0CB4));
    assert(palette_at(rom, 0x0CD8) == palette_at(pr, 0x0CD8));
    assert(palette_at(rom, 0x0CFC) == palette_at(pr, 0x0CFC));
    assert(palette_at(rom, 0x0D20) == palette_at(pr, 0x0D20));
    assert(rom[0x05DF] == pr[0x05DF] && rom[0x05E0] == pr[0x05E0] && rom[0x05E1] == pr[0x05E1] && rom[0x05E2]
        == pr[0x05E2]);
    assert forall|p: MarioColorPalette| palette_at(rom, palette_offset(p)) == palette_at(pr, palette_offset(p)) by {
        match p {
            MarioColorPalette::Ground => {},
            MarioColorPalette::Cave => {},
            MarioColorPalette::Water => {},
            MarioColorPalette::Castle => {},
            MarioColorPalette::Night => {},
            MarioColorPalette::SnowDay => {},
            MarioColorPalette::SnowNight => {},
            MarioColorPalette::Mushroom => {},
            MarioColorPalette::Bowser => {},
        }
    }
    assert forall|p: MarioColorPalette| #[trigger] sky_offset(p) is Some implies rom[sky_offset(p).unwrap()]
        == pr[sky_offset(p).unwrap()] by {
        match p {
            MarioColorPalette::Ground => {},
            MarioColorPalette::Cave => {},
            MarioColorPalette::Water => {},
            MarioColorPalette::Castle => {},
            _ => {},
        }
    }
    assert(palettes_read(old, new, rom) == palettes_read(old, new, pr));
    assert forall|i: int, q: int| 0 <= i < 26 && 0 <= q < 64 implies #[trigger] glyph_pixel(rom, letter_tile(i), q)
        == glyph_pixel(pr, letter_tile(i), q) by {
        let a = tile_addr(letter_tile(i));
        assert(0 <= q / 8 < 8);
        assert(!patched_offset(a + q / 8) && !patched_offset(a + q / 8 + 8));
    }
    assert forall|i: int| 0 <= i < 26 && (#[trigger] new.game_font[i]) is Some implies glyph_sprite_matches(
        rom,
        letter_tile(i),
        new.game_font[i].unwrap(),
    ) == glyph_sprite_matches(pr, letter_tile(i), new.game_font[i].unwrap()) by {
        let sp = new.game_font[i].unwrap();
        assert(forall|q: int| 0 <= q < 64 ==> glyph_pixel(rom, letter_tile(i), q) == glyph_pixel(pr, letter_tile(i), q));
    }
}

/// Installing the organisation patch makes the ROM read as patched.
pub proof fn lemma_patch_marks_rom(rom: Seq<u8>)
    requires
        rom.len() > 0x5F3D,
    ensures
        rom_is_patched(organisation_patch(rom)),
{
}

/// Installing the organisation patch a second time changes nothing.
pub proof fn lemma_patch_idempotent(rom: Seq<u8>)
    requires
        rom.len() > 0x5F3D,
    ensures
        organisation_patch(organisation_patch(rom)) == organisation_patch(rom),
{
    assert(organisation_patch(organisation_patch(rom)) =~= organisation_patch(rom));
}

/// The organisation patch keeps the length of the ROM, writes only its nine
/// bytes, and so keeps the iNES header.
pub proof fn lemma_patch_frame(rom: Seq<u8>)
    requires
        rom.len() > 0x5F3D,
    ensures
        organisation_patch(rom).len() == rom.len(),
        forall|i: int| 0 <= i < rom.len() && !patched_offset(i) ==> #[trigger] organisation_patch(rom)[i] == rom[i],
        ines_header_ok(organisation_patch(rom)) == ines_header_ok(rom),
{
}

} // verus!
