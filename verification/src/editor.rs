//! The editor's state, and the edits that its windows apply to it.
use vstd::prelude::*;
use crate::area::{Area, AreaMarioStartHeightSetting, AreaView, spec_default_area};
use crate::color::Color;
use crate::graphics::{MarioColorPalette, MarioGraphics, ViewportSprite};

verus! {

/// Everything the editor knows: the ROM it opened, what it read out of it,
/// the graphics decoded from it, and the last error to show.
pub struct HibachiApp {
    pub rom_path: String,
    pub rom: Option<Vec<u8>>,
    pub lasterr: String,
    /// Set when `lasterr` is new and the error window should open.
    pub error_pending: bool,
    /// For each of the eight worlds, its levels in order: each is an area
    /// type (0 water, 1 ground, 2 cave, 3 castle) and an area number.
    pub levels: [Vec<[usize; 2]>; 8],
    /// The areas of each of the four types.
    pub areas: [Vec<Area>; 4],
    pub world_editor_selected_world: usize,
    pub game_graphics: Vec<(MarioGraphics, ViewportSprite)>,
    /// The area palettes, indexed by [`palette_index`].
    pub game_palette: [Option<[[Color; 3]; 8]>; 9],
    /// The sky colours, indexed by [`palette_index`].
    pub game_skycolor: [Option<Color>; 9],
    /// The letters of the font, 'A' to 'Z'.
    pub game_font: [Option<ViewportSprite>; 26],
    pub current_editing_area: Option<[usize; 2]>,
}

/// The position of a palette in [`HibachiApp::game_palette`].
pub open spec fn spec_palette_index(p: MarioColorPalette) -> usize {
    match p {
        MarioColorPalette::Ground => 0,
        MarioColorPalette::Cave => 1,
        MarioColorPalette::Water => 2,
        MarioColorPalette::Castle => 3,
        MarioColorPalette::Night => 4,
        MarioColorPalette::SnowDay => 5,
        MarioColorPalette::SnowNight => 6,
        MarioColorPalette::Mushroom => 7,
        MarioColorPalette::Bowser => 8,
    }
}

/// The position of a palette in [`HibachiApp::game_palette`].
pub fn palette_index(p: MarioColorPalette) -> (i: usize)
    ensures
        i == spec_palette_index(p),
        i < 9,
{
    match p {
        MarioColorPalette::Ground => 0,
        MarioColorPalette::Cave => 1,
        MarioColorPalette::Water => 2,
        MarioColorPalette::Castle => 3,
        MarioColorPalette::Night => 4,
        MarioColorPalette::SnowDay => 5,
        MarioColorPalette::SnowNight => 6,
        MarioColorPalette::Mushroom => 7,
        MarioColorPalette::Bowser => 8,
    }
}

impl HibachiApp {
    /// The levels of each world.
    pub open spec fn levels_view(&self) -> Seq<Seq<[usize; 2]>> {
        Seq::new(8, |n: int| self.levels[n]@)
    }

    /// The areas of each type.
    pub open spec fn areas_view(&self) -> Seq<Seq<AreaView>> {
        Seq::new(4, |n: int| self.areas[n]@.map_values(|a: Area| a@))
    }

    /// The state that the editor starts in.
    pub open spec fn is_initial(&self) -> bool {
        &&& self.rom_path@ == ""@
        &&& self.rom is None
        &&& self.lasterr@ == "Task failed successfully!"@
        &&& !self.error_pending
        &&& forall|n: int| 0 <= n < 8 ==> (#[trigger] self.levels[n])@.len() == 0
        &&& forall|n: int| 0 <= n < 4 ==> (#[trigger] self.areas[n])@.len() == 0
        &&& self.world_editor_selected_world == 0
        &&& self.game_graphics@.len() == 0
        &&& forall|n: int| 0 <= n < 9 ==> (#[trigger] self.game_palette[n]) is None
        &&& forall|n: int| 0 <= n < 9 ==> (#[trigger] self.game_skycolor[n]) is None
        &&& forall|n: int| 0 <= n < 26 ==> (#[trigger] self.game_font[n]) is None
        &&& self.current_editing_area is None
    }

    /// Records an error message and asks for the error window.
    pub fn err(&mut self, errstring: &str)
        ensures
            final(self).lasterr@ == errstring@,
            *final(self) == (HibachiApp { lasterr: final(self).lasterr, error_pending: true, ..*old(self) }),
    {
        self.lasterr = errstring.to_owned();
        self.error_pending = true;
    }
}

impl Default for HibachiApp {
    fn default() -> (s: Self)
        ensures
            s.is_initial(),
    {
        HibachiApp {
            rom_path: "".to_owned(),
            rom: None,
            lasterr: "Task failed successfully!".to_owned(),
            error_pending: false,
            levels: [Vec::new(), Vec::new(), Vec::new(), Vec::new(), Vec::new(), Vec::new(), Vec::new(), Vec::new()],
            areas: [Vec::new(), Vec::new(), Vec::new(), Vec::new()],
            world_editor_selected_world: 0,
            game_graphics: Vec::new(),
            game_palette: [None, None, None, None, None, None, None, None, None],
            game_skycolor: [None, None, None, None, None, None, None, None, None],
            game_font: [
                None, None, None, None, None, None, None, None, None, None, None, None, None,
                None, None, None, None, None, None, None, None, None, None, None, None, None,
            ],
            current_editing_area: None,
        }
    }
}

// ---------------------------------------------------------------------------
// The world header window, the area list and the area editor.

/// The name of area type `t` in the world header window.
pub fn area_type_name(t: usize) -> (s: &'static str)
    ensures
        t == 0 ==> s@ == "Water"@,
        t == 1 ==> s@ == "Ground"@,
        t == 2 ==> s@ == "Cave"@,
        t == 3 ==> s@ == "Castle"@,
        t > 3 ==> s@ == "Invalid"@,
{
    match t {
        0 => "Water",
        1 => "Ground",
        2 => "Cave",
        3 => "Castle",
        _ => "Invalid",
    }
}

/// The area type listed `t`-th in the area windows: ground, cave, water,
/// castle.
pub open spec fn spec_area_list_type(t: usize) -> usize {
    match t {
        0 => 1,
        1 => 2,
        2 => 0,
        n => n,
    }
}

/// The area type listed `t`-th in the area windows.
pub fn area_list_type(t: usize) -> (rt: usize)
    ensures
        rt == spec_area_list_type(t),
{
    match t {
        0 => 1,
        1 => 2,
        2 => 0,
        n => n,
    }
}

/// The heading of the `t`-th list of the area windows.
pub fn area_list_heading(t: usize) -> (s: &'static str)
    ensures
        t == 0 ==> s@ == "Ground Areas"@,
        t == 1 ==> s@ == "Cave Areas"@,
        t == 2 ==> s@ == "Water Areas"@,
        t == 3 ==> s@ == "Castle Areas"@,
        t > 3 ==> s@ == "uuuuuuhhhhhhhhhhhhhhhhhh???"@,
{
    match t {
        0 => "Ground Areas",
        1 => "Cave Areas",
        2 => "Water Areas",
        3 => "Castle Areas",
        _ => "uuuuuuhhhhhhhhhhhhhhhhhh???",
    }
}

/// The palette that the area editor draws an area of type `t` with.
pub open spec fn spec_area_palette(t: usize) -> MarioColorPalette {
    match t {
        0 => MarioColorPalette::Water,
        1 => MarioColorPalette::Ground,
        2 => MarioColorPalette::Cave,
        _ => MarioColorPalette::Castle,
    }
}

/// The palette that the area editor draws an area of type `t` with.
pub fn area_palette(t: usize) -> (p: MarioColorPalette)
    ensures
        p == spec_area_palette(t),
{
    match t {
        0 => MarioColorPalette::Water,
        1 => MarioColorPalette::Ground,
        2 => MarioColorPalette::Cave,
        _ => MarioColorPalette::Castle,
    }
}

/// The most areas of one type that the area list lets one add up to.
pub open spec fn area_list_capacity() -> int {
    0x20
}

impl HibachiApp {
    /// Level `n` of world `world` refers to an area that exists.
    pub open spec fn level_resolves(&self, world: int, n: int) -> bool {
        &&& 0 <= world < 8
        &&& 0 <= n < self.levels[world]@.len()
        &&& self.levels[world]@[n][0] < 4
        &&& self.levels[world]@[n][1] < self.areas[self.levels[world]@[n][0] as int]@.len()
    }

    /// The area that level `n` of world `world` refers to.
    pub open spec fn level_area(&self, world: int, n: int) -> Area {
        let e = self.levels[world]@[n];
        self.areas[e[0] as int]@[e[1] as int]
    }

    /// Whether level `n` of world `world` is a cutscene: its area makes
    /// Mario walk in on his own.
    pub fn is_cutscene(&self, world: usize, n: usize) -> (r: bool)
        requires
            self.level_resolves(world as int, n as int),
        ensures
            r == (self.level_area(world as int, n as int).mario_height
                == AreaMarioStartHeightSetting::Autowalk),
    {
        let e = self.levels[world][n];
        self.areas[e[0]][e[1]].mario_height == AreaMarioStartHeightSetting::Autowalk
    }

    /// Sends level `n` of world `world` to area 0 of its type where the area
    /// it names does not exist.
    pub fn clamp_level_area_id(&mut self, world: usize, n: usize)
        requires
            world < 8,
            n < old(self).levels[world as int]@.len(),
            old(self).levels[world as int]@[n as int][0] < 4,
        ensures
            ({
                let e = old(self).levels[world as int]@[n as int];
                let fixed = if e[1] >= old(self).areas[e[0] as int]@.len() { [e[0], 0usize] } else { e };
                final(self).levels@ == old(self).levels@.update(
                    world as int,
                    final(self).levels[world as int],
                ) && final(self).levels[world as int]@ == old(self).levels[world as int]@.update(n as int, fixed)
            }),
            *final(self) == (HibachiApp { levels: final(self).levels, ..*old(self) }),
    {
        let e = self.levels[world][n];
        if e[1] >= self.areas[e[0]].len() {
            self.levels[world].set(n, [e[0], 0]);
        }
        proof {
            assert(self.levels@ =~= old(self).levels@.update(world as int, self.levels[world as int]));
            let fixed = if e[1] >= old(self).areas[e[0] as int]@.len() { [e[0], 0usize] } else { e };
            assert(self.levels[world as int]@ =~= old(self).levels[world as int]@.update(n as int, fixed));
        }
    }

    /// Whether the area list of type `rt` has room for another area.
    pub fn can_add_area(&self, rt: usize) -> (r: bool)
        requires
            rt < 4,
        ensures
            r == (self.areas[rt as int]@.len() < area_list_capacity()),
    {
        self.areas[rt].len() < 0x20
    }

    /// Adds a new, empty area of type `rt` at position `at` of its list.
    pub fn insert_area(&mut self, rt: usize, at: usize)
        requires
            rt < 4,
            at <= old(self).areas[rt as int]@.len(),
        ensures
            final(self).areas[rt as int]@.len() == old(self).areas[rt as int]@.len() + 1,
            final(self).areas[rt as int]@[at as int]@ == spec_default_area(rt),
            forall|j: int| 0 <= j < at ==> #[trigger] final(self).areas[rt as int]@[j] == old(self).areas[rt as int]@[j],
            forall|j: int|
                at < j < final(self).areas[rt as int]@.len() ==> #[trigger] final(self).areas[rt as int]@[j]
                    == old(self).areas[rt as int]@[j - 1],
            forall|m: int| 0 <= m < 4 && m != rt ==> final(self).areas[m] == old(self).areas[m],
            *final(self) == (HibachiApp { areas: final(self).areas, ..*old(self) }),
    {
        self.areas[rt].insert(at, Area::default_for_type(rt));
    }

    /// "Add Area" of an empty list: adds a new area of type `rt`.
    pub fn add_area(&mut self, rt: usize)
        requires
            rt < 4,
        ensures
            final(self).areas[rt as int]@.len() == old(self).areas[rt as int]@.len() + 1,
            final(self).areas[rt as int]@.drop_last() == old(self).areas[rt as int]@,
            final(self).areas[rt as int]@.last()@ == spec_default_area(rt),
            forall|m: int| 0 <= m < 4 && m != rt ==> final(self).areas[m] == old(self).areas[m],
            *final(self) == (HibachiApp { areas: final(self).areas, ..*old(self) }),
    {
        self.areas[rt].push(Area::default_for_type(rt));
        assert(self.areas[rt as int]@.drop_last() =~= old(self).areas[rt as int]@);
    }

    /// "Add Above" on area `n` of type `rt`: while the list has room, adds a
    /// new area before it; otherwise the button is disabled and nothing
    /// changes. Returns whether an area was added.
    pub fn add_area_above(&mut self, rt: usize, n: usize) -> (added: bool)
        requires
            rt < 4,
            n < old(self).areas[rt as int]@.len(),
        ensures
            added == (old(self).areas[rt as int]@.len() < area_list_capacity()),
            old(self).areas[rt as int]@.len() <= area_list_capacity() ==> final(self).areas[rt as int]@.len()
                <= area_list_capacity(),
            !added ==> *final(self) == *old(self),
            added ==> final(self).areas[rt as int]@.len() == old(self).areas[rt as int]@.len() + 1,
            added ==> final(self).areas[rt as int]@[n as int]@ == spec_default_area(rt),
            added ==> forall|j: int| 0 <= j < n ==> #[trigger] final(self).areas[rt as int]@[j] == old(self).areas[rt as int]@[j],
            added ==> forall|j: int|
                n < j < final(self).areas[rt as int]@.len() ==> #[trigger] final(self).areas[rt as int]@[j]
                    == old(self).areas[rt as int]@[j - 1],
            forall|m: int| 0 <= m < 4 && m != rt ==> final(self).areas[m] == old(self).areas[m],
            *final(self) == (HibachiApp { areas: final(self).areas, ..*old(self) }),
    {
        if self.can_add_area(rt) {
            self.insert_area(rt, n);
            true
        } else {
            false
        }
    }

    /// "Add Below" on area `n` of type `rt`: while the list has room, adds a
    /// new area after it; otherwise nothing changes. Returns whether an area
    /// was added.
    pub fn add_area_below(&mut self, rt: usize, n: usize) -> (added: bool)
        requires
            rt < 4,
            n < old(self).areas[rt as int]@.len(),
        ensures
            added == (old(self).areas[rt as int]@.len() < area_list_capacity()),
            old(self).areas[rt as int]@.len() <= area_list_capacity() ==> final(self).areas[rt as int]@.len()
                <= area_list_capacity(),
            !added ==> *final(self) == *old(self),
            added ==> final(self).areas[rt as int]@.len() == old(self).areas[rt as int]@.len() + 1,
            added ==> final(self).areas[rt as int]@[n + 1]@ == spec_default_area(rt),
            added ==> forall|j: int| 0 <= j <= n ==> #[trigger] final(self).areas[rt as int]@[j] == old(self).areas[rt as int]@[j],
            added ==> forall|j: int|
                n + 1 < j < final(self).areas[rt as int]@.len() ==> #[trigger] final(self).areas[rt as int]@[j]
                    == old(self).areas[rt as int]@[j - 1],
            forall|m: int| 0 <= m < 4 && m != rt ==> final(self).areas[m] == old(self).areas[m],
            *final(self) == (HibachiApp { areas: final(self).areas, ..*old(self) }),
    {
        if self.can_add_area(rt) {
            self.insert_area(rt, n + 1);
            true
        } else {
            false
        }
    }

    /// "Remove" on area `n` of type `rt`.
    pub fn remove_area(&mut self, rt: usize, n: usize)
        requires
            rt < 4,
            n < old(self).areas[rt as int]@.len(),
        ensures
            final(self).areas[rt as int]@ == old(self).areas[rt as int]@.remove(n as int),
            forall|m: int| 0 <= m < 4 && m != rt ==> final(self).areas[m] == old(self).areas[m],
            *final(self) == (HibachiApp { areas: final(self).areas, ..*old(self) }),
    {
        let _removed = self.areas[rt].remove(n);
    }
}

} // verus!
