//! Areas of a level: their header settings, the terrain and sprite objects
//! placed in them, and the decoding of both object streams out of ROM bytes.
use vstd::prelude::*;

verus! {

/// The time limit of an area.
#[derive(Clone, Copy, PartialEq, Eq, Structural, Debug)]
pub enum AreaTimerSetting {
    T200,
    T300,
    T400,
    Sublevel,
}

/// Where Mario starts, vertically, when he enters an area.
#[derive(Clone, Copy, PartialEq, Eq, Structural, Debug)]
pub enum AreaMarioStartHeightSetting {
    VeryHigh,
    High,
    Ground,
    Midair,
    Autowalk,
}

#[derive(Clone, Copy, PartialEq, Eq, Structural, Debug)]
pub enum AreaBackdropSetting {
    Overworld,
    Underwater,
    GreatWall,
    Seaside,
    Nighttime,
    SnowDay,
    SnowNight,
    Grayscale,
}

#[derive(Clone, Copy, PartialEq, Eq, Structural, Debug)]
pub enum AreaSpecialSetting {
    Ordinary,
    Mushroom,
    Cannon,
    Sky,
}

#[derive(Clone, Copy, PartialEq, Eq, Structural, Debug)]
pub enum AreaScenerySetting {
    Blank,
    Clouds,
    Hills,
    Fences,
}

/// What a terrain object is; the payloads are the size nibbles of the record.
#[derive(Clone, Copy, PartialEq, Eq, Structural, Debug)]
pub enum TerrainObjectType {
    RawHex(u8),
    SpecialPlat(u8),
    BrickRow(u8),
    BlockRow(u8),
    CoinRow(u8),
    BrickColumn(u8),
    BlockColumn(u8),
    Pipe(bool, u8),
    PowerupQBlock,
    CoinQBlock,
    CoinHiddenBlock,
    OneupHiddenBlock,
    PowerupBrick,
    VineBrick,
    StarBrick,
    LotsOfCoinsBrick,
    OneupBrick,
    HitBlock,
    SidePipeExit,
    Trampoline,
    LPipe,
    Flagpole,
    Hole(u8),
    Pulley(u8),
    Y7Bridge(u8),
    Y8Bridge(u8),
    Y10Bridge(u8),
    WaterHole(u8),
    Y3QBlocks(u8),
    Y7QBlocks(u8),
    BridgeAx,
    BridgeChain,
    BowserBridge,
    WarpZoneCommand,
    NoScrollCommand,
    NoScroll2Command,
    CheepCheepSpawnCommand,
    BulletSpawnCommand,
    NoSpawnCommand,
    EndlessHallwayCommand,
    /// Scenery, then floor pattern.
    SceneryAndFloorPatternSwitch(u8, u8),
    BackdropSwitchCommand(u8),
    LeftPulleyRope(u8),
    RightPulleyRope(u8),
    Fortress(u8),
    BlockStaircase(u8),
    ExitLPipe(u8),
    UnusedVine(u8),
}

/// A terrain object; `y` is its row for ordinary objects (below 12) and 0 for
/// the objects that a row of 12 or more selects.
#[derive(Clone, Copy, PartialEq, Eq, Structural, Debug)]
pub struct AreaTerrainObject {
    pub x: usize,
    pub y: u8,
    pub variety: TerrainObjectType,
}

/// What a sprite object (an enemy, a lift, a generator...) is.
#[derive(Clone, Copy, PartialEq, Eq, Structural, Debug, Hash)]
pub enum SpriteObjectType {
    RawHex(u8),
    GreenKoopa,
    StupidRedKoopa,
    Buzzy,
    RedKoopa,
    ReallyStupidGreenKoopa,
    HammerBro,
    Goomba,
    Blooper,
    BulletBill,
    YellowParatroopa,
    SlowCheep,
    FastCheep,
    Podoboo,
    Pirahna,
    JumpyGreenParatroopa,
    VerticalRedParatroopa,
    HorizontalGreenParatroopa,
    Lakitu,
    SpinyDontUse,
    JumpingCheepsGenerator,
    BowserFireGenerator,
    FireworkGenerator,
    BulletBillGenerator,
    ClockwiseFireBar,
    FastClockwiseFireBar,
    CCWFireBar,
    FastCCWFireBar,
    BigClockwiseFireBar,
    BalanceLift,
    UpAndDownLift,
    UpLift,
    DownLift,
    AcrossLift,
    FallingLift,
    RightLift,
    ShortUpLift,
    ShortDownLift,
    Bowser,
    WarpZone,
    Toad,
    Y10_2Goombas,
    Y10_3Goombas,
    Y6_2Goombas,
    Y6_3Goombas,
    Y10_2Koopas,
    Y10_3Koopas,
    Y6_2Koopas,
    Y6_3Koopas,
    /// For enterable pipes: exit level, entrance world and return screen.
    WarpInfo(u8, u8, u8),
}

/// A sprite object; `lategame` marks objects that appear only on the harder
/// second pass through the game.
#[derive(Clone, Copy, PartialEq, Eq, Structural, Debug)]
pub struct AreaSpriteObject {
    pub variety: SpriteObjectType,
    pub lategame: bool,
    pub x: usize,
    pub y: u8,
}

/// One area of the game: its header settings and its objects.
pub struct Area {
    pub timer: AreaTimerSetting,
    pub mario_height: AreaMarioStartHeightSetting,
    pub bg: AreaBackdropSetting,
    pub special: AreaSpecialSetting,
    pub bg2: AreaScenerySetting,
    pub initial_tilepat: u8,
    pub terrain: Vec<AreaTerrainObject>,
    pub stuff: Vec<AreaSpriteObject>,
}

/// The mathematical value of an [`Area`].
#[verifier::ext_equal]
pub struct AreaView {
    pub timer: AreaTimerSetting,
    pub mario_height: AreaMarioStartHeightSetting,
    pub bg: AreaBackdropSetting,
    pub special: AreaSpecialSetting,
    pub bg2: AreaScenerySetting,
    pub initial_tilepat: u8,
    pub terrain: Seq<AreaTerrainObject>,
    pub stuff: Seq<AreaSpriteObject>,
}

impl View for Area {
    type V = AreaView;

    open spec fn view(&self) -> AreaView {
        AreaView {
            timer: self.timer,
            mario_height: self.mario_height,
            bg: self.bg,
            special: self.special,
            bg2: self.bg2,
            initial_tilepat: self.initial_tilepat,
            terrain: self.terrain@,
            stuff: self.stuff@,
        }
    }
}

/// An area with the given settings and no objects.
pub open spec fn empty_area(
    timer: AreaTimerSetting,
    mario_height: AreaMarioStartHeightSetting,
    bg: AreaBackdropSetting,
    special: AreaSpecialSetting,
    bg2: AreaScenerySetting,
) -> AreaView {
    AreaView {
        timer,
        mario_height,
        bg,
        special,
        bg2,
        initial_tilepat: 1,
        terrain: Seq::empty(),
        stuff: Seq::empty(),
    }
}

/// The new, empty area of each type: 0 water, 1 ground, 2 cave, 3 castle.
pub open spec fn spec_default_area(t: usize) -> AreaView {
    match t {
        0 => empty_area(
            AreaTimerSetting::T300,
            AreaMarioStartHeightSetting::VeryHigh,
            AreaBackdropSetting::Underwater,
            AreaSpecialSetting::Ordinary,
            AreaScenerySetting::Blank,
        ),
        1 => empty_area(
            AreaTimerSetting::T300,
            AreaMarioStartHeightSetting::Ground,
            AreaBackdropSetting::Overworld,
            AreaSpecialSetting::Mushroom,
            AreaScenerySetting::Hills,
        ),
        2 => empty_area(
            AreaTimerSetting::T300,
            AreaMarioStartHeightSetting::High,
            AreaBackdropSetting::Overworld,
            AreaSpecialSetting::Cannon,
            AreaScenerySetting::Blank,
        ),
        3 => empty_area(
            AreaTimerSetting::T300,
            AreaMarioStartHeightSetting::Midair,
            AreaBackdropSetting::Overworld,
            AreaSpecialSetting::Ordinary,
            AreaScenerySetting::Blank,
        ),
        _ => empty_area(
            AreaTimerSetting::Sublevel,
            AreaMarioStartHeightSetting::Ground,
            AreaBackdropSetting::Grayscale,
            AreaSpecialSetting::Ordinary,
            AreaScenerySetting::Blank,
        ),
    }
}

impl Area {
    /// A new, empty area of type `t` (0 water, 1 ground, 2 cave, 3 castle;
    /// anything else gives a grey sublevel).
    pub fn default_for_type(t: usize) -> (a: Area)
        ensures
            a@ == spec_default_area(t),
    {
        match t {
            0 => Area {
                timer: AreaTimerSetting::T300,
                mario_height: AreaMarioStartHeightSetting::VeryHigh,
                bg: AreaBackdropSetting::Underwater,
                special: AreaSpecialSetting::Ordinary,
                bg2: AreaScenerySetting::Blank,
                initial_tilepat: 1,
                terrain: Vec::new(),
                stuff: Vec::new(),
            },
            1 => Area {
                timer: AreaTimerSetting::T300,
                mario_height: AreaMarioStartHeightSetting::Ground,
                bg: AreaBackdropSetting::Overworld,
                special: AreaSpecialSetting::Mushroom,
                bg2: AreaScenerySetting::Hills,
                initial_tilepat: 1,
                terrain: Vec::new(),
                stuff: Vec::new(),
            },
            2 => Area {
                timer: AreaTimerSetting::T300,
                mario_height: AreaMarioStartHeightSetting::High,
                bg: AreaBackdropSetting::Overworld,
                special: AreaSpecialSetting::Cannon,
                bg2: AreaScenerySetting::Blank,
                initial_tilepat: 1,
                terrain: Vec::new(),
                stuff: Vec::new(),
            },
            3 => Area {
                timer: AreaTimerSetting::T300,
                mario_height: AreaMarioStartHeightSetting::Midair,
                bg: AreaBackdropSetting::Overworld,
                special: AreaSpecialSetting::Ordinary,
                bg2: AreaScenerySetting::Blank,
                initial_tilepat: 1,
                terrain: Vec::new(),
                stuff: Vec::new(),
            },
            _ => Area {
                timer: AreaTimerSetting::Sublevel,
                mario_height: AreaMarioStartHeightSetting::Ground,
                bg: AreaBackdropSetting::Grayscale,
                special: AreaSpecialSetting::Ordinary,
                bg2: AreaScenerySetting::Blank,
                initial_tilepat: 1,
                terrain: Vec::new(),
                stuff: Vec::new(),
            },
        }
    }
}

// ---------------------------------------------------------------------------
// The area header: two bytes.

/// Bits 7-6 of the first header byte.
pub open spec fn timer_of(hi: u8) -> AreaTimerSetting {
    match hi / 64 {
        1 => AreaTimerSetting::T400,
        2 => AreaTimerSetting::T300,
        3 => AreaTimerSetting::T200,
        _ => AreaTimerSetting::Sublevel,
    }
}

/// Bits 5-3 of the first header byte.
pub open spec fn height_of(hi: u8) -> AreaMarioStartHeightSetting {
    match (hi / 8) % 8 {
        0 => AreaMarioStartHeightSetting::VeryHigh,
        1 => AreaMarioStartHeightSetting::High,
        2 => AreaMarioStartHeightSetting::Ground,
        3 => AreaMarioStartHeightSetting::Midair,
        _ => AreaMarioStartHeightSetting::Autowalk,
    }
}

/// Bits 2-0 of the first header byte.
pub open spec fn backdrop_of(hi: u8) -> AreaBackdropSetting {
    match hi % 8 {
        0 => AreaBackdropSetting::Overworld,
        1 => AreaBackdropSetting::Underwater,
        2 => AreaBackdropSetting::GreatWall,
        3 => AreaBackdropSetting::Seaside,
        4 => AreaBackdropSetting::Nighttime,
        5 => AreaBackdropSetting::SnowDay,
        6 => AreaBackdropSetting::SnowNight,
        _ => AreaBackdropSetting::Grayscale,
    }
}

/// Bits 7-6 of the second header byte.
pub open spec fn special_of(lo: u8) -> AreaSpecialSetting {
    match lo / 64 {
        0 => AreaSpecialSetting::Ordinary,
        1 => AreaSpecialSetting::Mushroom,
        2 => AreaSpecialSetting::Cannon,
        _ => AreaSpecialSetting::Sky,
    }
}

/// Bits 5-4 of the second header byte.
pub open spec fn scenery_of(lo: u8) -> AreaScenerySetting {
    match (lo / 16) % 4 {
        0 => AreaScenerySetting::Blank,
        1 => AreaScenerySetting::Clouds,
        2 => AreaScenerySetting::Hills,
        _ => AreaScenerySetting::Fences,
    }
}

fn decode_timer(hi: u8) -> (r: AreaTimerSetting)
    ensures
        r == timer_of(hi),
{
    match hi / 64 {
        1 => AreaTimerSetting::T400,
        2 => AreaTimerSetting::T300,
        3 => AreaTimerSetting::T200,
        _ => AreaTimerSetting::Sublevel,
    }
}

fn decode_height(hi: u8) -> (r: AreaMarioStartHeightSetting)
    ensures
        r == height_of(hi),
{
    match (hi / 8) % 8 {
        0 => AreaMarioStartHeightSetting::VeryHigh,
        1 => AreaMarioStartHeightSetting::High,
        2 => AreaMarioStartHeightSetting::Ground,
        3 => AreaMarioStartHeightSetting::Midair,
        _ => AreaMarioStartHeightSetting::Autowalk,
    }
}

fn decode_backdrop(hi: u8) -> (r: AreaBackdropSetting)
    ensures
        r == backdrop_of(hi),
{
    match hi % 8 {
        0 => AreaBackdropSetting::Overworld,
        1 => AreaBackdropSetting::Underwater,
        2 => AreaBackdropSetting::GreatWall,
        3 => AreaBackdropSetting::Seaside,
        4 => AreaBackdropSetting::Nighttime,
        5 => AreaBackdropSetting::SnowDay,
        6 => AreaBackdropSetting::SnowNight,
        _ => AreaBackdropSetting::Grayscale,
    }
}

fn decode_special(lo: u8) -> (r: AreaSpecialSetting)
    ensures
        r == special_of(lo),
{
    match lo / 64 {
        0 => AreaSpecialSetting::Ordinary,
        1 => AreaSpecialSetting::Mushroom,
        2 => AreaSpecialSetting::Cannon,
        _ => AreaSpecialSetting::Sky,
    }
}

fn decode_scenery(lo: u8) -> (r: AreaScenerySetting)
    ensures
        r == scenery_of(lo),
{
    match (lo / 16) % 4 {
        0 => AreaScenerySetting::Blank,
        1 => AreaScenerySetting::Clouds,
        2 => AreaScenerySetting::Hills,
        _ => AreaScenerySetting::Fences,
    }
}

// ---------------------------------------------------------------------------
// Terrain records: two bytes, position (column nibble, row nibble) then data.

/// The object that a terrain record with row `y` and data byte `data`
/// places; `None` for the records that only move to another screen.
pub open spec fn terrain_kind(y: u8, data: u8) -> Option<TerrainObjectType> {
    let hi = (data / 16) % 8;
    let lo = data % 16;
    if y < 12 {
        Some(
            match hi {
                1 => TerrainObjectType::SpecialPlat(lo),
                2 => TerrainObjectType::BrickRow(lo),
                3 => TerrainObjectType::BlockRow(lo),
                4 => TerrainObjectType::CoinRow(lo),
                5 => TerrainObjectType::BrickColumn(lo),
                6 => TerrainObjectType::BlockColumn(lo),
                7 => TerrainObjectType::Pipe(lo > 7, lo % 8),
                _ => match lo {
                    0 => TerrainObjectType::PowerupQBlock,
                    1 => TerrainObjectType::CoinQBlock,
                    2 => TerrainObjectType::CoinHiddenBlock,
                    3 => TerrainObjectType::OneupHiddenBlock,
                    4 => TerrainObjectType::PowerupBrick,
                    5 => TerrainObjectType::VineBrick,
                    6 => TerrainObjectType::StarBrick,
                    7 => TerrainObjectType::LotsOfCoinsBrick,
                    8 => TerrainObjectType::OneupBrick,
                    9 => TerrainObjectType::HitBlock,
                    10 => TerrainObjectType::SidePipeExit,
                    11 => TerrainObjectType::Trampoline,
                    12 => TerrainObjectType::LPipe,
                    13 => TerrainObjectType::Flagpole,
                    _ => TerrainObjectType::RawHex(data),
                },
            },
        )
    } else if y == 12 {
        Some(
            match hi {
                0 => TerrainObjectType::Hole(lo),
                1 => TerrainObjectType::Pulley(lo),
                2 => TerrainObjectType::Y7Bridge(lo),
                3 => TerrainObjectType::Y8Bridge(lo),
                4 => TerrainObjectType::Y10Bridge(lo),
                5 => TerrainObjectType::WaterHole(lo),
                6 => TerrainObjectType::Y3QBlocks(lo),
                _ => TerrainObjectType::Y7QBlocks(lo),
            },
        )
    } else if y == 13 {
        if hi < 4 {
            None
        } else {
            Some(
                match ((hi % 2) * 16 + lo) as u8 {
                    0 => TerrainObjectType::LPipe,
                    1 => TerrainObjectType::Flagpole,
                    2 => TerrainObjectType::BridgeAx,
                    3 => TerrainObjectType::BridgeChain,
                    4 => TerrainObjectType::BowserBridge,
                    5 => TerrainObjectType::WarpZoneCommand,
                    6 => TerrainObjectType::NoScrollCommand,
                    7 => TerrainObjectType::NoScroll2Command,
                    8 => TerrainObjectType::CheepCheepSpawnCommand,
                    9 => TerrainObjectType::BulletSpawnCommand,
                    10 => TerrainObjectType::NoSpawnCommand,
                    11 => TerrainObjectType::EndlessHallwayCommand,
                    _ => TerrainObjectType::RawHex(data),
                },
            )
        }
    } else if y == 14 {
        if hi < 4 {
            Some(TerrainObjectType::SceneryAndFloorPatternSwitch(hi % 4, lo))
        } else {
            Some(TerrainObjectType::BackdropSwitchCommand(lo % 8))
        }
    } else {
        Some(
            match hi {
                0 => TerrainObjectType::LeftPulleyRope(lo),
                1 => TerrainObjectType::RightPulleyRope(lo),
                2 => TerrainObjectType::Fortress(lo),
                3 => TerrainObjectType::BlockStaircase(lo),
                4 => TerrainObjectType::ExitLPipe(lo),
                5 => TerrainObjectType::UnusedVine(lo),
                _ => TerrainObjectType::RawHex(data),
            },
        )
    }
}

fn decode_terrain_kind(y: u8, data: u8) -> (r: Option<TerrainObjectType>)
    ensures
        r == terrain_kind(y, data),
{
    let hi = (data / 16) % 8;
    let lo = data % 16;
    if y < 12 {
        Some(
            match hi {
                1 => TerrainObjectType::SpecialPlat(lo),
                2 => TerrainObjectType::BrickRow(lo),
                3 => TerrainObjectType::BlockRow(lo),
                4 => TerrainObjectType::CoinRow(lo),
                5 => TerrainObjectType::BrickColumn(lo),
                6 => TerrainObjectType::BlockColumn(lo),
                7 => TerrainObjectType::Pipe(lo > 7, lo % 8),
                _ => match lo {
                    0 => TerrainObjectType::PowerupQBlock,
                    1 => TerrainObjectType::CoinQBlock,
                    2 => TerrainObjectType::CoinHiddenBlock,
                    3 => TerrainObjectType::OneupHiddenBlock,
                    4 => TerrainObjectType::PowerupBrick,
                    5 => TerrainObjectType::VineBrick,
                    6 => TerrainObjectType::StarBrick,
                    7 => TerrainObjectType::LotsOfCoinsBrick,
                    8 => TerrainObjectType::OneupBrick,
                    9 => TerrainObjectType::HitBlock,
                    10 => TerrainObjectType::SidePipeExit,
                    11 => TerrainObjectType::Trampoline,
                    12 => TerrainObjectType::LPipe,
                    13 => TerrainObjectType::Flagpole,
                    _ => TerrainObjectType::RawHex(data),
                },
            },
        )
    } else if y == 12 {
        Some(
            match hi {
                0 => TerrainObjectType::Hole(lo),
                1 => TerrainObjectType::Pulley(lo),
                2 => TerrainObjectType::Y7Bridge(lo),
                3 => TerrainObjectType::Y8Bridge(lo),
                4 => TerrainObjectType::Y10Bridge(lo),
                5 => TerrainObjectType::WaterHole(lo),
                6 => TerrainObjectType::Y3QBlocks(lo),
                _ => TerrainObjectType::Y7QBlocks(lo),
            },
        )
    } else if y == 13 {
        if hi < 4 {
            None
        } else {
            Some(
                match (hi % 2) * 16 + lo {
                    0 => TerrainObjectType::LPipe,
                    1 => TerrainObjectType::Flagpole,
                    2 => TerrainObjectType::BridgeAx,
                    3 => TerrainObjectType::BridgeChain,
                    4 => TerrainObjectType::BowserBridge,
                    5 => TerrainObjectType::WarpZoneCommand,
                    6 => TerrainObjectType::NoScrollCommand,
                    7 => TerrainObjectType::NoScroll2Command,
                    8 => TerrainObjectType::CheepCheepSpawnCommand,
                    9 => TerrainObjectType::BulletSpawnCommand,
                    10 => TerrainObjectType::NoSpawnCommand,
                    11 => TerrainObjectType::EndlessHallwayCommand,
                    _ => TerrainObjectType::RawHex(data),
                },
            )
        }
    } else if y == 14 {
        if hi < 4 {
            Some(TerrainObjectType::SceneryAndFloorPatternSwitch(hi % 4, lo))
        } else {
            Some(TerrainObjectType::BackdropSwitchCommand(lo % 8))
        }
    } else {
        Some(
            match hi {
                0 => TerrainObjectType::LeftPulleyRope(lo),
                1 => TerrainObjectType::RightPulleyRope(lo),
                2 => TerrainObjectType::Fortress(lo),
                3 => TerrainObjectType::BlockStaircase(lo),
                4 => TerrainObjectType::ExitLPipe(lo),
                5 => TerrainObjectType::UnusedVine(lo),
                _ => TerrainObjectType::RawHex(data),
            },
        )
    }
}

/// The terrain objects of the stream that starts at offset `t` of `rom`,
/// when the current screen starts at column `scrx`. The stream ends at a 0xFD
/// byte. A record whose data byte has its top bit set moves on one screen
/// (16 columns) first; a row-13 record with a small command jumps to a
/// screen. `None` where the stream runs off the end of `rom`, or where a
/// column leaves the range of `usize`.
pub open spec fn spec_terrain(rom: Seq<u8>, t: int, scrx: int) -> Option<Seq<AreaTerrainObject>>
    decreases rom.len() - t,
{
    if t < 0 || t >= rom.len() {
        None
    } else if rom[t] == 0xFD {
        Some(Seq::empty())
    } else if t + 1 >= rom.len() {
        None
    } else {
        let pos = rom[t];
        let data = rom[t + 1];
        let s1 = if data > 127 { scrx + 16 } else { scrx };
        let x = pos / 16;
        let y = pos % 16;
        let hi = (data / 16) % 8;
        let lo = data % 16;
        if s1 > usize::MAX {
            None
        } else if y == 13 && hi < 4 {
            spec_terrain(rom, t + 2, 16 * ((hi % 2) * 16 + lo))
        } else if s1 + x > usize::MAX {
            None
        } else {
            let obj = AreaTerrainObject {
                x: (s1 + x) as usize,
                y: if y < 12 { y } else { 0 },
                variety: terrain_kind(y, data).unwrap(),
            };
            match spec_terrain(rom, t + 2, s1) {
                Some(rest) => Some(seq![obj] + rest),
                None => None,
            }
        }
    }
}

/// `Some(prefix + rest)` where the rest is there.
pub open spec fn prepend<A>(prefix: Seq<A>, rest: Option<Seq<A>>) -> Option<Seq<A>> {
    match rest {
        Some(r) => Some(prefix + r),
        None => None,
    }
}

/// Decodes the terrain stream that starts at offset `start` of `rom`.
pub fn parse_terrain(rom: &Vec<u8>, start: usize) -> (r: Option<Vec<AreaTerrainObject>>)
    ensures
        r is Some <==> spec_terrain(rom@, start as int, 0) is Some,
        r is Some ==> r.unwrap()@ == spec_terrain(rom@, start as int, 0).unwrap(),
{
    let mut acc: Vec<AreaTerrainObject> = Vec::new();
    let mut t: usize = start;
    let mut scrx: usize = 0;
    assert(acc@ + Seq::<AreaTerrainObject>::empty() =~= Seq::<AreaTerrainObject>::empty());
    loop
        invariant
            start <= t,
            spec_terrain(rom@, start as int, 0) == prepend(acc@, spec_terrain(rom@, t as int, scrx as int)),
        decreases rom@.len() - t,
    {
        if t >= rom.len() {
            return None;
        }
        if rom[t] == 0xFD {
            assert(acc@ + Seq::<AreaTerrainObject>::empty() =~= acc@);
            return Some(acc);
        }
        if t + 1 >= rom.len() {
            return None;
        }
        let pos = rom[t];
        let data = rom[t + 1];
        if data > 127 {
            if scrx > usize::MAX - 16 {
                return None;
            }
            scrx = scrx + 16;
        }
        let x = pos / 16;
        let y = pos % 16;
        let hi = (data / 16) % 8;
        let lo = data % 16;
        if y == 13 && hi < 4 {
            scrx = 16 * (((hi % 2) * 16 + lo) as usize);
        } else {
            if scrx > usize::MAX - (x as usize) {
                return None;
            }
            let variety = decode_terrain_kind(y, data).unwrap();
            let obj = AreaTerrainObject { x: scrx + x as usize, y: if y < 12 { y } else { 0 }, variety };
            let ghost old_acc = acc@;
            acc.push(obj);
            proof {
                let rest = spec_terrain(rom@, t + 2, scrx as int);
                if rest is Some {
                    assert(old_acc + (seq![obj] + rest.unwrap()) =~= acc@ + rest.unwrap());
                }
            }
        }
        t = t + 2;
    }
}

// ---------------------------------------------------------------------------
// Sprite records: two bytes, or three for a row-14 record.

/// The sprite object that the low six bits `k` of a sprite record's data
/// byte select.
pub open spec fn sprite_kind(k: u8) -> SpriteObjectType {
    match k {
        0 => SpriteObjectType::GreenKoopa,
        1 => SpriteObjectType::StupidRedKoopa,
        2 => SpriteObjectType::Buzzy,
        3 => SpriteObjectType::RedKoopa,
        4 => SpriteObjectType::ReallyStupidGreenKoopa,
        5 => SpriteObjectType::HammerBro,
        6 => SpriteObjectType::Goomba,
        7 => SpriteObjectType::Blooper,
        8 => SpriteObjectType::BulletBill,
        9 => SpriteObjectType::YellowParatroopa,
        10 => SpriteObjectType::SlowCheep,
        11 => SpriteObjectType::FastCheep,
        12 => SpriteObjectType::Podoboo,
        13 => SpriteObjectType::Pirahna,
        14 => SpriteObjectType::JumpyGreenParatroopa,
        15 => SpriteObjectType::VerticalRedParatroopa,
        16 => SpriteObjectType::HorizontalGreenParatroopa,
        17 => SpriteObjectType::Lakitu,
        18 => SpriteObjectType::SpinyDontUse,
        20 => SpriteObjectType::JumpingCheepsGenerator,
        21 => SpriteObjectType::BowserFireGenerator,
        22 => SpriteObjectType::FireworkGenerator,
        23 => SpriteObjectType::BulletBillGenerator,
        27 => SpriteObjectType::ClockwiseFireBar,
        28 => SpriteObjectType::FastClockwiseFireBar,
        29 => SpriteObjectType::CCWFireBar,
        30 => SpriteObjectType::FastCCWFireBar,
        31 => SpriteObjectType::BigClockwiseFireBar,
        36 => SpriteObjectType::BalanceLift,
        37 => SpriteObjectType::UpAndDownLift,
        38 => SpriteObjectType::UpLift,
        39 => SpriteObjectType::DownLift,
        40 => SpriteObjectType::AcrossLift,
        41 => SpriteObjectType::FallingLift,
        42 => SpriteObjectType::RightLift,
        43 => SpriteObjectType::ShortUpLift,
        44 => SpriteObjectType::ShortDownLift,
        45 => SpriteObjectType::Bowser,
        52 => SpriteObjectType::WarpZone,
        53 => SpriteObjectType::Toad,
        55 => SpriteObjectType::Y10_2Goombas,
        56 => SpriteObjectType::Y10_3Goombas,
        57 => SpriteObjectType::Y6_2Goombas,
        58 => SpriteObjectType::Y6_3Goombas,
        59 => SpriteObjectType::Y10_2Koopas,
        60 => SpriteObjectType::Y10_3Koopas,
        61 => SpriteObjectType::Y6_2Koopas,
        62 => SpriteObjectType::Y6_3Koopas,
        _ => SpriteObjectType::RawHex(k),
    }
}

fn decode_sprite_kind(k: u8) -> (r: SpriteObjectType)
    ensures
        r == sprite_kind(k),
{
    match k {
        0 => SpriteObjectType::GreenKoopa,
        1 => SpriteObjectType::StupidRedKoopa,
        2 => SpriteObjectType::Buzzy,
        3 => SpriteObjectType::RedKoopa,
        4 => SpriteObjectType::ReallyStupidGreenKoopa,
        5 => SpriteObjectType::HammerBro,
        6 => SpriteObjectType::Goomba,
        7 => SpriteObjectType::Blooper,
        8 => SpriteObjectType::BulletBill,
        9 => SpriteObjectType::YellowParatroopa,
        10 => SpriteObjectType::SlowCheep,
        11 => SpriteObjectType::FastCheep,
        12 => SpriteObjectType::Podoboo,
        13 => SpriteObjectType::Pirahna,
        14 => SpriteObjectType::JumpyGreenParatroopa,
        15 => SpriteObjectType::VerticalRedParatroopa,
        16 => SpriteObjectType::HorizontalGreenParatroopa,
        17 => SpriteObjectType::Lakitu,
        18 => SpriteObjectType::SpinyDontUse,
        20 => SpriteObjectType::JumpingCheepsGenerator,
        21 => SpriteObjectType::BowserFireGenerator,
        22 => SpriteObjectType::FireworkGenerator,
        23 => SpriteObjectType::BulletBillGenerator,
        27 => SpriteObjectType::ClockwiseFireBar,
        28 => SpriteObjectType::FastClockwiseFireBar,
        29 => SpriteObjectType::CCWFireBar,
        30 => SpriteObjectType::FastCCWFireBar,
        31 => SpriteObjectType::BigClockwiseFireBar,
        36 => SpriteObjectType::BalanceLift,
        37 => SpriteObjectType::UpAndDownLift,
        38 => SpriteObjectType::UpLift,
        39 => SpriteObjectType::DownLift,
        40 => SpriteObjectType::AcrossLift,
        41 => SpriteObjectType::FallingLift,
        42 => SpriteObjectType::RightLift,
        43 => SpriteObjectType::ShortUpLift,
        44 => SpriteObjectType::ShortDownLift,
        45 => SpriteObjectType::Bowser,
        52 => SpriteObjectType::WarpZone,
        53 => SpriteObjectType::Toad,
        55 => SpriteObjectType::Y10_2Goombas,
        56 => SpriteObjectType::Y10_3Goombas,
        57 => SpriteObjectType::Y6_2Goombas,
        58 => SpriteObjectType::Y6_3Goombas,
        59 => SpriteObjectType::Y10_2Koopas,
        60 => SpriteObjectType::Y10_3Koopas,
        61 => SpriteObjectType::Y6_2Koopas,
        62 => SpriteObjectType::Y6_3Koopas,
        _ => SpriteObjectType::RawHex(k),
    }
}

/// The sprite objects of the stream that starts at offset `s` of `rom`,
/// when the current screen starts at column `scrx`. The stream ends at a 0xFF
/// byte; a row-15 record jumps to a screen and a row-14 record (three bytes)
/// places nothing. `None` where the stream runs off the end of `rom`, or
/// where a column or an offset leaves the range of `usize`.
pub open spec fn spec_sprites(rom: Seq<u8>, s: int, scrx: int) -> Option<Seq<AreaSpriteObject>>
    decreases rom.len() + 3 - s,
{
    if s < 0 || s >= rom.len() {
        None
    } else if rom[s] == 0xFF {
        Some(Seq::empty())
    } else if s + 1 >= rom.len() {
        None
    } else {
        let pos = rom[s];
        let data = rom[s + 1];
        let s1 = if data > 127 { scrx + 16 } else { scrx };
        let x = pos / 16;
        let y = pos % 16;
        if s1 > usize::MAX {
            None
        } else if y == 15 {
            spec_sprites(rom, s + 2, 16 * (data % 32))
        } else if y == 14 {
            if s + 3 > usize::MAX {
                None
            } else {
                spec_sprites(rom, s + 3, s1)
            }
        } else if s1 + x > usize::MAX {
            None
        } else {
            let obj = AreaSpriteObject {
                variety: sprite_kind(data % 64),
                lategame: data % 128 > 63,
                x: (s1 + x) as usize,
                y,
            };
            match spec_sprites(rom, s + 2, s1) {
                Some(rest) => Some(seq![obj] + rest),
                None => None,
            }
        }
    }
}

/// Decodes the sprite stream that starts at offset `start` of `rom`.
pub fn parse_sprites(rom: &Vec<u8>, start: usize) -> (r: Option<Vec<AreaSpriteObject>>)
    ensures
        r is Some <==> spec_sprites(rom@, start as int, 0) is Some,
        r is Some ==> r.unwrap()@ == spec_sprites(rom@, start as int, 0).unwrap(),
{
    let mut acc: Vec<AreaSpriteObject> = Vec::new();
    let mut s: usize = start;
    let mut scrx: usize = 0;
    assert(acc@ + Seq::<AreaSpriteObject>::empty() =~= Seq::<AreaSpriteObject>::empty());
    loop
        invariant
            start <= s,
            spec_sprites(rom@, start as int, 0) == prepend(acc@, spec_sprites(rom@, s as int, scrx as int)),
        decreases rom@.len() + 3 - s,
    {
        if s >= rom.len() {
            return None;
        }
        if rom[s] == 0xFF {
            assert(acc@ + Seq::<AreaSpriteObject>::empty() =~= acc@);
            return Some(acc);
        }
        if s + 1 >= rom.len() {
            return None;
        }
        let pos = rom[s];
        let data = rom[s + 1];
        if data > 127 {
            if scrx > usize::MAX - 16 {
                return None;
            }
            scrx = scrx + 16;
        }
        let x = pos / 16;
        let y = pos % 16;
        if y == 15 {
            scrx = 16 * ((data % 32) as usize);
            s = s + 2;
        } else if y == 14 {
            if s > usize::MAX - 3 {
                return None;
            }
            s = s + 3;
        } else {
            if scrx > usize::MAX - (x as usize) {
                return None;
            }
            let obj = AreaSpriteObject {
                variety: decode_sprite_kind(data % 64),
                lategame: data % 128 > 63,
                x: scrx + x as usize,
                y,
            };
            let ghost old_acc = acc@;
            acc.push(obj);
            proof {
                let rest = spec_sprites(rom@, s + 2, scrx as int);
                if rest is Some {
                    assert(old_acc + (seq![obj] + rest.unwrap()) =~= acc@ + rest.unwrap());
                }
            }
            s = s + 2;
        }
    }
}

// ---------------------------------------------------------------------------
// A whole area: the header and the terrain stream at `tile_start`, the
// sprite stream at `spr_start`.

/// The area whose header and terrain stream start at `tile_start` and whose
/// sprite stream starts at `spr_start`; `None` where reading it runs off the
/// end of `rom` (or a column leaves the range of `usize`).
#[verifier::opaque]
pub open spec fn spec_load_area(rom: Seq<u8>, tile_start: int, spr_start: int) -> Option<AreaView> {
    if tile_start < 0 || tile_start + 1 >= rom.len() {
        None
    } else {
        let hi = rom[tile_start];
        let lo = rom[tile_start + 1];
        match (spec_terrain(rom, tile_start + 2, 0), spec_sprites(rom, spr_start, 0)) {
            (Some(terrain), Some(stuff)) => Some(
                AreaView {
                    timer: timer_of(hi),
                    mario_height: height_of(hi),
                    bg: backdrop_of(hi),
                    special: special_of(lo),
                    bg2: scenery_of(lo),
                    initial_tilepat: lo % 16,
                    terrain,
                    stuff,
                },
            ),
            _ => None,
        }
    }
}

/// Reads the area at `tile_start` / `spr_start` of `rom`, or `None` where
/// [`spec_load_area`] has none.
pub fn parse_area(rom: &Vec<u8>, tile_start: usize, spr_start: usize) -> (r: Option<Area>)
    ensures
        r is Some <==> spec_load_area(rom@, tile_start as int, spr_start as int) is Some,
        r is Some ==> r.unwrap()@ == spec_load_area(rom@, tile_start as int, spr_start as int).unwrap(),
{
    reveal(spec_load_area);
    if tile_start >= rom.len() || tile_start + 1 >= rom.len() {
        return None;
    }
    let head_hi = rom[tile_start];
    let head_lo = rom[tile_start + 1];
    let terrain = match parse_terrain(rom, tile_start + 2) {
        Some(v) => v,
        None => {
            return None;
        },
    };
    let stuff = match parse_sprites(rom, spr_start) {
        Some(v) => v,
        None => {
            return None;
        },
    };
    Some(
        Area {
            timer: decode_timer(head_hi),
            mario_height: decode_height(head_hi),
            bg: decode_backdrop(head_hi),
            special: decode_special(head_lo),
            bg2: decode_scenery(head_lo),
            initial_tilepat: head_lo % 16,
            terrain,
            stuff,
        },
    )
}

/// Every terrain object that a stream places lies in a row above 12:
/// ordinary objects keep their row, the others get row 0.
pub proof fn lemma_terrain_rows(rom: Seq<u8>, t: int, scrx: int)
    ensures
        spec_terrain(rom, t, scrx) is Some ==> forall|i: int|
            0 <= i < spec_terrain(rom, t, scrx).unwrap().len() ==> (#[trigger] spec_terrain(rom, t, scrx).unwrap()[i]).y
                < 12,
    decreases rom.len() - t,
{
    if 0 <= t < rom.len() && rom[t] != 0xFD && t + 1 < rom.len() {
        let data = rom[t + 1];
        let s1 = if data > 127 { scrx + 16 } else { scrx };
        let y = rom[t] % 16;
        let hi = (data / 16) % 8;
        let lo = data % 16;
        if y == 13 && hi < 4 {
            lemma_terrain_rows(rom, t + 2, 16 * ((hi % 2) * 16 + lo));
        } else {
            lemma_terrain_rows(rom, t + 2, s1);
        }
    }
}

/// Every sprite object that a stream places lies in a row above 14: rows
/// 14 and 15 hold commands, not objects.
pub proof fn lemma_sprite_rows(rom: Seq<u8>, s: int, scrx: int)
    ensures
        spec_sprites(rom, s, scrx) is Some ==> forall|i: int|
            0 <= i < spec_sprites(rom, s, scrx).unwrap().len() ==> (#[trigger] spec_sprites(rom, s, scrx).unwrap()[i]).y
                < 14,
    decreases rom.len() + 3 - s,
{
    if 0 <= s < rom.len() && rom[s] != 0xFF && s + 1 < rom.len() {
        let data = rom[s + 1];
        let s1 = if data > 127 { scrx + 16 } else { scrx };
        let y = rom[s] % 16;
        if y == 15 {
            lemma_sprite_rows(rom, s + 2, 16 * (data % 32));
        } else if y == 14 {
            lemma_sprite_rows(rom, s + 3, s1);
        } else {
            lemma_sprite_rows(rom, s + 2, s1);
        }
    }
}

/// The objects of an area read out of a ROM lie in their rows: terrain
/// above row 12, sprites above row 14.
pub proof fn lemma_area_rows(rom: Seq<u8>, tile_start: int, spr_start: int)
    ensures
        spec_load_area(rom, tile_start, spr_start) is Some ==> {
            let a = spec_load_area(rom, tile_start, spr_start).unwrap();
            &&& forall|i: int| 0 <= i < a.terrain.len() ==> (#[trigger] a.terrain[i]).y < 12
            &&& forall|i: int| 0 <= i < a.stuff.len() ==> (#[trigger] a.stuff[i]).y < 14
        },
{
    reveal(spec_load_area);
    lemma_terrain_rows(rom, tile_start + 2, 0);
    lemma_sprite_rows(rom, spr_start, 0);
}


// ---------------------------------------------------------------------------
// The encodings: what each decoded value is written as in the ROM. These are
// the format's own tables, read in the writing direction; the laws below say
// that decoding a byte and writing the result back gives the byte again.

/// The seconds that a timer setting allows (0 for a sublevel, which has no
/// timer of its own).
pub open spec fn timer_seconds(t: AreaTimerSetting) -> int {
    match t {
        AreaTimerSetting::T200 => 200,
        AreaTimerSetting::T300 => 300,
        AreaTimerSetting::T400 => 400,
        AreaTimerSetting::Sublevel => 0,
    }
}

/// The 3-bit start-height code of a start height (Autowalk is written as 4
/// to 7).
pub open spec fn height_bits(h: AreaMarioStartHeightSetting) -> int {
    match h {
        AreaMarioStartHeightSetting::VeryHigh => 0,
        AreaMarioStartHeightSetting::High => 1,
        AreaMarioStartHeightSetting::Ground => 2,
        AreaMarioStartHeightSetting::Midair => 3,
        AreaMarioStartHeightSetting::Autowalk => 4,
    }
}

/// The 3-bit code of a backdrop.
pub open spec fn backdrop_bits(b: AreaBackdropSetting) -> int {
    match b {
        AreaBackdropSetting::Overworld => 0,
        AreaBackdropSetting::Underwater => 1,
        AreaBackdropSetting::GreatWall => 2,
        AreaBackdropSetting::Seaside => 3,
        AreaBackdropSetting::Nighttime => 4,
        AreaBackdropSetting::SnowDay => 5,
        AreaBackdropSetting::SnowNight => 6,
        AreaBackdropSetting::Grayscale => 7,
    }
}

/// The 2-bit code of a special setting.
pub open spec fn special_bits(s: AreaSpecialSetting) -> int {
    match s {
        AreaSpecialSetting::Ordinary => 0,
        AreaSpecialSetting::Mushroom => 1,
        AreaSpecialSetting::Cannon => 2,
        AreaSpecialSetting::Sky => 3,
    }
}

/// The 2-bit code of a scenery setting.
pub open spec fn scenery_bits(s: AreaScenerySetting) -> int {
    match s {
        AreaScenerySetting::Blank => 0,
        AreaScenerySetting::Clouds => 1,
        AreaScenerySetting::Hills => 2,
        AreaScenerySetting::Fences => 3,
    }
}

/// How an object placed in rows 0 to 11 is written: bits 6-4 and the low
/// nibble of its data byte (`None` for what those rows cannot hold).
pub open spec fn ordinary_object_bits(v: TerrainObjectType) -> Option<(int, int)> {
    match v {
        TerrainObjectType::SpecialPlat(n) => Some((1, n as int)),
        TerrainObjectType::BrickRow(n) => Some((2, n as int)),
        TerrainObjectType::BlockRow(n) => Some((3, n as int)),
        TerrainObjectType::CoinRow(n) => Some((4, n as int)),
        TerrainObjectType::BrickColumn(n) => Some((5, n as int)),
        TerrainObjectType::BlockColumn(n) => Some((6, n as int)),
        TerrainObjectType::Pipe(enterable, h) => if h < 8 {
            Some((7, if enterable { h + 8 } else { h as int }))
        } else {
            None
        },
        TerrainObjectType::PowerupQBlock => Some((0, 0)),
        TerrainObjectType::CoinQBlock => Some((0, 1)),
        TerrainObjectType::CoinHiddenBlock => Some((0, 2)),
        TerrainObjectType::OneupHiddenBlock => Some((0, 3)),
        TerrainObjectType::PowerupBrick => Some((0, 4)),
        TerrainObjectType::VineBrick => Some((0, 5)),
        TerrainObjectType::StarBrick => Some((0, 6)),
        TerrainObjectType::LotsOfCoinsBrick => Some((0, 7)),
        TerrainObjectType::OneupBrick => Some((0, 8)),
        TerrainObjectType::HitBlock => Some((0, 9)),
        TerrainObjectType::SidePipeExit => Some((0, 10)),
        TerrainObjectType::Trampoline => Some((0, 11)),
        TerrainObjectType::LPipe => Some((0, 12)),
        TerrainObjectType::Flagpole => Some((0, 13)),
        _ => None,
    }
}

/// How an object placed in row 12 is written: bits 6-4 and the low nibble.
pub open spec fn row12_object_bits(v: TerrainObjectType) -> Option<(int, int)> {
    match v {
        TerrainObjectType::Hole(n) => Some((0, n as int)),
        TerrainObjectType::Pulley(n) => Some((1, n as int)),
        TerrainObjectType::Y7Bridge(n) => Some((2, n as int)),
        TerrainObjectType::Y8Bridge(n) => Some((3, n as int)),
        TerrainObjectType::Y10Bridge(n) => Some((4, n as int)),
        TerrainObjectType::WaterHole(n) => Some((5, n as int)),
        TerrainObjectType::Y3QBlocks(n) => Some((6, n as int)),
        TerrainObjectType::Y7QBlocks(n) => Some((7, n as int)),
        _ => None,
    }
}

/// The number of a row-13 command (bit 4 and the low nibble of the data
/// byte, whose bit 6 is set).
pub open spec fn command_number(v: TerrainObjectType) -> Option<int> {
    match v {
        TerrainObjectType::LPipe => Some(0),
        TerrainObjectType::Flagpole => Some(1),
        TerrainObjectType::BridgeAx => Some(2),
        TerrainObjectType::BridgeChain => Some(3),
        TerrainObjectType::BowserBridge => Some(4),
        TerrainObjectType::WarpZoneCommand => Some(5),
        TerrainObjectType::NoScrollCommand => Some(6),
        TerrainObjectType::NoScroll2Command => Some(7),
        TerrainObjectType::CheepCheepSpawnCommand => Some(8),
        TerrainObjectType::BulletSpawnCommand => Some(9),
        TerrainObjectType::NoSpawnCommand => Some(10),
        TerrainObjectType::EndlessHallwayCommand => Some(11),
        _ => None,
    }
}

/// How an object placed in row 15 is written: bits 6-4 and the low nibble.
pub open spec fn row15_object_bits(v: TerrainObjectType) -> Option<(int, int)> {
    match v {
        TerrainObjectType::LeftPulleyRope(n) => Some((0, n as int)),
        TerrainObjectType::RightPulleyRope(n) => Some((1, n as int)),
        TerrainObjectType::Fortress(n) => Some((2, n as int)),
        TerrainObjectType::BlockStaircase(n) => Some((3, n as int)),
        TerrainObjectType::ExitLPipe(n) => Some((4, n as int)),
        TerrainObjectType::UnusedVine(n) => Some((5, n as int)),
        _ => None,
    }
}

/// `v` is what a terrain record in row `y` with data byte `data` places:
/// writing `v` back gives bits 6-4 and the low nibble of `data` (bit 7, the
/// new-screen flag, plays no part), and the raw fallback appears only for
/// the codes that name nothing, carrying the whole data byte.
pub open spec fn terrain_record_holds(y: u8, data: u8, v: TerrainObjectType) -> bool {
    let hi = (data / 16) % 8;
    let lo = data % 16;
    if y < 12 {
        match v {
            TerrainObjectType::RawHex(d) => d == data && hi == 0 && lo >= 14,
            _ => ordinary_object_bits(v) == Some((hi as int, lo as int)),
        }
    } else if y == 12 {
        row12_object_bits(v) == Some((hi as int, lo as int))
    } else if y == 13 {
        &&& hi >= 4
        &&& match v {
            TerrainObjectType::RawHex(d) => d == data && (hi % 2) * 16 + lo >= 12,
            _ => command_number(v) == Some((hi % 2) * 16 + lo),
        }
    } else if y == 14 {
        match v {
            TerrainObjectType::SceneryAndFloorPatternSwitch(a, b) => hi < 4 && a == hi && b == lo,
            TerrainObjectType::BackdropSwitchCommand(c) => hi >= 4 && c == lo % 8,
            _ => false,
        }
    } else {
        match v {
            TerrainObjectType::RawHex(d) => d == data && hi >= 6,
            _ => row15_object_bits(v) == Some((hi as int, lo as int)),
        }
    }
}

/// The number of a sprite object kind (the low six bits of its data byte).
pub open spec fn sprite_number(v: SpriteObjectType) -> int {
    match v {
        SpriteObjectType::GreenKoopa => 0,
        SpriteObjectType::StupidRedKoopa => 1,
        SpriteObjectType::Buzzy => 2,
        SpriteObjectType::RedKoopa => 3,
        SpriteObjectType::ReallyStupidGreenKoopa => 4,
        SpriteObjectType::HammerBro => 5,
        SpriteObjectType::Goomba => 6,
        SpriteObjectType::Blooper => 7,
        SpriteObjectType::BulletBill => 8,
        SpriteObjectType::YellowParatroopa => 9,
        SpriteObjectType::SlowCheep => 10,
        SpriteObjectType::FastCheep => 11,
        SpriteObjectType::Podoboo => 12,
        SpriteObjectType::Pirahna => 13,
        SpriteObjectType::JumpyGreenParatroopa => 14,
        SpriteObjectType::VerticalRedParatroopa => 15,
        SpriteObjectType::HorizontalGreenParatroopa => 16,
        SpriteObjectType::Lakitu => 17,
        SpriteObjectType::SpinyDontUse => 18,
        SpriteObjectType::JumpingCheepsGenerator => 20,
        SpriteObjectType::BowserFireGenerator => 21,
        SpriteObjectType::FireworkGenerator => 22,
        SpriteObjectType::BulletBillGenerator => 23,
        SpriteObjectType::ClockwiseFireBar => 27,
        SpriteObjectType::FastClockwiseFireBar => 28,
        SpriteObjectType::CCWFireBar => 29,
        SpriteObjectType::FastCCWFireBar => 30,
        SpriteObjectType::BigClockwiseFireBar => 31,
        SpriteObjectType::BalanceLift => 36,
        SpriteObjectType::UpAndDownLift => 37,
        SpriteObjectType::UpLift => 38,
        SpriteObjectType::DownLift => 39,
        SpriteObjectType::AcrossLift => 40,
        SpriteObjectType::FallingLift => 41,
        SpriteObjectType::RightLift => 42,
        SpriteObjectType::ShortUpLift => 43,
        SpriteObjectType::ShortDownLift => 44,
        SpriteObjectType::Bowser => 45,
        SpriteObjectType::WarpZone => 52,
        SpriteObjectType::Toad => 53,
        SpriteObjectType::Y10_2Goombas => 55,
        SpriteObjectType::Y10_3Goombas => 56,
        SpriteObjectType::Y6_2Goombas => 57,
        SpriteObjectType::Y6_3Goombas => 58,
        SpriteObjectType::Y10_2Koopas => 59,
        SpriteObjectType::Y10_3Koopas => 60,
        SpriteObjectType::Y6_2Koopas => 61,
        SpriteObjectType::Y6_3Koopas => 62,
        SpriteObjectType::RawHex(k) => k as int,
        SpriteObjectType::WarpInfo(_, _, _) => -1,
    }
}

/// The kind numbers that name no sprite object.
pub open spec fn unnamed_sprite_number(k: int) -> bool {
    k == 19 || 24 <= k <= 26 || 32 <= k <= 35 || 46 <= k <= 51 || k == 54 || k >= 63
}

// ---------------------------------------------------------------------------
// Laws of the decoding.

/// The header: bits 7-6 of the first byte count the time limit down from
/// 500 in hundreds (01 gives 400 seconds, 10 gives 300, 11 gives 200, 00 a
/// sublevel); bits 5-3 are the start height (4 and up walk in on their
/// own), bits 2-0 the backdrop; the second byte holds the special setting in
/// bits 7-6, the scenery in bits 5-4 and the floor pattern in bits 3-0.
pub proof fn lemma_header_bits(rom: Seq<u8>, tile_start: int, spr_start: int)
    ensures
        spec_load_area(rom, tile_start, spr_start) is Some ==> {
            let a = spec_load_area(rom, tile_start, spr_start).unwrap();
            let hi = rom[tile_start];
            let lo = rom[tile_start + 1];
            &&& timer_seconds(a.timer) == if hi / 64 == 0 { 0 } else { 500 - 100 * (hi / 64) }
            &&& (hi / 8) % 8 < 4 ==> height_bits(a.mario_height) == (hi / 8) % 8
            &&& (hi / 8) % 8 >= 4 ==> a.mario_height == AreaMarioStartHeightSetting::Autowalk
            &&& backdrop_bits(a.bg) == hi % 8
            &&& special_bits(a.special) == lo / 64
            &&& scenery_bits(a.bg2) == (lo / 16) % 4
            &&& a.initial_tilepat == lo % 16
        },
{
    reveal(spec_load_area);
}

/// Every terrain record that places an object places the object its data
/// byte encodes (see [`terrain_record_holds`]).
pub proof fn lemma_terrain_kind_encodes(y: u8, data: u8)
    requires
        y < 16,
        !(y == 13 && (data / 16) % 8 < 4),
    ensures
        terrain_kind(y, data) is Some,
        terrain_record_holds(y, data, terrain_kind(y, data).unwrap()),
{
}

/// The first object of a terrain stream whose first record places one: it
/// stands at the record's column on the current screen (one screen further
/// when bit 7 of the data byte is set), in the record's row (row 0 for rows
/// 12 and up), and is what the data byte encodes.
pub proof fn lemma_terrain_first_object(rom: Seq<u8>, t: int, scrx: int)
    requires
        0 <= t,
        0 <= scrx,
        t + 1 < rom.len(),
        rom[t] != 0xFD,
        !(rom[t] % 16 == 13 && (rom[t + 1] / 16) % 8 < 4),
        spec_terrain(rom, t, scrx) is Some,
    ensures
        spec_terrain(rom, t, scrx).unwrap().len() >= 1,
        ({
            let o = spec_terrain(rom, t, scrx).unwrap()[0];
            let pos = rom[t];
            let data = rom[t + 1];
            &&& o.x == (if data >= 128 { scrx + 16 } else { scrx }) + pos / 16
            &&& o.y == (if pos % 16 < 12 { pos % 16 } else { 0 })
            &&& terrain_record_holds(pos % 16, data, o.variety)
        }),
        spec_terrain(rom, t, scrx).unwrap().drop_first() == spec_terrain(
            rom,
            t + 2,
            if rom[t + 1] >= 128 { scrx + 16 } else { scrx },
        ).unwrap(),
{
    let pos = rom[t];
    let data = rom[t + 1];
    lemma_terrain_kind_encodes(pos % 16, data);
    let s1 = if data > 127 { scrx + 16 } else { scrx };
    let rest = spec_terrain(rom, t + 2, s1);
    assert(rest is Some);
    let obj = AreaTerrainObject {
        x: (s1 + pos / 16) as usize,
        y: if pos % 16 < 12 { pos % 16 } else { 0 },
        variety: terrain_kind(pos % 16, data).unwrap(),
    };
    assert(spec_terrain(rom, t, scrx).unwrap() == seq![obj] + rest.unwrap());
    assert((seq![obj] + rest.unwrap())[0] == obj);
    assert((seq![obj] + rest.unwrap()).drop_first() =~= rest.unwrap());
}

/// A row-13 record whose bits 6-4 are below 4 places nothing: it moves the
/// rest of the stream to the screen numbered by bit 4 and the low nibble of
/// its data byte, 16 columns a screen.
pub proof fn lemma_terrain_screen_jump(rom: Seq<u8>, t: int, scrx: int)
    requires
        0 <= t,
        0 <= scrx <= usize::MAX - 16,
        t + 1 < rom.len(),
        rom[t] != 0xFD,
        rom[t] % 16 == 13,
        (rom[t + 1] / 16) % 8 < 4,
    ensures
        spec_terrain(rom, t, scrx) == spec_terrain(rom, t + 2, 16 * (((rom[t + 1] / 16) % 2) * 16 + rom[t + 1] % 16)),
{
    let data = rom[t + 1];
    assert(((data / 16) % 8) % 2 == (data / 16) % 2);
}

/// Every sprite kind number names the object whose number it is; the raw
/// fallback appears only for the numbers that name nothing.
pub proof fn lemma_sprite_kind_encodes(k: u8)
    requires
        k < 64,
    ensures
        sprite_number(sprite_kind(k)) == k,
        sprite_kind(k) is RawHex <==> unnamed_sprite_number(k as int),
{
}

/// The first object of a sprite stream whose first record places one: it
/// stands at the record's column on the current screen (one screen further
/// when bit 7 of the data byte is set) in the record's row; its kind is
/// numbered by the low six bits of the data byte, and it appears late in
/// the game exactly when bit 6 is set, whatever bit 7 says.
pub proof fn lemma_sprite_first_object(rom: Seq<u8>, s: int, scrx: int)
    requires
        0 <= s,
        0 <= scrx,
        s + 1 < rom.len(),
        rom[s] != 0xFF,
        rom[s] % 16 < 14,
        spec_sprites(rom, s, scrx) is Some,
    ensures
        spec_sprites(rom, s, scrx).unwrap().len() >= 1,
        ({
            let o = spec_sprites(rom, s, scrx).unwrap()[0];
            let pos = rom[s];
            let data = rom[s + 1];
            &&& o.x == (if data >= 128 { scrx + 16 } else { scrx }) + pos / 16
            &&& o.y == pos % 16
            &&& sprite_number(o.variety) == data % 64
            &&& o.lategame == ((data / 64) % 2 == 1)
        }),
        spec_sprites(rom, s, scrx).unwrap().drop_first() == spec_sprites(
            rom,
            s + 2,
            if rom[s + 1] >= 128 { scrx + 16 } else { scrx },
        ).unwrap(),
{
    let pos = rom[s];
    let data = rom[s + 1];
    lemma_sprite_kind_encodes(data % 64);
    let s1 = if data > 127 { scrx + 16 } else { scrx };
    let rest = spec_sprites(rom, s + 2, s1);
    assert(rest is Some);
    let obj = AreaSpriteObject {
        variety: sprite_kind(data % 64),
        lategame: data % 128 > 63,
        x: (s1 + pos / 16) as usize,
        y: pos % 16,
    };
    assert(spec_sprites(rom, s, scrx).unwrap() == seq![obj] + rest.unwrap());
    assert((seq![obj] + rest.unwrap())[0] == obj);
    assert((seq![obj] + rest.unwrap()).drop_first() =~= rest.unwrap());
    assert((data % 128 > 63) == ((data / 64) % 2 == 1));
}

/// Sprite records in rows 14 and 15 place nothing: a row-15 record moves the
/// rest of the stream to the screen numbered by the low five bits of its
/// data byte, and a row-14 record is three bytes long.
pub proof fn lemma_sprite_commands(rom: Seq<u8>, s: int, scrx: int)
    requires
        0 <= s,
        0 <= scrx <= usize::MAX - 16,
        s + 3 <= usize::MAX,
        s + 1 < rom.len(),
        rom[s] != 0xFF,
        rom[s] % 16 >= 14,
    ensures
        rom[s] % 16 == 15 ==> spec_sprites(rom, s, scrx) == spec_sprites(rom, s + 2, 16 * (rom[s + 1] % 32)),
        rom[s] % 16 == 14 ==> spec_sprites(rom, s, scrx) == spec_sprites(
            rom,
            s + 3,
            if rom[s + 1] >= 128 { scrx + 16 } else { scrx },
        ),
{
}

} // verus!
