//! Decoding the 2-bit-per-pixel tile graphics and the colour palettes that a
//! Super Mario Bros. ROM holds.
use vstd::prelude::*;
use crate::area::SpriteObjectType;
use crate::color::{Color, nes_color, spec_nes_color};

verus! {

/// What the editor draws: Mario's start marker, terrain, and sprite objects.
#[derive(Clone, Copy, PartialEq, Eq, Structural, Debug, Hash)]
pub enum MarioGraphics {
    MarioStart,
    TerrainRocky,
    TerrainSearock,
    TerrainCastleBrick,
    SpriteObject(SpriteObjectType),
}

/// The eight three-colour sub-palettes of an area palette, in ROM order.
#[derive(Clone, Copy, PartialEq, Eq, Structural, Debug, Hash)]
pub enum MarioColor {
    Vegetation,
    Brick,
    Cloud,
    Shiny,
    Mario,
    GreenEnemy,
    RedEnemy,
    BlackEnemy,
}

/// The palettes of the area types and of their variants.
#[derive(Clone, Copy, PartialEq, Eq, Structural, Debug, Hash)]
pub enum MarioColorPalette {
    Ground,
    Cave,
    Water,
    Castle,
    Night,
    SnowDay,
    SnowNight,
    Mushroom,
    Bowser,
}

/// A picture: `size` is width then height, `pixels` is row-major.
pub struct ColorImage {
    pub size: [usize; 2],
    pub pixels: Vec<Color>,
}

/// A decoded sprite: one white-on-transparent mask for each of the three
/// non-background colour indices, where it sits relative to its anchor,
/// its size in pixels, and which sub-palette tints it.
pub struct ViewportSprite {
    pub slices: [ColorImage; 3],
    pub offset: [isize; 2],
    pub size: [usize; 2],
    pub palette: MarioColor,
}

// ---------------------------------------------------------------------------
// Tiles.

/// Where 8x8 tile `tile` of the pattern tables starts in the file image.
pub open spec fn tile_addr(tile: int) -> int {
    0x8010 + 16 * tile
}

/// The colour index (0 to 3) of pixel `s` of row `b` of the tile stored at
/// `a`: the low bit comes from the first bit-plane, the high bit from the
/// second, and the leftmost pixel is the most significant bit.
pub open spec fn pixel_at(rom: Seq<u8>, a: int, b: int, s: int) -> int {
    let shift = (7 - s) as u8;
    2 * ((rom[a + b + 8] >> shift) % 2) + (rom[a + b] >> shift) % 2
}

/// The colour index of pixel `s` of row `b` of tile `tile`.
pub open spec fn tile_pixel(rom: Seq<u8>, tile: int, b: int, s: int) -> int {
    pixel_at(rom, tile_addr(tile), b, s)
}

fn read_tile_pixel(rom: &Vec<u8>, saddr: usize, b: usize, s: usize) -> (d: u8)
    requires
        saddr + 16 <= rom.len(),
        b < 8,
        s < 8,
    ensures
        d == pixel_at(rom@, saddr as int, b as int, s as int),
        d < 4,
{
    let shift = (7 - s) as u8;
    let hi = (rom[saddr + b + 8] >> shift) % 2;
    let lo = (rom[saddr + b] >> shift) % 2;
    2 * hi + lo
}

/// The weight of pixel `s` of a tile row in a bit-plane byte: the leftmost
/// pixel is the most significant bit.
pub open spec fn pixel_weight(s: int) -> int {
    if s == 0 {
        128
    } else if s == 1 {
        64
    } else if s == 2 {
        32
    } else if s == 3 {
        16
    } else if s == 4 {
        8
    } else if s == 5 {
        4
    } else if s == 6 {
        2
    } else {
        1
    }
}

proof fn lemma_shifts(v: u8)
    ensures
        (v >> 7u8) % 2 == (v / 128) % 2,
        (v >> 6u8) % 2 == (v / 64) % 2,
        (v >> 5u8) % 2 == (v / 32) % 2,
        (v >> 4u8) % 2 == (v / 16) % 2,
        (v >> 3u8) % 2 == (v / 8) % 2,
        (v >> 2u8) % 2 == (v / 4) % 2,
        (v >> 1u8) % 2 == (v / 2) % 2,
        (v >> 0u8) % 2 == v % 2,
{
    assert((v >> 7u8) % 2 == (v / 128) % 2 && (v >> 6u8) % 2 == (v / 64) % 2 && (v >> 5u8) % 2 == (v / 32)
        % 2 && (v >> 4u8) % 2 == (v / 16) % 2 && (v >> 3u8) % 2 == (v / 8) % 2 && (v >> 2u8) % 2 == (v / 4)
        % 2 && (v >> 1u8) % 2 == (v / 2) % 2 && (v >> 0u8) % 2 == v % 2) by (bit_vector);
}

/// The colour index of pixel `s` of row `b` of a tile: bit `s`, counted from
/// the most significant, of the row's byte in the first bit-plane, plus
/// twice that bit of the row's byte in the second bit-plane, 8 bytes on.
pub proof fn lemma_tile_pixel_bits(rom: Seq<u8>, a: int, b: int, s: int)
    requires
        0 <= s < 8,
    ensures
        pixel_at(rom, a, b, s) == 2 * ((rom[a + b + 8] as int / pixel_weight(s)) % 2) + (rom[a + b] as int / pixel_weight(s)) % 2,
{
    lemma_shifts(rom[a + b + 8]);
    lemma_shifts(rom[a + b]);
    assert((7 - s) as u8 == 7 - s);
}

// ---------------------------------------------------------------------------
// Sprites: patches of tiles. A patch is [x, y, tile, flip], and a flip of -1
// mirrors the tile horizontally.

/// The least of `p[i][c]` over the first `n` patches (`isize::MAX` when
/// there are none).
pub open spec fn lo_bound(p: Seq<[isize; 4]>, n: int, c: int) -> int
    decreases n,
{
    if n <= 0 {
        isize::MAX as int
    } else {
        let m = lo_bound(p, n - 1, c);
        if (p[n - 1][c] as int) < m {
            p[n - 1][c] as int
        } else {
            m
        }
    }
}

/// The greatest of `p[i][c] + 8` over the first `n` patches (`isize::MIN`
/// when there are none).
pub open spec fn hi_bound(p: Seq<[isize; 4]>, n: int, c: int) -> int
    decreases n,
{
    if n <= 0 {
        isize::MIN as int
    } else {
        let m = hi_bound(p, n - 1, c);
        if p[n - 1][c] + 8 > m {
            p[n - 1][c] + 8
        } else {
            m
        }
    }
}

pub open spec fn sprite_left(p: Seq<[isize; 4]>) -> int {
    lo_bound(p, p.len() as int, 0)
}

pub open spec fn sprite_top(p: Seq<[isize; 4]>) -> int {
    lo_bound(p, p.len() as int, 1)
}

/// The width of the bounding box of the patches.
pub open spec fn sprite_width(p: Seq<[isize; 4]>) -> int {
    hi_bound(p, p.len() as int, 0) - sprite_left(p)
}

/// The height of the bounding box of the patches.
pub open spec fn sprite_height(p: Seq<[isize; 4]>) -> int {
    hi_bound(p, p.len() as int, 1) - sprite_top(p)
}

/// The patches can be drawn without an arithmetic overflow, an allocation
/// beyond what an address space holds, or a read past the end of `rom`.
pub open spec fn sprite_decodable(rom: Seq<u8>, p: Seq<[isize; 4]>) -> bool {
    &&& p.len() > 0
    &&& forall|i: int| 0 <= i < p.len() ==> (#[trigger] p[i])[0] + 8 <= isize::MAX && p[i][1] + 8 <= isize::MAX
    &&& sprite_width(p) <= isize::MAX
    &&& sprite_height(p) <= isize::MAX
    &&& 4 * sprite_width(p) * sprite_height(p) <= isize::MAX
    &&& forall|i: int|
        0 <= i < p.len() ==> 0 <= tile_addr((#[trigger] p[i])[2] as int) && tile_addr(p[i][2] as int) + 16
            <= rom.len() && tile_addr(p[i][2] as int) <= isize::MAX
}

/// Where, in the row-major bounding box, pixel `j` of the patches lands:
/// pixel `j` is pixel `j % 8` of row `(j % 64) / 8` of patch `j / 64`.
pub open spec fn patch_pixel_index(p: Seq<[isize; 4]>, j: int) -> int {
    let i = j / 64;
    let b = (j % 64) / 8;
    let s = j % 8;
    let col = if p[i][3] == -1 { 7 - s } else { s };
    (p[i][1] - sprite_top(p) + b) * sprite_width(p) + (p[i][0] - sprite_left(p)) + col
}

/// The colour index of pixel `j` of the patches.
pub open spec fn patch_pixel_value(rom: Seq<u8>, p: Seq<[isize; 4]>, j: int) -> int {
    tile_pixel(rom, p[j / 64][2] as int, (j % 64) / 8, j % 8)
}

/// Pixel `j` of the patches lands on `q` with colour index `k`.
pub open spec fn covers(rom: Seq<u8>, p: Seq<[isize; 4]>, j: int, k: int, q: int) -> bool {
    patch_pixel_index(p, j) == q && patch_pixel_value(rom, p, j) == k
}

/// One of the first `n` pixels of the patches lands on `q` with colour index `k`.
pub open spec fn lit_before(rom: Seq<u8>, p: Seq<[isize; 4]>, n: int, k: int, q: int) -> bool {
    exists|j: int| 0 <= j < n && #[trigger] covers(rom, p, j, k, q)
}

/// Pixel `q` of the mask of colour index `k`: white where some pixel of some
/// patch with that colour index lands on it, transparent elsewhere.
pub open spec fn layer_pixel(rom: Seq<u8>, p: Seq<[isize; 4]>, k: int, q: int) -> Color {
    if lit_before(rom, p, 64 * p.len() as int, k, q) {
        Color::spec_white()
    } else {
        Color::spec_transparent()
    }
}

/// `img` is the mask of colour index `k` of the patches.
pub open spec fn layer_matches(rom: Seq<u8>, p: Seq<[isize; 4]>, k: int, img: ColorImage) -> bool {
    &&& img.size[0] == sprite_width(p)
    &&& img.size[1] == sprite_height(p)
    &&& img.pixels@.len() == sprite_width(p) * sprite_height(p)
    &&& forall|q: int| 0 <= q < img.pixels@.len() ==> #[trigger] img.pixels@[q] == layer_pixel(rom, p, k, q)
}

/// `sp` is the sprite that the patches draw, tinted by sub-palette `palette`.
pub open spec fn sprite_matches(rom: Seq<u8>, p: Seq<[isize; 4]>, palette: MarioColor, sp: ViewportSprite) -> bool {
    &&& sp.offset[0] == sprite_left(p)
    &&& sp.offset[1] == sprite_top(p)
    &&& sp.size[0] == sprite_width(p)
    &&& sp.size[1] == sprite_height(p)
    &&& sp.palette == palette
    &&& layer_matches(rom, p, 1, sp.slices[0])
    &&& layer_matches(rom, p, 2, sp.slices[1])
    &&& layer_matches(rom, p, 3, sp.slices[2])
}

/// Every patch among the first `n` lies inside the bounds.
proof fn lemma_bounds_contain(p: Seq<[isize; 4]>, n: int, c: int)
    requires
        0 <= n <= p.len(),
    ensures
        forall|i: int| 0 <= i < n ==> lo_bound(p, n, c) <= #[trigger] p[i][c] && p[i][c] + 8 <= hi_bound(p, n, c),
        n > 0 ==> lo_bound(p, n, c) + 8 <= hi_bound(p, n, c),
    decreases n,
{
    if n > 0 {
        lemma_bounds_contain(p, n - 1, c);
    }
}

/// The bounds are reached: when there are patches, some patch lies at the
/// least coordinate and some patch ends at the greatest.
proof fn lemma_bounds_reached(p: Seq<[isize; 4]>, n: int, c: int)
    requires
        0 < n <= p.len(),
    ensures
        exists|i: int| 0 <= i < n && lo_bound(p, n, c) == #[trigger] p[i][c],
        exists|i: int| 0 <= i < n && hi_bound(p, n, c) == #[trigger] p[i][c] + 8,
    decreases n,
{
    if n == 1 {
        assert(lo_bound(p, 0, c) == isize::MAX);
        assert(hi_bound(p, 0, c) == isize::MIN);
        assert(lo_bound(p, 1, c) == p[0][c]);
        assert(hi_bound(p, 1, c) == p[0][c] + 8);
    } else {
        lemma_bounds_reached(p, n - 1, c);
        if lo_bound(p, n, c) != p[n - 1][c] {
            let i = choose|i: int| 0 <= i < n - 1 && lo_bound(p, n - 1, c) == #[trigger] p[i][c];
            assert(lo_bound(p, n, c) == p[i][c]);
        }
        if hi_bound(p, n, c) != p[n - 1][c] + 8 {
            let i = choose|i: int| 0 <= i < n - 1 && hi_bound(p, n - 1, c) == #[trigger] p[i][c] + 8;
            assert(hi_bound(p, n, c) == p[i][c] + 8);
        }
    }
}

/// A sprite's box is the least box holding all its 8x8 patches: every
/// patch lies inside it, and each of its four sides touches some patch.
pub proof fn lemma_sprite_box(p: Seq<[isize; 4]>)
    requires
        p.len() > 0,
    ensures
        forall|i: int|
            0 <= i < p.len() ==> sprite_left(p) <= (#[trigger] p[i])[0] && p[i][0] + 8 <= sprite_left(p) + sprite_width(p)
                && sprite_top(p) <= p[i][1] && p[i][1] + 8 <= sprite_top(p) + sprite_height(p),
        exists|i: int| 0 <= i < p.len() && (#[trigger] p[i])[0] == sprite_left(p),
        exists|i: int| 0 <= i < p.len() && (#[trigger] p[i])[0] + 8 == sprite_left(p) + sprite_width(p),
        exists|i: int| 0 <= i < p.len() && (#[trigger] p[i])[1] == sprite_top(p),
        exists|i: int| 0 <= i < p.len() && (#[trigger] p[i])[1] + 8 == sprite_top(p) + sprite_height(p),
{
    let n = p.len() as int;
    lemma_bounds_contain(p, n, 0);
    lemma_bounds_contain(p, n, 1);
    lemma_bounds_reached(p, n, 0);
    lemma_bounds_reached(p, n, 1);
    assert forall|i: int| 0 <= i < p.len() implies sprite_left(p) <= (#[trigger] p[i])[0] && p[i][0] + 8
        <= sprite_left(p) + sprite_width(p) && sprite_top(p) <= p[i][1] && p[i][1] + 8 <= sprite_top(p)
        + sprite_height(p) by {
        assert(lo_bound(p, n, 0) <= p[i][0] && lo_bound(p, n, 1) <= p[i][1]);
        assert(p[i][0] + 8 <= hi_bound(p, n, 0) && p[i][1] + 8 <= hi_bound(p, n, 1));
    }
    let a = choose|i: int| 0 <= i < n && lo_bound(p, n, 0) == #[trigger] p[i][0];
    assert(p[a][0] == sprite_left(p));
    let b = choose|i: int| 0 <= i < n && hi_bound(p, n, 0) == #[trigger] p[i][0] + 8;
    assert(p[b][0] + 8 == sprite_left(p) + sprite_width(p));
    let c = choose|i: int| 0 <= i < n && lo_bound(p, n, 1) == #[trigger] p[i][1];
    assert(p[c][1] == sprite_top(p));
    let d = choose|i: int| 0 <= i < n && hi_bound(p, n, 1) == #[trigger] p[i][1] + 8;
    assert(p[d][1] + 8 == sprite_top(p) + sprite_height(p));
}

/// Bounds of patches whose coordinates lie in [-1024, 1024].
proof fn lemma_bounds_range(p: Seq<[isize; 4]>, n: int, c: int)
    requires
        0 < n <= p.len(),
        forall|i: int| 0 <= i < n ==> -1024 <= #[trigger] p[i][c] <= 1024,
    ensures
        -1024 <= lo_bound(p, n, c) <= 1024,
        -1016 <= hi_bound(p, n, c) <= 1032,
    decreases n,
{
    assert(-1024 <= p[n - 1][c] <= 1024);
    if n > 1 {
        lemma_bounds_range(p, n - 1, c);
    } else {
        assert(lo_bound(p, 0, c) == isize::MAX);
        assert(hi_bound(p, 0, c) == isize::MIN);
    }
}

/// A patch with small coordinates and a tile that `rom` holds.
pub open spec fn patch_in_range(rom: Seq<u8>, q: [isize; 4]) -> bool {
    &&& -1024 <= q[0] <= 1024
    &&& -1024 <= q[1] <= 1024
    &&& 0 <= q[2] <= 0x1000
    &&& tile_addr(q[2] as int) + 16 <= rom.len()
}

/// Patches with small coordinates, all of whose tiles `rom` holds, can be drawn.
proof fn lemma_small_patches_decodable(rom: Seq<u8>, p: Seq<[isize; 4]>)
    requires
        p.len() > 0,
        forall|i: int| 0 <= i < p.len() ==> patch_in_range(rom, #[trigger] p[i]),
    ensures
        sprite_decodable(rom, p),
{
    lemma_bounds_range(p, p.len() as int, 0);
    lemma_bounds_range(p, p.len() as int, 1);
    let w = sprite_width(p);
    let h = sprite_height(p);
    assert(0 <= w <= 2056 && 0 <= h <= 2056);
    assert(4 * w * h <= 4 * 2056 * 2056) by (nonlinear_arith)
        requires
            0 <= w <= 2056,
            0 <= h <= 2056,
    ;
}

/// Taking one more pixel of the patches into account.
proof fn lemma_lit_step(rom: Seq<u8>, p: Seq<[isize; 4]>, n: int, k: int, q: int)
    requires
        0 <= n,
    ensures
        lit_before(rom, p, n + 1, k, q) == (lit_before(rom, p, n, k, q) || covers(rom, p, n, k, q)),
{
    if lit_before(rom, p, n + 1, k, q) && !covers(rom, p, n, k, q) {
        let j = choose|j: int| 0 <= j < n + 1 && #[trigger] covers(rom, p, j, k, q);
        assert(j != n);
    }
}

/// `n` transparent pixels.
fn blank_pixels(n: usize) -> (v: Vec<Color>)
    ensures
        v@.len() == n,
        forall|q: int| 0 <= q < n ==> #[trigger] v@[q] == Color::spec_transparent(),
{
    let mut v: Vec<Color> = Vec::new();
    let mut i: usize = 0;
    while i < n
        invariant
            i <= n,
            v@.len() == i,
            forall|q: int| 0 <= q < i ==> #[trigger] v@[q] == Color::spec_transparent(),
        decreases n - i,
    {
        v.push(Color::transparent());
        i = i + 1;
    }
    v
}

/// Draws `patches` of the tiles in `rom` into three masks, one for each
/// non-background colour index, sized to the bounding box of the patches.
pub fn decode_sprite(rom: &Vec<u8>, patches: &Vec<[isize; 4]>, palette: MarioColor) -> (sp: ViewportSprite)
    requires
        sprite_decodable(rom@, patches@),
    ensures
        sprite_matches(rom@, patches@, palette, sp),
{
    let ghost p = patches@;
    let n = patches.len();
    let mut min_x: isize = isize::MAX;
    let mut min_y: isize = isize::MAX;
    let mut max_x: isize = isize::MIN;
    let mut max_y: isize = isize::MIN;
    let mut i: usize = 0;
    while i < n
        invariant
            p == patches@,
            n == p.len(),
            i <= n,
            sprite_decodable(rom@, p),
            min_x == lo_bound(p, i as int, 0),
            min_y == lo_bound(p, i as int, 1),
            max_x == hi_bound(p, i as int, 0),
            max_y == hi_bound(p, i as int, 1),
        decreases n - i,
    {
        let q = patches[i];
        assert(q == p[i as int]);
        if q[0] < min_x {
            min_x = q[0];
        }
        if q[0] + 8 > max_x {
            max_x = q[0] + 8;
        }
        if q[1] < min_y {
            min_y = q[1];
        }
        if q[1] + 8 > max_y {
            max_y = q[1] + 8;
        }
        i = i + 1;
    }
    proof {
        lemma_bounds_contain(p, n as int, 0);
        lemma_bounds_contain(p, n as int, 1);
    }
    let w = (max_x - min_x) as usize;
    let h = (max_y - min_y) as usize;
    assert(w * h <= isize::MAX) by (nonlinear_arith)
        requires
            4 * w * h <= isize::MAX,
            w >= 0,
            h >= 0,
    ;
    let npx = w * h;
    let mut l1 = blank_pixels(npx);
    let mut l2 = blank_pixels(npx);
    let mut l3 = blank_pixels(npx);
    let white = Color::white();
    let mut i: usize = 0;
    while i < n
        invariant
            p == patches@,
            n == p.len(),
            i <= n,
            sprite_decodable(rom@, p),
            min_x == sprite_left(p),
            min_y == sprite_top(p),
            w == sprite_width(p),
            h == sprite_height(p),
            npx == w * h,
            npx <= isize::MAX,
            white == Color::spec_white(),
            forall|c: int| 0 <= c < n ==> sprite_left(p) <= #[trigger] p[c][0] && p[c][0] + 8 <= sprite_left(p) + w,
            forall|c: int| 0 <= c < n ==> sprite_top(p) <= #[trigger] p[c][1] && p[c][1] + 8 <= sprite_top(p) + h,
            l1@.len() == npx,
            l2@.len() == npx,
            l3@.len() == npx,
            forall|q: int| 0 <= q < npx ==> #[trigger] l1@[q] == (if lit_before(rom@, p, 64 * i, 1, q) { Color::spec_white() } else { Color::spec_transparent() }),
            forall|q: int| 0 <= q < npx ==> #[trigger] l2@[q] == (if lit_before(rom@, p, 64 * i, 2, q) { Color::spec_white() } else { Color::spec_transparent() }),
            forall|q: int| 0 <= q < npx ==> #[trigger] l3@[q] == (if lit_before(rom@, p, 64 * i, 3, q) { Color::spec_white() } else { Color::spec_transparent() }),
        decreases n - i,
    {
        let q = patches[i];
        assert(q == p[i as int]);
        let hflip = q[3] == -1;
        let x = (q[0] - min_x) as usize;
        let y = (q[1] - min_y) as usize;
        let saddr = (0x8010 + 16 * q[2]) as usize;
        let mut m: usize = 0;
        while m < 64
            invariant
                p == patches@,
                n == p.len(),
                i < n,
                m <= 64,
                q == p[i as int],
                hflip == (q[3] == -1),
                x == q[0] - sprite_left(p),
                y == q[1] - sprite_top(p),
                x + 8 <= w,
                y + 8 <= h,
                saddr == tile_addr(q[2] as int),
                saddr + 16 <= rom.len(),
                w == sprite_width(p),
                h == sprite_height(p),
                npx == w * h,
                npx <= isize::MAX,
                white == Color::spec_white(),
                l1@.len() == npx,
                l2@.len() == npx,
                l3@.len() == npx,
                forall|r: int| 0 <= r < npx ==> #[trigger] l1@[r] == (if lit_before(rom@, p, 64 * i + m, 1, r) { Color::spec_white() } else { Color::spec_transparent() }),
                forall|r: int| 0 <= r < npx ==> #[trigger] l2@[r] == (if lit_before(rom@, p, 64 * i + m, 2, r) { Color::spec_white() } else { Color::spec_transparent() }),
                forall|r: int| 0 <= r < npx ==> #[trigger] l3@[r] == (if lit_before(rom@, p, 64 * i + m, 3, r) { Color::spec_white() } else { Color::spec_transparent() }),
            decreases 64 - m,
        {
            let b = m / 8;
            let s = m % 8;
            let col = if hflip { 7 - s } else { s };
            assert((y + b) * w + (x + col) < w * h) by (nonlinear_arith)
                requires
                    y + b + 1 <= h,
                    x + col + 1 <= w,
                    y + b >= 0,
                    x + col >= 0,
            ;
            let px = (y + b) * w + (x + col);
            let d = read_tile_pixel(rom, saddr, b, s);
            let ghost j = 64 * i + m;
            proof {
                assert(j / 64 == i && j % 64 == m) by (nonlinear_arith)
                    requires
                        j == 64 * i + m,
                        0 <= m < 64,
                        i >= 0,
                ;
                assert(j % 8 == m % 8) by (nonlinear_arith)
                    requires
                        j == 64 * i + m,
                        0 <= m < 64,
                        i >= 0,
                ;
                assert(patch_pixel_index(p, j) == px);
                assert(patch_pixel_value(rom@, p, j) == d);
            }
            if d == 1 {
                l1.set(px, white);
            }
            if d == 2 {
                l2.set(px, white);
            }
            if d == 3 {
                l3.set(px, white);
            }
            proof {
                assert forall|r: int| 0 <= r < npx implies #[trigger] l1@[r] == (if lit_before(rom@, p, j + 1, 1, r) { Color::spec_white() } else { Color::spec_transparent() }) by {
                    lemma_lit_step(rom@, p, j, 1, r);
                }
                assert forall|r: int| 0 <= r < npx implies #[trigger] l2@[r] == (if lit_before(rom@, p, j + 1, 2, r) { Color::spec_white() } else { Color::spec_transparent() }) by {
                    lemma_lit_step(rom@, p, j, 2, r);
                }
                assert forall|r: int| 0 <= r < npx implies #[trigger] l3@[r] == (if lit_before(rom@, p, j + 1, 3, r) { Color::spec_white() } else { Color::spec_transparent() }) by {
                    lemma_lit_step(rom@, p, j, 3, r);
                }
            }
            m = m + 1;
        }
        i = i + 1;
    }
    let i1 = ColorImage { size: [w, h], pixels: l1 };
    let i2 = ColorImage { size: [w, h], pixels: l2 };
    let i3 = ColorImage { size: [w, h], pixels: l3 };
    ViewportSprite { slices: [i1, i2, i3], offset: [min_x, min_y], size: [w, h], palette }
}

/// Two ROMs that agree on every pixel of the patches draw the same masks.
pub proof fn lemma_same_pixels_same_layers(rom1: Seq<u8>, rom2: Seq<u8>, p: Seq<[isize; 4]>)
    requires
        forall|j: int| 0 <= j < 64 * p.len() ==> #[trigger] patch_pixel_value(rom1, p, j) == patch_pixel_value(rom2, p, j),
    ensures
        forall|k: int, q: int| #[trigger] layer_pixel(rom1, p, k, q) == layer_pixel(rom2, p, k, q),
{
    assert forall|k: int, q: int| #[trigger] layer_pixel(rom1, p, k, q) == layer_pixel(rom2, p, k, q) by {
        let n = 64 * p.len() as int;
        if lit_before(rom1, p, n, k, q) {
            let j = choose|j: int| 0 <= j < n && #[trigger] covers(rom1, p, j, k, q);
            assert(covers(rom2, p, j, k, q));
        }
        if lit_before(rom2, p, n, k, q) {
            let j = choose|j: int| 0 <= j < n && #[trigger] covers(rom2, p, j, k, q);
            assert(covers(rom1, p, j, k, q));
        }
    }
}

/// Byte `d` of the tile of patch `i`.
pub open spec fn tile_byte(rom: Seq<u8>, p: Seq<[isize; 4]>, i: int, d: int) -> u8 {
    rom[tile_addr(p[i][2] as int) + d]
}

/// Two ROMs that agree on the bytes of the tiles of the patches draw the
/// same sprite from them.
pub proof fn lemma_same_tiles_same_sprite(rom1: Seq<u8>, rom2: Seq<u8>, p: Seq<[isize; 4]>, c: MarioColor, sp: ViewportSprite)
    requires
        forall|i: int, d: int| 0 <= i < p.len() && 0 <= d < 16 ==> #[trigger] tile_byte(rom1, p, i, d) == tile_byte(rom2, p, i, d),
    ensures
        sprite_matches(rom1, p, c, sp) == sprite_matches(rom2, p, c, sp),
{
    assert forall|j: int| 0 <= j < 64 * p.len() implies #[trigger] patch_pixel_value(rom1, p, j) == patch_pixel_value(rom2, p, j) by {
        let i = j / 64;
        let b = (j % 64) / 8;
        assert(0 <= i < p.len() && 0 <= b < 8) by (nonlinear_arith)
            requires
                0 <= j < 64 * p.len(),
                i == j / 64,
                b == (j % 64) / 8,
        ;
        assert(tile_byte(rom1, p, i, b) == tile_byte(rom2, p, i, b));
        assert(tile_byte(rom1, p, i, b + 8) == tile_byte(rom2, p, i, b + 8));
    }
    lemma_same_pixels_same_layers(rom1, rom2, p);
}

/// The masks of a single patch at `(x, y)` with tile `t`: its box is the
/// 8x8 tile, and pixel `s` of row `b` of the tile lands at column `s` of row
/// `b` of each mask, or at column `7 - s` when the flip is -1 (a mirrored
/// tile); the mask of colour index `k` is white exactly there.
pub proof fn lemma_single_patch_placement(rom: Seq<u8>, x: isize, y: isize, t: isize, f: isize, k: int, b: int, s: int)
    requires
        0 <= b < 8,
        0 <= s < 8,
    ensures
        sprite_width(seq![[x, y, t, f]]) == 8,
        sprite_height(seq![[x, y, t, f]]) == 8,
        sprite_left(seq![[x, y, t, f]]) == x,
        sprite_top(seq![[x, y, t, f]]) == y,
        layer_pixel(rom, seq![[x, y, t, f]], k, 8 * b + (if f == -1 { 7 - s } else { s })) == if tile_pixel(
            rom,
            t as int,
            b,
            s,
        ) == k {
            Color::spec_white()
        } else {
            Color::spec_transparent()
        },
{
    let p = seq![[x, y, t, f]];
    assert(p.len() == 1);
    assert(lo_bound(p, 0, 0) == isize::MAX);
    assert(lo_bound(p, 0, 1) == isize::MAX);
    assert(hi_bound(p, 0, 0) == isize::MIN);
    assert(hi_bound(p, 0, 1) == isize::MIN);
    assert(sprite_left(p) == x);
    assert(sprite_top(p) == y);
    assert(sprite_width(p) == 8);
    let q = 8 * b + (if f == -1 { 7 - s } else { s });
    let j0 = 8 * b + s;
    assert(j0 / 64 == 0 && (j0 % 64) / 8 == b && j0 % 8 == s) by (nonlinear_arith)
        requires
            j0 == 8 * b + s,
            0 <= b < 8,
            0 <= s < 8,
    ;
    assert(patch_pixel_index(p, j0) == q);
    if tile_pixel(rom, t as int, b, s) == k {
        assert(covers(rom, p, j0, k, q));
    }
    if lit_before(rom, p, 64, k, q) {
        let j = choose|j: int| 0 <= j < 64 && #[trigger] covers(rom, p, j, k, q);
        let jb = (j % 64) / 8;
        let js = j % 8;
        assert(j / 64 == 0 && j == 8 * jb + js && 0 <= jb < 8 && 0 <= js < 8) by (nonlinear_arith)
            requires
                0 <= j < 64,
                jb == (j % 64) / 8,
                js == j % 8,
        ;
        let col = if f == -1 { 7 - js } else { js };
        assert(patch_pixel_index(p, j) == 8 * jb + col);
        assert(jb == b && js == s) by (nonlinear_arith)
            requires
                8 * jb + (if f == -1 { 7 - js } else { js }) == 8 * b + (if f == -1 { 7 - s } else { s }),
                0 <= jb < 8,
                0 <= js < 8,
                0 <= b < 8,
                0 <= s < 8,
        ;
        assert(patch_pixel_value(rom, p, j) == tile_pixel(rom, t as int, b, s));
    }
}

// ---------------------------------------------------------------------------
// The sprites that the editor draws.

/// What the editor draws, the sub-palette that tints it, and its patches.
pub open spec fn graphics_table() -> Seq<(MarioGraphics, MarioColor, Seq<[isize; 4]>)> {
    seq![
        (MarioGraphics::MarioStart, MarioColor::Mario, seq![[0isize, 0, 0x32, 1], [8isize, 0, 0x33, 1], [0isize, 8, 0x34, 1], [8isize, 8, 0x35, 1]]),
        (MarioGraphics::TerrainRocky, MarioColor::Brick, seq![[0isize, 0, 0x1B4, 1], [8isize, 0, 0x1B5, 1], [0isize, 8, 0x1B6, 1], [8isize, 8, 0x1B7, 1]]),
        (MarioGraphics::TerrainSearock, MarioColor::Brick, seq![[0isize, 0, 0x182, 1], [8isize, 0, 0x184, 1], [0isize, 8, 0x183, 1], [8isize, 8, 0x185, 1]]),
        (MarioGraphics::TerrainCastleBrick, MarioColor::Brick, seq![[0isize, 0, 0x15E, 1], [8isize, 0, 0x15E, 1], [0isize, 8, 0x15D, 1], [8isize, 8, 0x15D, 1]]),
        (MarioGraphics::SpriteObject(SpriteObjectType::GreenKoopa), MarioColor::GreenEnemy, seq![[0isize, -8isize, 0xA5, -1isize], [0isize, 0, 0xA7, -1isize], [8isize, 0, 0xA6, -1isize], [0isize, 8, 0xA9, -1isize], [8isize, 8, 0xA8, -1isize]]),
        (MarioGraphics::SpriteObject(SpriteObjectType::StupidRedKoopa), MarioColor::RedEnemy, seq![[0isize, -8isize, 0xA5, -1isize], [8isize, -8isize, 0x12B, 1], [0isize, 0, 0xA7, -1isize], [8isize, 0, 0xA6, -1isize], [0isize, 8, 0xA9, -1isize], [8isize, 8, 0xA8, -1isize]]),
        (MarioGraphics::SpriteObject(SpriteObjectType::Buzzy), MarioColor::BlackEnemy, seq![[0isize, 0, 0xAB, -1isize], [8isize, 0, 0xAA, -1isize], [0isize, 8, 0xAD, -1isize], [8isize, 8, 0xAC, -1isize]]),
        (MarioGraphics::SpriteObject(SpriteObjectType::RedKoopa), MarioColor::RedEnemy, seq![[0isize, -8isize, 0xA5, -1isize], [0isize, 0, 0xA7, -1isize], [8isize, 0, 0xA6, -1isize], [0isize, 8, 0xA9, -1isize], [8isize, 8, 0xA8, -1isize]]),
        (MarioGraphics::SpriteObject(SpriteObjectType::ReallyStupidGreenKoopa), MarioColor::GreenEnemy, seq![[0isize, -8isize, 0xA5, -1isize], [8isize, -8isize, 0x12B, 1], [0isize, 0, 0xA7, -1isize], [8isize, 0, 0xA6, -1isize], [0isize, 8, 0xA9, -1isize], [8isize, 8, 0xA8, -1isize]]),
        (MarioGraphics::SpriteObject(SpriteObjectType::HammerBro), MarioColor::GreenEnemy, seq![[0isize, -8isize, 0x7C, -1isize], [8isize, -8isize, 0x7D, -1isize], [0isize, 0, 0x8C, -1isize], [8isize, 0, 0x89, -1isize], [0isize, 8, 0x8A, -1isize], [8isize, 8, 0x8B, -1isize]]),
        (MarioGraphics::SpriteObject(SpriteObjectType::Goomba), MarioColor::BlackEnemy, seq![[0isize, 0, 0x70, 1], [8isize, 0, 0x71, 1], [0isize, 8, 0x72, 1], [8isize, 8, 0x73, 1]]),
        (MarioGraphics::SpriteObject(SpriteObjectType::Blooper), MarioColor::GreenEnemy, seq![[0isize, 0, 0xDC, 1], [8isize, 0, 0xDC, -1isize], [0isize, 8, 0xDD, 1], [8isize, 8, 0xDD, -1isize], [0isize, 0x10, 0xDE, 1], [8isize, 0x10, 0xDE, -1isize]]),
        (MarioGraphics::SpriteObject(SpriteObjectType::BulletBill), MarioColor::BlackEnemy, seq![[0isize, 0, 0xE7, 1], [8isize, 0, 0xE8, 1], [0isize, 8, 0xE9, 1], [8isize, 8, 0xEA, 1]]),
    ]
}

/// Entry `i` of [`graphics_table`].
pub fn graphics_entry(i: usize) -> (e: (MarioGraphics, MarioColor, Vec<[isize; 4]>))
    requires
        i < 13,
    ensures
        e.0 == graphics_table()[i as int].0,
        e.1 == graphics_table()[i as int].1,
        e.2@ == graphics_table()[i as int].2,
{
    match i {
        0 => (MarioGraphics::MarioStart, MarioColor::Mario, vec![[0, 0, 0x32, 1], [8, 0, 0x33, 1], [0, 8, 0x34, 1], [8, 8, 0x35, 1]]),
        1 => (MarioGraphics::TerrainRocky, MarioColor::Brick, vec![[0, 0, 0x1B4, 1], [8, 0, 0x1B5, 1], [0, 8, 0x1B6, 1], [8, 8, 0x1B7, 1]]),
        2 => (MarioGraphics::TerrainSearock, MarioColor::Brick, vec![[0, 0, 0x182, 1], [8, 0, 0x184, 1], [0, 8, 0x183, 1], [8, 8, 0x185, 1]]),
        3 => (MarioGraphics::TerrainCastleBrick, MarioColor::Brick, vec![[0, 0, 0x15E, 1], [8, 0, 0x15E, 1], [0, 8, 0x15D, 1], [8, 8, 0x15D, 1]]),
        4 => (MarioGraphics::SpriteObject(SpriteObjectType::GreenKoopa), MarioColor::GreenEnemy, vec![[0, -8, 0xA5, -1], [0, 0, 0xA7, -1], [8, 0, 0xA6, -1], [0, 8, 0xA9, -1], [8, 8, 0xA8, -1]]),
        5 => (MarioGraphics::SpriteObject(SpriteObjectType::StupidRedKoopa), MarioColor::RedEnemy, vec![[0, -8, 0xA5, -1], [8, -8, 0x12B, 1], [0, 0, 0xA7, -1], [8, 0, 0xA6, -1], [0, 8, 0xA9, -1], [8, 8, 0xA8, -1]]),
        6 => (MarioGraphics::SpriteObject(SpriteObjectType::Buzzy), MarioColor::BlackEnemy, vec![[0, 0, 0xAB, -1], [8, 0, 0xAA, -1], [0, 8, 0xAD, -1], [8, 8, 0xAC, -1]]),
        7 => (MarioGraphics::SpriteObject(SpriteObjectType::RedKoopa), MarioColor::RedEnemy, vec![[0, -8, 0xA5, -1], [0, 0, 0xA7, -1], [8, 0, 0xA6, -1], [0, 8, 0xA9, -1], [8, 8, 0xA8, -1]]),
        8 => (MarioGraphics::SpriteObject(SpriteObjectType::ReallyStupidGreenKoopa), MarioColor::GreenEnemy, vec![[0, -8, 0xA5, -1], [8, -8, 0x12B, 1], [0, 0, 0xA7, -1], [8, 0, 0xA6, -1], [0, 8, 0xA9, -1], [8, 8, 0xA8, -1]]),
        9 => (MarioGraphics::SpriteObject(SpriteObjectType::HammerBro), MarioColor::GreenEnemy, vec![[0, -8, 0x7C, -1], [8, -8, 0x7D, -1], [0, 0, 0x8C, -1], [8, 0, 0x89, -1], [0, 8, 0x8A, -1], [8, 8, 0x8B, -1]]),
        10 => (MarioGraphics::SpriteObject(SpriteObjectType::Goomba), MarioColor::BlackEnemy, vec![[0, 0, 0x70, 1], [8, 0, 0x71, 1], [0, 8, 0x72, 1], [8, 8, 0x73, 1]]),
        11 => (MarioGraphics::SpriteObject(SpriteObjectType::Blooper), MarioColor::GreenEnemy, vec![[0, 0, 0xDC, 1], [8, 0, 0xDC, -1], [0, 8, 0xDD, 1], [8, 8, 0xDD, -1], [0, 0x10, 0xDE, 1], [8, 0x10, 0xDE, -1]]),
        _ => (MarioGraphics::SpriteObject(SpriteObjectType::BulletBill), MarioColor::BlackEnemy, vec![[0, 0, 0xE7, 1], [8, 0, 0xE8, 1], [0, 8, 0xE9, 1], [8, 8, 0xEA, 1]]),
    }
}

/// The position of `g` in [`graphics_table`]; 13 for what the table lacks.
pub open spec fn graphics_code(g: MarioGraphics) -> int {
    match g {
        MarioGraphics::MarioStart => 0,
        MarioGraphics::TerrainRocky => 1,
        MarioGraphics::TerrainSearock => 2,
        MarioGraphics::TerrainCastleBrick => 3,
        MarioGraphics::SpriteObject(v) => match v {
            SpriteObjectType::GreenKoopa => 4,
            SpriteObjectType::StupidRedKoopa => 5,
            SpriteObjectType::Buzzy => 6,
            SpriteObjectType::RedKoopa => 7,
            SpriteObjectType::ReallyStupidGreenKoopa => 8,
            SpriteObjectType::HammerBro => 9,
            SpriteObjectType::Goomba => 10,
            SpriteObjectType::Blooper => 11,
            SpriteObjectType::BulletBill => 12,
            _ => 13,
        },
    }
}

/// The entries of [`graphics_table`] draw thirteen different things.
pub proof fn lemma_graphics_codes(i: int)
    requires
        0 <= i < 13,
    ensures
        graphics_code(graphics_table()[i].0) == i,
{
    assert(graphics_table().len() == 13);
    if i == 0 {
    } else if i == 1 {
    } else if i == 2 {
    } else if i == 3 {
    } else if i == 4 {
    } else if i == 5 {
    } else if i == 6 {
    } else if i == 7 {
    } else if i == 8 {
    } else if i == 9 {
    } else if i == 10 {
    } else if i == 11 {
    } else {
    }
}

/// The last byte that drawing the editor's sprites reads lies below this.
pub open spec fn graphics_rom_len() -> int {
    0x9B90
}

/// Every entry of [`graphics_table`] can be drawn from a ROM that long.
pub proof fn lemma_graphics_table_decodable(rom: Seq<u8>, i: int)
    requires
        rom.len() >= graphics_rom_len(),
        0 <= i < 13,
    ensures
        sprite_decodable(rom, graphics_table()[i].2),
{
    let p = graphics_table()[i].2;
    assert(graphics_table().len() == 13);
    if true {
        if i == 0 {
            assert(forall|j: int| 0 <= j < p.len() ==> patch_in_range(rom, #[trigger] p[j]));
        } else if i == 1 {
            assert(forall|j: int| 0 <= j < p.len() ==> patch_in_range(rom, #[trigger] p[j]));
        } else if i == 2 {
            assert(forall|j: int| 0 <= j < p.len() ==> patch_in_range(rom, #[trigger] p[j]));
        } else if i == 3 {
            assert(forall|j: int| 0 <= j < p.len() ==> patch_in_range(rom, #[trigger] p[j]));
        } else if i == 4 {
            assert(forall|j: int| 0 <= j < p.len() ==> patch_in_range(rom, #[trigger] p[j]));
        } else if i == 5 {
            assert(forall|j: int| 0 <= j < p.len() ==> patch_in_range(rom, #[trigger] p[j]));
        } else if i == 6 {
            assert(forall|j: int| 0 <= j < p.len() ==> patch_in_range(rom, #[trigger] p[j]));
        } else if i == 7 {
            assert(forall|j: int| 0 <= j < p.len() ==> patch_in_range(rom, #[trigger] p[j]));
        } else if i == 8 {
            assert(forall|j: int| 0 <= j < p.len() ==> patch_in_range(rom, #[trigger] p[j]));
        } else if i == 9 {
            assert(forall|j: int| 0 <= j < p.len() ==> patch_in_range(rom, #[trigger] p[j]));
        } else if i == 10 {
            assert(forall|j: int| 0 <= j < p.len() ==> patch_in_range(rom, #[trigger] p[j]));
        } else if i == 11 {
            assert(forall|j: int| 0 <= j < p.len() ==> patch_in_range(rom, #[trigger] p[j]));
        } else {
            assert(forall|j: int| 0 <= j < p.len() ==> patch_in_range(rom, #[trigger] p[j]));
        }
    }
    lemma_small_patches_decodable(rom, p);
}

/// The tiles that [`graphics_table`] draws lie between 0x32 and 0x1B7.
pub proof fn lemma_graphics_table_tiles(i: int)
    requires
        0 <= i < 13,
    ensures
        forall|j: int| 0 <= j < graphics_table()[i].2.len() ==> 0x32 <= (#[trigger] graphics_table()[i].2[j])[2] <= 0x1B7,
{
    let p = graphics_table()[i].2;
    assert(graphics_table().len() == 13);
    if true {
        if i == 0 {
            assert(forall|j: int| 0 <= j < p.len() ==> 0x32 <= (#[trigger] p[j])[2] <= 0x1B7);
        } else if i == 1 {
            assert(forall|j: int| 0 <= j < p.len() ==> 0x32 <= (#[trigger] p[j])[2] <= 0x1B7);
        } else if i == 2 {
            assert(forall|j: int| 0 <= j < p.len() ==> 0x32 <= (#[trigger] p[j])[2] <= 0x1B7);
        } else if i == 3 {
            assert(forall|j: int| 0 <= j < p.len() ==> 0x32 <= (#[trigger] p[j])[2] <= 0x1B7);
        } else if i == 4 {
            assert(forall|j: int| 0 <= j < p.len() ==> 0x32 <= (#[trigger] p[j])[2] <= 0x1B7);
        } else if i == 5 {
            assert(forall|j: int| 0 <= j < p.len() ==> 0x32 <= (#[trigger] p[j])[2] <= 0x1B7);
        } else if i == 6 {
            assert(forall|j: int| 0 <= j < p.len() ==> 0x32 <= (#[trigger] p[j])[2] <= 0x1B7);
        } else if i == 7 {
            assert(forall|j: int| 0 <= j < p.len() ==> 0x32 <= (#[trigger] p[j])[2] <= 0x1B7);
        } else if i == 8 {
            assert(forall|j: int| 0 <= j < p.len() ==> 0x32 <= (#[trigger] p[j])[2] <= 0x1B7);
        } else if i == 9 {
            assert(forall|j: int| 0 <= j < p.len() ==> 0x32 <= (#[trigger] p[j])[2] <= 0x1B7);
        } else if i == 10 {
            assert(forall|j: int| 0 <= j < p.len() ==> 0x32 <= (#[trigger] p[j])[2] <= 0x1B7);
        } else if i == 11 {
            assert(forall|j: int| 0 <= j < p.len() ==> 0x32 <= (#[trigger] p[j])[2] <= 0x1B7);
        } else {
            assert(forall|j: int| 0 <= j < p.len() ==> 0x32 <= (#[trigger] p[j])[2] <= 0x1B7);
        }
    }
}

// ---------------------------------------------------------------------------
// The font: the 26 capital letters, white where a tile pixel is not
// background.

/// Pixel `q` (row-major, 8 wide) of the letter drawn by tile `tile`.
pub open spec fn glyph_pixel(rom: Seq<u8>, tile: int, q: int) -> Color {
    if tile_pixel(rom, tile, q / 8, q % 8) != 0 {
        Color::spec_white()
    } else {
        Color::spec_transparent()
    }
}

/// `img` is the 8x8 letter that tile `tile` draws.
pub open spec fn glyph_matches(rom: Seq<u8>, tile: int, img: ColorImage) -> bool {
    &&& img.size[0] == 8
    &&& img.size[1] == 8
    &&& img.pixels@.len() == 64
    &&& forall|q: int| 0 <= q < 64 ==> #[trigger] img.pixels@[q] == glyph_pixel(rom, tile, q)
}

/// The tile of the letter `i` places after 'A'.
pub open spec fn letter_tile(i: int) -> int {
    0x10A + i
}

/// The letter `i` places after 'A'.
pub open spec fn letter(i: int) -> char {
    (65 + i) as char
}

/// `sp` is the font sprite of the letter drawn by tile `tile`: the same
/// mask for the three colour indices.
pub open spec fn glyph_sprite_matches(rom: Seq<u8>, tile: int, sp: ViewportSprite) -> bool {
    &&& sp.offset == [0isize, 0isize]
    &&& sp.size == [8usize, 8usize]
    &&& sp.palette == MarioColor::BlackEnemy
    &&& glyph_matches(rom, tile, sp.slices[0])
    &&& glyph_matches(rom, tile, sp.slices[1])
    &&& glyph_matches(rom, tile, sp.slices[2])
}

/// Draws the letter that tile `tile` holds.
pub fn decode_glyph(rom: &Vec<u8>, tile: usize) -> (img: ColorImage)
    requires
        tile_addr(tile as int) + 16 <= rom.len(),
    ensures
        glyph_matches(rom@, tile as int, img),
{
    let saddr = 0x8010 + 16 * tile;
    let mut pixels: Vec<Color> = Vec::new();
    let mut m: usize = 0;
    while m < 64
        invariant
            m <= 64,
            saddr == tile_addr(tile as int),
            saddr + 16 <= rom.len(),
            pixels@.len() == m,
            forall|q: int| 0 <= q < m ==> #[trigger] pixels@[q] == glyph_pixel(rom@, tile as int, q),
        decreases 64 - m,
    {
        let d = read_tile_pixel(rom, saddr, m / 8, m % 8);
        if d != 0 {
            pixels.push(Color::white());
        } else {
            pixels.push(Color::transparent());
        }
        m = m + 1;
    }
    ColorImage { size: [8, 8], pixels }
}

impl ColorImage {
    /// A copy of the picture.
    pub fn duplicate(&self) -> (c: ColorImage)
        ensures
            c.size == self.size,
            c.pixels@ == self.pixels@,
    {
        let pixels = self.pixels.clone();
        assert(pixels@ =~= self.pixels@);
        ColorImage { size: self.size, pixels }
    }
}

/// The font sprite of the letter that tile `tile` holds.
pub fn decode_glyph_sprite(rom: &Vec<u8>, tile: usize) -> (sp: ViewportSprite)
    requires
        tile_addr(tile as int) + 16 <= rom.len(),
    ensures
        glyph_sprite_matches(rom@, tile as int, sp),
{
    let i = decode_glyph(rom, tile);
    let c1 = i.duplicate();
    let c2 = i.duplicate();
    ViewportSprite { slices: [c1, c2, i], offset: [0, 0], size: [8, 8], palette: MarioColor::BlackEnemy }
}

/// The letter `i` places after 'A'.
pub fn letter_char(i: u8) -> (c: char)
    requires
        i < 26,
    ensures
        c == letter(i as int),
{
    (65u8 + i) as char
}

// ---------------------------------------------------------------------------
// Palettes.

/// The three colours of the palette bytes at `a`, `a + 1` and `a + 2`.
pub open spec fn color_triple(rom: Seq<u8>, a: int) -> [Color; 3] {
    [spec_nes_color(rom[a]), spec_nes_color(rom[a + 1]), spec_nes_color(rom[a + 2])]
}

/// The eight sub-palettes of the area palette whose bytes start at `o`:
/// sub-palette `k` is made of the three bytes from `o + 4k + 4` on (every
/// fourth byte, `o + 4k + 7`, is not read).
pub open spec fn palette_at(rom: Seq<u8>, o: int) -> [[Color; 3]; 8] {
    [
        color_triple(rom, o + 4),
        color_triple(rom, o + 8),
        color_triple(rom, o + 12),
        color_triple(rom, o + 16),
        color_triple(rom, o + 20),
        color_triple(rom, o + 24),
        color_triple(rom, o + 28),
        color_triple(rom, o + 32),
    ]
}


/// Colour `j` of sub-palette `k` of the area palette at `o` is the NES
/// colour of the byte `o + 4 + 4k + j`.
pub proof fn lemma_palette_bytes(rom: Seq<u8>, o: int)
    ensures
        forall|k: int, j: int|
            0 <= k < 8 && 0 <= j < 3 ==> #[trigger] palette_at(rom, o)[k][j] == spec_nes_color(rom[o + 4 + 4 * k + j]),
{
    assert forall|k: int, j: int| 0 <= k < 8 && 0 <= j < 3 implies #[trigger] palette_at(rom, o)[k][j]
        == spec_nes_color(rom[o + 4 + 4 * k + j]) by {
        assert(palette_at(rom, o)[k] == color_triple(rom, o + 4 + 4 * k));
    }
}

fn read_triple(rom: &Vec<u8>, a: usize) -> (t: [Color; 3])
    requires
        a + 3 <= rom.len(),
    ensures
        t == color_triple(rom@, a as int),
{
    [nes_color(rom[a]), nes_color(rom[a + 1]), nes_color(rom[a + 2])]
}

/// Reads the area palette whose bytes start at `o`.
pub fn read_palette(rom: &Vec<u8>, o: usize) -> (p: [[Color; 3]; 8])
    requires
        o + 35 <= rom.len(),
    ensures
        p == palette_at(rom@, o as int),
{
    [
        read_triple(rom, o + 4),
        read_triple(rom, o + 8),
        read_triple(rom, o + 12),
        read_triple(rom, o + 16),
        read_triple(rom, o + 20),
        read_triple(rom, o + 24),
        read_triple(rom, o + 28),
        read_triple(rom, o + 32),
    ]
}

} // verus!
