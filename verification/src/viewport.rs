//! Where the area editor draws things: sprite rectangles, their tints, and
//! the layout of a two-line name tag.
use vstd::prelude::*;
use crate::color::Color;
use crate::editor::{HibachiApp, palette_index, spec_palette_index};
use crate::graphics::{MarioColor, MarioColorPalette};

verus! {

/// `v` fits in an `isize`.
pub open spec fn in_isize(v: int) -> bool {
    isize::MIN <= v <= isize::MAX
}

/// A sprite anchored at `(x, y)` with the given offset and size can be
/// placed without an arithmetic overflow; it is drawn at twice its size.
pub open spec fn sprite_rect_fits(x: int, y: int, offset: [isize; 2], size: [usize; 2]) -> bool {
    &&& size[0] <= isize::MAX
    &&& size[1] <= isize::MAX
    &&& in_isize(2 * offset[0])
    &&& in_isize(2 * offset[1])
    &&& in_isize(x + 2 * offset[0])
    &&& in_isize(y + 2 * offset[1])
    &&& in_isize(2 * size[0])
    &&& in_isize(2 * size[1])
    &&& in_isize(x + 2 * offset[0] + 2 * size[0])
    &&& in_isize(y + 2 * offset[1] + 2 * size[1])
}

/// The screen rectangle (left, top, right, bottom) of a sprite anchored at
/// `(x, y)`: the sprite's offset and size, doubled.
pub fn sprite_rect(x: isize, y: isize, offset: [isize; 2], size: [usize; 2]) -> (r: [isize; 4])
    requires
        sprite_rect_fits(x as int, y as int, offset, size),
    ensures
        r[0] == x + 2 * offset[0],
        r[1] == y + 2 * offset[1],
        r[2] == x + 2 * offset[0] + 2 * size[0],
        r[3] == y + 2 * offset[1] + 2 * size[1],
{
    let left = x + 2 * offset[0];
    let top = y + 2 * offset[1];
    [left, top, left + 2 * (size[0] as isize), top + 2 * (size[1] as isize)]
}

/// The position of a sub-palette in an area palette.
pub open spec fn spec_color_index(c: MarioColor) -> usize {
    match c {
        MarioColor::Vegetation => 0,
        MarioColor::Brick => 1,
        MarioColor::Cloud => 2,
        MarioColor::Shiny => 3,
        MarioColor::Mario => 4,
        MarioColor::GreenEnemy => 5,
        MarioColor::RedEnemy => 6,
        MarioColor::BlackEnemy => 7,
    }
}

/// The position of a sub-palette in an area palette.
pub fn color_index(c: MarioColor) -> (i: usize)
    ensures
        i == spec_color_index(c),
        i < 8,
{
    match c {
        MarioColor::Vegetation => 0,
        MarioColor::Brick => 1,
        MarioColor::Cloud => 2,
        MarioColor::Shiny => 3,
        MarioColor::Mario => 4,
        MarioColor::GreenEnemy => 5,
        MarioColor::RedEnemy => 6,
        MarioColor::BlackEnemy => 7,
    }
}

impl HibachiApp {
    /// The colours that tint the three masks of a sprite of sub-palette `c`
    /// drawn with palette `pal`: the sub-palette's three colours, or its
    /// first colour three times for a silhouette. `None` while `pal` has not
    /// been read.
    pub fn sprite_tints(&self, pal: MarioColorPalette, c: MarioColor, silhouette: bool) -> (r: Option<[Color; 3]>)
        ensures
            r is Some <==> self.game_palette[spec_palette_index(pal) as int] is Some,
            r is Some ==> ({
                let sub = self.game_palette[spec_palette_index(pal) as int].unwrap()[spec_color_index(c) as int];
                r.unwrap() == if silhouette { [sub[0], sub[0], sub[0]] } else { sub }
            }),
    {
        match self.game_palette[palette_index(pal)] {
            Some(p) => {
                let sub = p[color_index(c)];
                if silhouette {
                    Some([sub[0], sub[0], sub[0]])
                } else {
                    Some(sub)
                }
            },
            None => None,
        }
    }
}

// ---------------------------------------------------------------------------
// Name tags: two lines of capital letters on a box, 16 pixels per letter.

/// The box of a tag at `(x, y)` whose longer line is `m` bytes long fits.
pub open spec fn tag_rect_fits(x: int, y: int, m: int) -> bool {
    &&& m + 1 <= usize::MAX
    &&& 16 * (m + 1) <= isize::MAX
    &&& in_isize(x + 16 * (m + 1))
    &&& in_isize(y + 32)
}

/// The box (left, top, right, bottom) of a tag at `(x, y)` whose longer
/// line is `m` bytes long: one letter wider than that line, two letters
/// high.
pub fn tag_rect(x: isize, y: isize, m: usize) -> (r: [isize; 4])
    requires
        tag_rect_fits(x as int, y as int, m as int),
    ensures
        r[0] == x,
        r[1] == y,
        r[2] == x + 16 * (m + 1),
        r[3] == y + 32,
{
    [x, y, x + 16 * ((m + 1) as isize), y + 32]
}

/// The letters of a line `s` of a tag whose line starts at `(x, top)`:
/// letter `i` of the line sits in the 16-pixel square `16 * i` to the
/// right, and spaces are skipped. Only the first `n` letters are taken.
pub open spec fn glyph_row(x: int, top: int, s: Seq<char>, n: int) -> Seq<(char, [isize; 4])>
    decreases n,
{
    if n <= 0 {
        Seq::empty()
    } else {
        let prev = glyph_row(x, top, s, n - 1);
        let c = s[n - 1];
        if c == ' ' {
            prev
        } else {
            prev.push((c, [(x + 16 * (n - 1)) as isize, top as isize, (x + 16 * n) as isize, (top + 16) as isize]))
        }
    }
}

/// The letters of a line `s` of a tag at `(x, top)` can be placed without
/// an arithmetic overflow.
pub open spec fn glyph_row_fits(x: int, top: int, s: Seq<char>) -> bool {
    &&& s.len() <= isize::MAX
    &&& in_isize(top + 16)
    &&& forall|i: int| 0 <= i < s.len() && s[i] != ' ' ==> 16 * (i + 1) <= isize::MAX && x + 16 * (i + 1) <= isize::MAX
}

/// Places the letters of the line `s` of a tag at `(x, top)`.
pub fn glyph_row_layout(x: isize, top: isize, s: &str) -> (r: Vec<(char, [isize; 4])>)
    requires
        glyph_row_fits(x as int, top as int, s@),
    ensures
        r@ == glyph_row(x as int, top as int, s@, s@.len() as int),
{
    let n = s.unicode_len();
    let mut r: Vec<(char, [isize; 4])> = Vec::new();
    let mut i: usize = 0;
    while i < n
        invariant
            n == s@.len(),
            i <= n,
            glyph_row_fits(x as int, top as int, s@),
            r@ == glyph_row(x as int, top as int, s@, i as int),
        decreases n - i,
    {
        let c = s.get_char(i);
        if c != ' ' {
            assert(16 * (i + 1) <= isize::MAX && x + 16 * (i + 1) <= isize::MAX);
            let left = x + 16 * (i as isize);
            let right = x + 16 * ((i + 1) as isize);
            r.push((c, [left, top, right, top + 16]));
        }
        i = i + 1;
    }
    r
}

/// What `str::to_uppercase` makes of a string.
pub uninterp spec fn spec_to_uppercase(s: Seq<char>) -> Seq<char>;

/// Calls std's `str::to_uppercase`. The contract claims only that the result
/// depends on the characters of the argument alone, and names it
/// `spec_to_uppercase`; what the Unicode case mapping makes of each
/// character (some become several) is left unsaid.
#[verifier::external_body]
fn to_uppercase(s: &str) -> (r: String)
    ensures
        r@ == spec_to_uppercase(s@),
{
    s.to_uppercase()
}

/// A name tag: its box, and each letter with its square.
pub struct TagLayout {
    pub rect: [isize; 4],
    pub glyphs: Vec<(char, [isize; 4])>,
}

/// The byte length of the longer of two lines.
pub open spec fn longer(a: int, b: int) -> int {
    if a >= b { a } else { b }
}

/// A tag at `(x, y)` with the lines `txt` and `txt2` can be laid out
/// without an arithmetic overflow.
pub open spec fn tag_fits(x: int, y: int, txt: &str, txt2: &str) -> bool {
    &&& tag_rect_fits(x, y, longer(txt.len() as int, txt2.len() as int))
    &&& glyph_row_fits(x, y, spec_to_uppercase(txt@))
    &&& glyph_row_fits(x, y + 16, spec_to_uppercase(txt2@))
}

/// Lays out the name tag at `(x, y)` with the lines `txt` and `txt2`, each
/// in capitals; `None` where that would overflow.
pub fn paint_tag_layout(x: isize, y: isize, txt: &str, txt2: &str) -> (r: Option<TagLayout>)
    ensures
        r is Some <==> tag_fits(x as int, y as int, txt, txt2),
        r is Some ==> r.unwrap().rect[0] == x && r.unwrap().rect[1] == y && r.unwrap().rect[2] == x + 16 * (
        longer(txt.len() as int, txt2.len() as int) + 1) && r.unwrap().rect[3] == y + 32,
        r is Some ==> r.unwrap().glyphs@ == glyph_row(x as int, y as int, spec_to_uppercase(txt@), spec_to_uppercase(txt@).len() as int)
            + glyph_row(x as int, y + 16, spec_to_uppercase(txt2@), spec_to_uppercase(txt2@).len() as int),
{
    let m = if txt.len() >= txt2.len() { txt.len() } else { txt2.len() };
    if m >= usize::MAX || m + 1 > (isize::MAX as usize) / 16 {
        return None;
    }
    let w = 16 * ((m + 1) as isize);
    if (x > 0 && w > isize::MAX - x) || y > isize::MAX - 32 {
        return None;
    }
    let up1 = to_uppercase(txt);
    let up2 = to_uppercase(txt2);
    if !glyph_row_fits_exec(x, y, up1.as_str()) || !glyph_row_fits_exec(x, y + 16, up2.as_str()) {
        return None;
    }
    let rect = tag_rect(x, y, m);
    let mut glyphs = glyph_row_layout(x, y, up1.as_str());
    let mut second = glyph_row_layout(x, y + 16, up2.as_str());
    glyphs.append(&mut second);
    Some(TagLayout { rect, glyphs })
}

/// Whether the letters of the line `s` at `(x, top)` fit.
fn glyph_row_fits_exec(x: isize, top: isize, s: &str) -> (r: bool)
    ensures
        r == glyph_row_fits(x as int, top as int, s@),
{
    let n = s.unicode_len();
    if n > isize::MAX as usize || top > isize::MAX - 16 {
        return false;
    }
    let mut i: usize = 0;
    while i < n
        invariant
            n == s@.len(),
            n <= isize::MAX,
            i <= n,
            forall|j: int| 0 <= j < i && s@[j] != ' ' ==> 16 * (j + 1) <= isize::MAX && x + 16 * (j + 1) <= isize::MAX,
        decreases n - i,
    {
        if s.get_char(i) != ' ' {
            if i + 1 > (isize::MAX as usize) / 16 {
                return false;
            }
            let step = 16 * ((i + 1) as isize);
            if x > isize::MAX - step {
                return false;
            }
        }
        i = i + 1;
    }
    true
}

} // verus!
