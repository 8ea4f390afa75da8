//! Packing the glyphs of a font into one texture atlas row, and the XML text
//! that maps characters to their glyph rectangles.
use vstd::prelude::*;
use vstd::string::StringExecFns;
use crate::string_utils::{dec, push_decimal};
use crate::text::push_char;

verus! {

/// Characters packed into a font texture atlas, in order.
pub const ATLAS_CHARACTERS: &'static str = "ABCDEFGHIJKLMNOPQRSTUVWXYZabcdefghijklmnopqrstuvwxyz0123456789+-.,;:_#*@?!=()[]";

/// The pixel bounding box of a laid-out glyph.
#[derive(Clone, Copy, Debug, PartialEq, Eq, Structural)]
pub struct GlyphBox {
    pub min_x: i32,
    pub min_y: i32,
    pub max_x: i32,
    pub max_y: i32,
}

/// A glyph of the atlas: its character and the rectangle recorded for it.
#[derive(Clone, Copy, Debug, PartialEq, Eq, Structural)]
pub struct GlyphData {
    pub character: char,
    pub x: u32,
    pub y: u32,
    pub width: u32,
    pub height: u32,
}

/// Where the glyphs go in the atlas and the atlas size.
pub struct AtlasLayout {
    pub width: u32,
    pub height: u32,
    /// The top-left corner each glyph with a bounding box is drawn at, in order.
    pub offsets: Vec<(u32, u32)>,
    /// The glyph data of each glyph with a bounding box, in order.
    pub glyphs: Vec<GlyphData>,
}

pub open spec fn box_width(b: GlyphBox) -> int {
    b.max_x - b.min_x
}

pub open spec fn box_height(b: GlyphBox) -> int {
    b.max_y - b.min_y
}

/// Every bounding box has its minimum corner at or before its maximum one.
pub open spec fn boxes_valid(boxes: Seq<Option<GlyphBox>>) -> bool {
    forall|i: int|
        0 <= i < boxes.len() ==> (#[trigger] boxes[i] matches Some(b) ==> b.min_x <= b.max_x && b.min_y <= b.max_y
            && b.max_x - b.min_x <= i32::MAX && b.max_y - b.min_y <= i32::MAX)
}

/// How many of the first `n` glyphs have a bounding box.
pub open spec fn placed_count(boxes: Seq<Option<GlyphBox>>, n: int) -> nat
    decreases n,
{
    if n <= 0 {
        0
    } else {
        placed_count(boxes, n - 1) + if boxes[n - 1] is Some { 1nat } else { 0nat }
    }
}

/// The total width of the bounding boxes among the first `n` glyphs.
pub open spec fn placed_width(boxes: Seq<Option<GlyphBox>>, n: int) -> int
    decreases n,
{
    if n <= 0 {
        0
    } else {
        placed_width(boxes, n - 1) + match boxes[n - 1] {
            Some(b) => box_width(b),
            None => 0,
        }
    }
}

/// The largest height of the bounding boxes among the first `n` glyphs (0 for none).
pub open spec fn max_height(boxes: Seq<Option<GlyphBox>>, n: int) -> int
    decreases n,
{
    if n <= 0 {
        0
    } else {
        let m = max_height(boxes, n - 1);
        match boxes[n - 1] {
            Some(b) => if box_height(b) > m { box_height(b) } else { m },
            None => m,
        }
    }
}

/// The atlas is one row: the widths of all boxes plus one pixel per glyph.
pub open spec fn atlas_width(boxes: Seq<Option<GlyphBox>>) -> int {
    placed_width(boxes, boxes.len() as int) + boxes.len()
}

/// The atlas is as high as the highest glyph plus ten pixels.
pub open spec fn atlas_height(boxes: Seq<Option<GlyphBox>>) -> int {
    max_height(boxes, boxes.len() as int) + 10
}

/// The column glyph `k` is drawn at: one pixel of padding, then every box
/// before it with one pixel of space after each.
pub open spec fn glyph_x(boxes: Seq<Option<GlyphBox>>, k: int) -> int {
    1 + placed_width(boxes, k) + placed_count(boxes, k)
}

/// The glyph data recorded for glyph `k` with box `b`: the `m`-th character
/// for the `m`-th glyph with a box, and the box's position and size.
pub open spec fn glyph_data_of(characters: Seq<char>, boxes: Seq<Option<GlyphBox>>, k: int, b: GlyphBox) -> GlyphData {
    GlyphData {
        character: characters[placed_count(boxes, k) as int],
        x: b.min_x as u32,
        y: b.min_y as u32,
        width: box_width(b) as u32,
        height: box_height(b) as u32,
    }
}

proof fn lemma_prefix_bounds(boxes: Seq<Option<GlyphBox>>, i: int, j: int)
    requires
        boxes_valid(boxes),
        0 <= i <= j <= boxes.len(),
    ensures
        placed_width(boxes, i) <= placed_width(boxes, j),
        placed_count(boxes, i) <= placed_count(boxes, j),
        placed_count(boxes, j) <= placed_count(boxes, i) + (j - i),
        max_height(boxes, i) <= max_height(boxes, j),
        0 <= placed_width(boxes, i),
        0 <= max_height(boxes, i),
    decreases j - i,
{
    if i < j {
        lemma_prefix_bounds(boxes, i, j - 1);
        assert(boxes[j - 1] matches Some(b) ==> b.min_x <= b.max_x && b.min_y <= b.max_y);
    } else {
        lemma_nonneg(boxes, i);
    }
}

proof fn lemma_nonneg(boxes: Seq<Option<GlyphBox>>, i: int)
    requires
        boxes_valid(boxes),
        0 <= i <= boxes.len(),
    ensures
        0 <= placed_width(boxes, i),
        0 <= max_height(boxes, i),
    decreases i,
{
    if i > 0 {
        lemma_nonneg(boxes, i - 1);
        assert(boxes[i - 1] matches Some(b) ==> b.min_x <= b.max_x && b.min_y <= b.max_y);
    }
}

/// Every glyph with a box fits into the atlas: its column plus its width
/// stays within the atlas width, and one row of padding plus its height
/// within the atlas height.
pub proof fn lemma_glyphs_fit(boxes: Seq<Option<GlyphBox>>, k: int)
    requires
        boxes_valid(boxes),
        0 <= k < boxes.len(),
        boxes[k] is Some,
    ensures
        glyph_x(boxes, k) + box_width(boxes[k]->0) <= atlas_width(boxes),
        1 + box_height(boxes[k]->0) <= atlas_height(boxes),
{
    let n = boxes.len() as int;
    lemma_prefix_bounds(boxes, k + 1, n);
    lemma_prefix_bounds(boxes, 0, k);
    assert(placed_width(boxes, k + 1) == placed_width(boxes, k) + box_width(boxes[k]->0));
    assert(placed_count(boxes, k + 1) == placed_count(boxes, k) + 1);
    assert(max_height(boxes, k + 1) >= box_height(boxes[k]->0));
}

/// Glyphs do not overlap: the next glyph with a box starts at least one
/// pixel after the end of an earlier one.
pub proof fn lemma_glyphs_apart(boxes: Seq<Option<GlyphBox>>, k: int, l: int)
    requires
        boxes_valid(boxes),
        0 <= k < l < boxes.len(),
        boxes[k] is Some,
    ensures
        glyph_x(boxes, k) + box_width(boxes[k]->0) + 1 <= glyph_x(boxes, l),
{
    lemma_prefix_bounds(boxes, k + 1, l);
    assert(placed_width(boxes, k + 1) == placed_width(boxes, k) + box_width(boxes[k]->0));
    assert(placed_count(boxes, k + 1) == placed_count(boxes, k) + 1);
}

/// The glyph data of the glyphs with a box among the first `n`, in order.
pub open spec fn packed_glyphs(characters: Seq<char>, boxes: Seq<Option<GlyphBox>>, n: int) -> Seq<GlyphData>
    decreases n,
{
    if n <= 0 {
        Seq::empty()
    } else {
        let prev = packed_glyphs(characters, boxes, n - 1);
        match boxes[n - 1] {
            Some(b) => prev.push(glyph_data_of(characters, boxes, n - 1, b)),
            None => prev,
        }
    }
}

/// The top-left corners of the glyphs with a box among the first `n`, in order.
pub open spec fn packed_offsets(boxes: Seq<Option<GlyphBox>>, n: int) -> Seq<(u32, u32)>
    decreases n,
{
    if n <= 0 {
        Seq::empty()
    } else {
        let prev = packed_offsets(boxes, n - 1);
        match boxes[n - 1] {
            Some(b) => prev.push((glyph_x(boxes, n - 1) as u32, 1u32)),
            None => prev,
        }
    }
}

fn place_glyph(
    characters: &str,
    nchars: usize,
    b: GlyphBox,
    x: u32,
    offsets: &mut Vec<(u32, u32)>,
    glyphs: &mut Vec<GlyphData>,
) -> (r: Option<u32>)
    requires
        nchars == characters@.len(),
        b.min_x <= b.max_x,
        b.min_y <= b.max_y,
        box_width(b) <= i32::MAX,
        box_height(b) <= i32::MAX,
        x + box_width(b) + 1 <= u32::MAX,
    ensures
        r is None ==> old(glyphs)@.len() >= nchars && final(glyphs)@ == old(glyphs)@ && final(offsets)@ == old(offsets)@,
        r matches Some(nx) ==> {
            &&& old(glyphs)@.len() < nchars
            &&& nx == x + box_width(b) + 1
            &&& final(offsets)@ == old(offsets)@.push((x, 1u32))
            &&& final(glyphs)@ == old(glyphs)@.push(
                GlyphData {
                    character: characters@[old(glyphs)@.len() as int],
                    x: b.min_x as u32,
                    y: b.min_y as u32,
                    width: box_width(b) as u32,
                    height: box_height(b) as u32,
                },
            )
        },
{
    let m = glyphs.len();
    if m >= nchars {
        return None;
    }
    let bw = (b.max_x - b.min_x) as u32;
    let bh = (b.max_y - b.min_y) as u32;
    let c = characters.get_char(m);
    offsets.push((x, 1));
    glyphs.push(GlyphData { character: c, x: b.min_x as u32, y: b.min_y as u32, width: bw, height: bh });
    Some(x + bw + 1)
}

/// Packs the glyphs into one row of an atlas: each glyph with a bounding
/// box is placed after the previous one with one pixel of space, one pixel
/// below the top, and gets the next of `characters`. The atlas is as wide as
/// all boxes plus one pixel per glyph and ten pixels higher than the highest
/// box, so every glyph fits (see `lemma_glyphs_fit`). Refused when there are
/// more glyphs with a box than characters.
pub fn pack_glyphs(characters: &str, boxes: &[Option<GlyphBox>]) -> (r: Result<AtlasLayout, String>)
    requires
        boxes_valid(boxes@),
        atlas_width(boxes@) < u32::MAX,
        atlas_height(boxes@) <= u32::MAX,
    ensures
        placed_count(boxes@, boxes@.len() as int) > characters@.len() ==> (r matches Err(m) && m@
            == "Failed to get character by index"@),
        placed_count(boxes@, boxes@.len() as int) <= characters@.len() ==> r is Ok,
        r matches Ok(l) ==> {
            &&& l.width == atlas_width(boxes@)
            &&& l.height == atlas_height(boxes@)
            &&& l.offsets@ == packed_offsets(boxes@, boxes@.len() as int)
            &&& l.glyphs@ == packed_glyphs(characters@, boxes@, boxes@.len() as int)
        },
{
    let n = boxes.len();
    proof {
        lemma_prefix_bounds(boxes@, 0, n as int);
    }
    let mut w: u32 = 0;
    let mut h: u32 = 0;
    let mut i: usize = 0;
    while i < n
        invariant
            n == boxes@.len(),
            i <= n,
            boxes_valid(boxes@),
            atlas_width(boxes@) < u32::MAX,
            atlas_height(boxes@) <= u32::MAX,
            w == placed_width(boxes@, i as int),
            h == max_height(boxes@, i as int),
        decreases n - i,
    {
        proof {
            lemma_prefix_bounds(boxes@, i as int + 1, n as int);
            lemma_nonneg(boxes@, i as int);
            assert(boxes@[i as int] matches Some(b) ==> b.min_x <= b.max_x && b.min_y <= b.max_y
                && b.max_x - b.min_x <= i32::MAX && b.max_y - b.min_y <= i32::MAX);
        }
        match boxes[i] {
            Some(b) => {
                let bw = (b.max_x - b.min_x) as u32;
                let bh = (b.max_y - b.min_y) as u32;
                w = w + bw;
                if bh > h {
                    h = bh;
                }
            },
            None => {},
        }
        i = i + 1;
    }
    w = w + n as u32;
    h = h + 10;
    let nchars = characters.unicode_len();
    let mut x: u32 = 1;
    let mut offsets: Vec<(u32, u32)> = Vec::new();
    let mut glyphs: Vec<GlyphData> = Vec::new();
    i = 0;
    while i < n
        invariant
            n == boxes@.len(),
            i <= n,
            nchars == characters@.len(),
            boxes_valid(boxes@),
            atlas_width(boxes@) < u32::MAX,
            atlas_height(boxes@) <= u32::MAX,
            w == atlas_width(boxes@),
            h == atlas_height(boxes@),
            x == glyph_x(boxes@, i as int),
            offsets@ == packed_offsets(boxes@, i as int),
            glyphs@ == packed_glyphs(characters@, boxes@, i as int),
            glyphs@.len() == placed_count(boxes@, i as int),
            placed_count(boxes@, i as int) <= nchars,
        decreases n - i,
    {
        proof {
            lemma_prefix_bounds(boxes@, i as int + 1, n as int);
            lemma_prefix_bounds(boxes@, 0, i as int);
            assert(boxes@[i as int] matches Some(b) ==> b.min_x <= b.max_x && b.min_y <= b.max_y
                && b.max_x - b.min_x <= i32::MAX && b.max_y - b.min_y <= i32::MAX);
        }
        match boxes[i] {
            Some(b) => {
                proof {
                    lemma_glyphs_fit(boxes@, i as int);
                    assert(placed_count(boxes@, i as int + 1) == placed_count(boxes@, i as int) + 1);
                    assert(placed_width(boxes@, i as int + 1) == placed_width(boxes@, i as int) + box_width(b));
                }
                let ghost offsets0 = offsets@;
                let ghost glyphs0 = glyphs@;
                match place_glyph(characters, nchars, b, x, &mut offsets, &mut glyphs) {
                    Some(nx) => {
                        x = nx;
                    },
                    None => {
                        proof {
                            lemma_prefix_bounds(boxes@, i as int + 1, n as int);
                        }
                        return Err("Failed to get character by index".to_owned());
                    },
                }
            },
            None => {
                assert(placed_count(boxes@, i as int + 1) == placed_count(boxes@, i as int));
            },
        }
        i = i + 1;
    }
    Ok(AtlasLayout { width: w, height: h, offsets, glyphs })
}

// ---------------------------------------------------------------------------
// Glyph mapping as XML
// ---------------------------------------------------------------------------

/// `a` comes no later than `b`: by column, then by row.
pub open spec fn position_le(a: GlyphData, b: GlyphData) -> bool {
    a.x < b.x || (a.x == b.x && a.y <= b.y)
}

/// The glyphs are ordered by column, then by row.
pub open spec fn sorted_by_position(s: Seq<GlyphData>) -> bool {
    forall|i: int, j: int| 0 <= i < j < s.len() ==> position_le(#[trigger] s[i], #[trigger] s[j])
}

/// The XML element describing one glyph, on a line of its own.
pub open spec fn glyph_line(g: GlyphData) -> Seq<char> {
    "\t<GlyphData character=\""@ + seq![g.character] + "\" x=\""@ + dec(g.x as nat) + "\" y=\""@ + dec(
        g.y as nat,
    ) + "\" width=\""@ + dec(g.width as nat) + "\" height=\""@ + dec(g.height as nat) + "\" />\n"@
}

/// The lines of the glyphs, in order.
pub open spec fn glyph_lines(s: Seq<GlyphData>) -> Seq<char>
    decreases s.len(),
{
    if s.len() == 0 {
        Seq::empty()
    } else {
        glyph_lines(s.drop_last()) + glyph_line(s.last())
    }
}

/// The XML document listing the glyphs in the given order.
pub open spec fn mapping_xml(s: Seq<GlyphData>) -> Seq<char> {
    "<?xml version=\"1.0\" encoding=\"UTF-8\"?>\n<GlyphMapping>\n"@ + glyph_lines(s) + "</GlyphMapping>\n"@
}

fn position_le_exec(a: &GlyphData, b: &GlyphData) -> (r: bool)
    ensures
        r == position_le(*a, *b),
{
    a.x < b.x || (a.x == b.x && a.y <= b.y)
}

/// The glyphs ordered by column, then by row.
fn sort_by_position(glyphs: &[GlyphData]) -> (r: Vec<GlyphData>)
    ensures
        sorted_by_position(r@),
        r@.to_multiset() == glyphs@.to_multiset(),
{
    broadcast use vstd::seq_lib::group_seq_properties;
    let mut sorted: Vec<GlyphData> = Vec::new();
    let mut i: usize = 0;
    while i < glyphs.len()
        invariant
            i <= glyphs@.len(),
            sorted_by_position(sorted@),
            sorted@.to_multiset() == glyphs@.take(i as int).to_multiset(),
        decreases glyphs@.len() - i,
    {
        let g = glyphs[i];
        let mut pos: usize = 0;
        while pos < sorted.len() && position_le_exec(&sorted[pos], &g)
            invariant
                pos <= sorted@.len(),
                forall|j: int| 0 <= j < pos ==> position_le(#[trigger] sorted@[j], g),
            decreases sorted@.len() - pos,
        {
            pos = pos + 1;
        }
        let ghost before = sorted@;
        proof {
            assert forall|j: int| pos <= j < before.len() implies !position_le(#[trigger] before[j], g) by {
                if position_le(before[j], g) {
                    assert(!position_le(before[pos as int], g));
                    assert(position_le(before[pos as int], before[j]));
                }
            }
        }
        sorted.insert(pos, g);
        proof {
            assert(sorted@ == before.insert(pos as int, g));
            assert forall|a: int, b: int| 0 <= a < b < sorted@.len() implies position_le(
                #[trigger] sorted@[a],
                #[trigger] sorted@[b],
            ) by {
                if a < pos && b < pos {
                    assert(position_le(before[a], before[b]));
                } else if a < pos && b == pos {
                } else if a < pos {
                    assert(position_le(before[a], before[b - 1]));
                } else if a == pos {
                    assert(!position_le(before[b - 1], g));
                } else {
                    assert(position_le(before[a - 1], before[b - 1]));
                }
            }
            assert(glyphs@.take(i as int + 1) =~= glyphs@.take(i as int).push(g));
            vstd::seq_lib::to_multiset_insert(before, pos as int, g);
            glyphs@.take(i as int).to_multiset_ensures();
        }
        i = i + 1;
    }
    assert(glyphs@.take(glyphs@.len() as int) =~= glyphs@);
    sorted
}

fn push_glyph_line(xml: &mut String, g: GlyphData)
    ensures
        final(xml)@ == old(xml)@ + glyph_line(g),
{
    xml.append("\t<GlyphData character=\"");
    push_char(xml, g.character);
    xml.append("\" x=\"");
    push_decimal(xml, g.x as u128);
    xml.append("\" y=\"");
    push_decimal(xml, g.y as u128);
    xml.append("\" width=\"");
    push_decimal(xml, g.width as u128);
    xml.append("\" height=\"");
    push_decimal(xml, g.height as u128);
    xml.append("\" />\n");
    assert(final(xml)@ =~= old(xml)@ + glyph_line(g));
}

/// The XML document mapping each glyph to its rectangle, the glyphs in the
/// order given.
pub fn glyph_list_xml(glyphs: &[GlyphData]) -> (r: String)
    ensures
        r@ == mapping_xml(glyphs@),
{
    let mut xml = String::from_str("<?xml version=\"1.0\" encoding=\"UTF-8\"?>\n<GlyphMapping>\n");
    let ghost header = xml@;
    let mut i: usize = 0;
    while i < glyphs.len()
        invariant
            i <= glyphs@.len(),
            xml@ == header + glyph_lines(glyphs@.take(i as int)),
        decreases glyphs@.len() - i,
    {
        let g = glyphs[i];
        push_glyph_line(&mut xml, g);
        proof {
            assert(glyphs@.take(i as int + 1).drop_last() =~= glyphs@.take(i as int));
            assert(glyphs@.take(i as int + 1).last() == g);
            assert(xml@ =~= header + glyph_lines(glyphs@.take(i as int + 1)));
        }
        i = i + 1;
    }
    xml.append("</GlyphMapping>\n");
    assert(glyphs@.take(glyphs@.len() as int) =~= glyphs@);
    assert(mapping_xml(glyphs@) =~= xml@);
    xml
}

/// The XML document mapping each glyph to its rectangle, the glyphs ordered
/// by column, then by row.
pub fn glyph_mapping_xml(glyphs: &[GlyphData]) -> (r: String)
    ensures
        exists|s: Seq<GlyphData>|
            {
                &&& sorted_by_position(s)
                &&& s.to_multiset() == glyphs@.to_multiset()
                &&& #[trigger] mapping_xml(s) == r@
            },
{
    let sorted = sort_by_position(glyphs);
    glyph_list_xml(sorted.as_slice())
}

} // verus!
