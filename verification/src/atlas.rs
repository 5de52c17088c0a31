//! The plan of an SDF atlas: which glyphs get a bitmap, in which cell, with which metrics.
//!
//! Rendering the distance fields themselves is floating-point work done by the caller; the
//! plan fixes everything that work is placed by.
use vstd::prelude::*;
use crate::charset::{is_drawable_char, spec_is_drawable_char};
use crate::font::{spec_glyph_metrics, FontFace, GlyphMetrics};
use crate::grid::{grid_fits, lemma_atlas_pixels_disjoint, AtlasGrid};

verus! {

/// A glyph that gets a bitmap in the atlas.
#[derive(Clone, Copy, Debug, PartialEq, Eq, Structural)]
pub struct PlannedGlyph {
    pub char: char,
    pub glyph_id: u16,
    /// Cell of the glyph: its position in the list of characters with glyphs.
    pub cell: u32,
    /// Metrics of the glyph, if the font has all of them.
    pub metrics: Option<GlyphMetrics>,
}

/// The glyphs of `char_glyphs` that get a bitmap, with cells and metrics read from `data`.
pub open spec fn spec_planned_glyphs(data: Seq<u8>, char_glyphs: Seq<(char, u16)>) -> Seq<
    PlannedGlyph,
>
    decreases char_glyphs.len(),
{
    if char_glyphs.len() == 0 {
        Seq::empty()
    } else {
        let prev = spec_planned_glyphs(data, char_glyphs.drop_last());
        let c = char_glyphs.last().0;
        let g = char_glyphs.last().1;
        if spec_is_drawable_char(c) {
            prev.push(
                PlannedGlyph {
                    char: c,
                    glyph_id: g,
                    cell: (char_glyphs.len() - 1) as u32,
                    metrics: spec_glyph_metrics(data, g),
                },
            )
        } else {
            prev
        }
    }
}

/// Grid and glyph placement of an atlas.
#[derive(Clone, Debug)]
pub struct AtlasPlan {
    pub grid: AtlasGrid,
    pub glyphs: Vec<PlannedGlyph>,
}

/// Every planned glyph of `glyphs` has a cell below `count`, in increasing order.
pub open spec fn cells_increasing(glyphs: Seq<PlannedGlyph>, count: int) -> bool {
    &&& forall|k: int| 0 <= k < glyphs.len() ==> #[trigger] glyphs[k].cell < count
    &&& forall|k: int, m: int| 0 <= k < m < glyphs.len() ==> #[trigger] glyphs[k].cell < #[trigger] glyphs[m].cell
}

/// Character of entry `i` of a character list (a `char` result, so its value range is known).
fn entry_char(char_glyphs: &Vec<(char, u16)>, i: usize) -> (c: char)
    requires
        i < char_glyphs@.len(),
    ensures
        c == char_glyphs@[i as int].0,
{
    char_glyphs[i].0
}

impl AtlasPlan {
    /// Plans an atlas of `char_size` pixel glyphs separated by `char_gap` for the characters
    /// and glyph ids of `char_glyphs`: one grid cell per entry, in order; only drawable
    /// characters get a planned bitmap.
    ///
    /// The plan keeps each drawable entry in the cell of its own position, in increasing cell
    /// order inside the grid, so no two planned glyphs share a cell (and, with
    /// `lemma_atlas_pixels_disjoint`, no two bitmaps overlap in the image).
    pub fn new(font: &FontFace, char_glyphs: &Vec<(char, u16)>, char_size: u32, char_gap: u32) -> (plan:
        AtlasPlan)
        requires
            grid_fits(char_size, char_gap, char_glyphs@.len() as int),
        ensures
            plan.grid == AtlasGrid::new_spec(char_size, char_gap, char_glyphs@.len() as int),
            plan.grid.wf(),
            plan.grid.capacity() >= char_glyphs@.len(),
            plan.glyphs@ == spec_planned_glyphs(font.data(), char_glyphs@),
            cells_increasing(plan.glyphs@, char_glyphs@.len() as int),
            forall|k: int|
                0 <= k < plan.glyphs@.len() ==> {
                    let p = #[trigger] plan.glyphs@[k];
                    &&& char_glyphs@[p.cell as int] == (p.char, p.glyph_id)
                    &&& spec_is_drawable_char(p.char)
                    &&& p.metrics == spec_glyph_metrics(font.data(), p.glyph_id)
                },
            forall|i: int|
                0 <= i < char_glyphs@.len() && spec_is_drawable_char(#[trigger] char_glyphs@[i].0)
                    ==> exists|k: int| 0 <= k < plan.glyphs@.len() && plan.glyphs@[k].cell == i,
    {
        let grid = AtlasGrid::new(char_size, char_gap, char_glyphs.len());
        let mut glyphs: Vec<PlannedGlyph> = Vec::new();
        let mut i: usize = 0;
        while i < char_glyphs.len()
            invariant
                i <= char_glyphs@.len(),
                char_glyphs@.len() + 15 <= u32::MAX,
                glyphs@ == spec_planned_glyphs(font.data(), char_glyphs@.take(i as int)),
                cells_increasing(glyphs@, i as int),
                forall|k: int|
                    0 <= k < glyphs@.len() ==> {
                        let p = #[trigger] glyphs@[k];
                        &&& char_glyphs@[p.cell as int] == (p.char, p.glyph_id)
                        &&& spec_is_drawable_char(p.char)
                        &&& p.metrics == spec_glyph_metrics(font.data(), p.glyph_id)
                    },
                forall|j: int|
                    0 <= j < i && spec_is_drawable_char(#[trigger] char_glyphs@[j].0) ==> exists|k: int|
                        0 <= k < glyphs@.len() && glyphs@[k].cell == j,
            decreases char_glyphs@.len() - i,
        {
            let c = entry_char(char_glyphs, i);
            let g = char_glyphs[i].1;
            proof {
                assert(char_glyphs@.take(i + 1).drop_last() =~= char_glyphs@.take(i as int));
                assert(char_glyphs@.take(i + 1).last() == (c, g));
            }
            let ghost before = glyphs@;
            if is_drawable_char(c) {
                let metrics = GlyphMetrics::for_glyph(font, g);
                let planned = PlannedGlyph { char: c, glyph_id: g, cell: i as u32, metrics };
                glyphs.push(planned);
                proof {
                    assert(glyphs@ == before.push(planned));
                    assert forall|k: int, m: int| 0 <= k < m < glyphs@.len() implies #[trigger] glyphs@[k].cell
                        < #[trigger] glyphs@[m].cell by {
                        assert(glyphs@[k] == before[k]);
                        if m < before.len() {
                            assert(glyphs@[m] == before[m]);
                        }
                    }
                    assert forall|j: int|
                        0 <= j < i + 1 && spec_is_drawable_char(#[trigger] char_glyphs@[j].0) implies exists|k: int|
                            0 <= k < glyphs@.len() && glyphs@[k].cell == j by {
                        if j < i {
                            let k = choose|k: int| 0 <= k < before.len() && before[k].cell == j;
                            assert(glyphs@[k] == before[k]);
                        } else {
                            assert(glyphs@[before.len() as int].cell == j);
                        }
                    }
                }
            }
            i = i + 1;
        }
        assert(char_glyphs@.take(char_glyphs@.len() as int) =~= char_glyphs@);
        AtlasPlan { grid, glyphs }
    }
}

/// Law: the bitmaps of two different planned glyphs never share an atlas pixel.
pub proof fn lemma_planned_bitmaps_disjoint(
    grid: AtlasGrid,
    glyphs: Seq<PlannedGlyph>,
    count: int,
    k: int,
    m: int,
    x1: int,
    y1: int,
    x2: int,
    y2: int,
)
    requires
        grid.wf(),
        grid.capacity() >= count,
        cells_increasing(glyphs, count),
        0 <= k < m < glyphs.len(),
        0 <= x1 < grid.char_size,
        0 <= y1 < grid.char_size,
        0 <= x2 < grid.char_size,
        0 <= y2 < grid.char_size,
    ensures
        grid.dest(glyphs[k].cell as int, x1, y1) != grid.dest(glyphs[m].cell as int, x2, y2),
{
    assert(glyphs[k].cell < glyphs[m].cell);
    assert(glyphs[m].cell < count);
    if grid.dest(glyphs[k].cell as int, x1, y1) == grid.dest(glyphs[m].cell as int, x2, y2) {
        lemma_atlas_pixels_disjoint(grid, glyphs[k].cell as int, x1, y1, glyphs[m].cell as int, x2, y2);
    }
}

} // verus!
