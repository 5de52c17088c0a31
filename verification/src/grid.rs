//! Placement of glyph cells inside an SDF atlas image.
//!
//! An atlas is a grid of `ATLAS_COLUMNS` columns. Every glyph of the atlas, in the order of
//! the glyph list, owns one cell of `char_size + char_gap` pixels in each direction; the glyph
//! bitmap itself (`char_size` pixels square) sits `char_gap / 2` pixels inside its cell and is
//! copied upside down, so that the first bitmap row lands on the last image row of the cell.
use vstd::prelude::*;

verus! {

/// Number of glyph cells in one atlas row.
pub const ATLAS_COLUMNS: u32 = 16;

/// Number of rows needed for `glyph_count` cells.
pub open spec fn spec_rows(glyph_count: int) -> int {
    (glyph_count + 15) / 16
}

/// Distance in pixels between the starts of two neighbouring cells.
pub open spec fn spec_pitch(char_size: int, char_gap: int) -> int {
    char_size + char_gap
}

/// Top-left pixel of the glyph bitmap of cell `index`.
pub open spec fn spec_origin(char_size: int, char_gap: int, index: int) -> (int, int) {
    (
        char_gap / 2 + (index % 16) * spec_pitch(char_size, char_gap),
        char_gap / 2 + (index / 16) * spec_pitch(char_size, char_gap),
    )
}

/// Image pixel that receives bitmap pixel `(x, y)` of cell `index` (rows are flipped).
pub open spec fn spec_dest_pixel(char_size: int, char_gap: int, index: int, x: int, y: int) -> (
    int,
    int,
) {
    let o = spec_origin(char_size, char_gap, index);
    (o.0 + x, o.1 + char_size - 1 - y)
}

/// The sizes of an atlas grid (glyph cells, grid and image) for a number of glyphs.
#[derive(Clone, Copy, Debug, PartialEq, Eq, Structural)]
pub struct AtlasGrid {
    /// Width and height of one glyph bitmap in pixels.
    pub char_size: u32,
    /// Gap in pixels between two neighbouring glyph bitmaps.
    pub char_gap: u32,
    /// Number of cell columns (always `ATLAS_COLUMNS`).
    pub columns: u32,
    /// Number of cell rows.
    pub rows: u32,
    /// Width of the atlas image in pixels.
    pub image_width: u32,
    /// Height of the atlas image in pixels.
    pub image_height: u32,
}

/// The arithmetic of an atlas for `glyph_count` glyphs stays inside `u32`.
pub open spec fn grid_fits(char_size: u32, char_gap: u32, glyph_count: int) -> bool {
    &&& 0 <= glyph_count
    &&& glyph_count + 15 <= u32::MAX
    &&& spec_pitch(char_size as int, char_gap as int) * 16 <= u32::MAX
    &&& spec_pitch(char_size as int, char_gap as int) * spec_rows(glyph_count) <= u32::MAX
}

impl AtlasGrid {
    /// The grid that `new` lays out for `glyph_count` glyphs.
    pub open spec fn new_spec(char_size: u32, char_gap: u32, glyph_count: int) -> AtlasGrid {
        let pitch = spec_pitch(char_size as int, char_gap as int);
        AtlasGrid {
            char_size,
            char_gap,
            columns: ATLAS_COLUMNS,
            rows: spec_rows(glyph_count) as u32,
            image_width: (pitch * 16) as u32,
            image_height: (pitch * spec_rows(glyph_count)) as u32,
        }
    }

    /// The grid is the one that `new` computes for some glyph count.
    pub open spec fn wf(self) -> bool {
        let pitch = spec_pitch(self.char_size as int, self.char_gap as int);
        &&& self.columns == ATLAS_COLUMNS
        &&& pitch * 16 <= u32::MAX
        &&& self.image_width == pitch * 16
        &&& self.image_height == pitch * self.rows
    }

    /// Number of cells of the grid.
    pub open spec fn capacity(self) -> int {
        16 * self.rows
    }

    /// Top-left pixel of the bitmap of cell `index` in this grid.
    pub open spec fn origin(self, index: int) -> (int, int) {
        spec_origin(self.char_size as int, self.char_gap as int, index)
    }

    /// Image pixel that receives bitmap pixel `(x, y)` of cell `index` in this grid.
    pub open spec fn dest(self, index: int, x: int, y: int) -> (int, int) {
        spec_dest_pixel(self.char_size as int, self.char_gap as int, index, x, y)
    }

    /// Lays out a grid for `glyph_count` glyphs of `char_size` pixels separated by `char_gap`.
    pub fn new(char_size: u32, char_gap: u32, glyph_count: usize) -> (grid: AtlasGrid)
        requires
            grid_fits(char_size, char_gap, glyph_count as int),
        ensures
            grid == AtlasGrid::new_spec(char_size, char_gap, glyph_count as int),
            grid.wf(),
            grid.char_size == char_size,
            grid.char_gap == char_gap,
            grid.columns == 16,
            grid.rows == spec_rows(glyph_count as int),
            grid.image_width == spec_pitch(char_size as int, char_gap as int) * 16,
            grid.image_height == spec_pitch(char_size as int, char_gap as int) * spec_rows(
                glyph_count as int,
            ),
            grid.capacity() >= glyph_count,
    {
        let count = glyph_count as u32;
        let rows = (count + 15) / 16;
        let pitch = char_size + char_gap;
        AtlasGrid {
            char_size,
            char_gap,
            columns: ATLAS_COLUMNS,
            rows,
            image_width: pitch * ATLAS_COLUMNS,
            image_height: pitch * rows,
        }
    }

    /// Grid coordinates `(column, row)` of cell `index`.
    pub fn cell(&self, index: u32) -> (cell: (u32, u32))
        ensures
            cell.0 == index % 16,
            cell.1 == index / 16,
    {
        (index % ATLAS_COLUMNS, index / ATLAS_COLUMNS)
    }

    /// Top-left pixel of the glyph bitmap of cell `index`.
    pub fn origin_of(&self, index: u32) -> (origin: (u32, u32))
        requires
            self.wf(),
            index < self.capacity(),
        ensures
            origin.0 == self.origin(index as int).0,
            origin.1 == self.origin(index as int).1,
    {
        let pitch = self.char_size + self.char_gap;
        let column = index % ATLAS_COLUMNS;
        let row = index / ATLAS_COLUMNS;
        proof {
            assert(row < self.rows) by {
                assert(index < 16 * self.rows);
            }
            lemma_cell_offsets_fit(
                self.char_size as int,
                self.char_gap as int,
                column as int,
                row as int,
                self.rows as int,
            );
        }
        (self.char_gap / 2 + column * pitch, self.char_gap / 2 + row * pitch)
    }

    /// Image pixel that receives pixel `(x, y)` of the bitmap of cell `index`.
    pub fn dest_pixel(&self, index: u32, x: u32, y: u32) -> (pixel: (u32, u32))
        requires
            self.wf(),
            index < self.capacity(),
            x < self.char_size,
            y < self.char_size,
        ensures
            pixel.0 == self.dest(index as int, x as int, y as int).0,
            pixel.1 == self.dest(index as int, x as int, y as int).1,
            pixel.0 < self.image_width,
            pixel.1 < self.image_height,
    {
        proof {
            lemma_atlas_pixels_in_image(*self, index as int, x as int, y as int);
        }
        let origin = self.origin_of(index);
        (origin.0 + x, origin.1 + (self.char_size - 1 - y))
    }

    /// Pixel bounds `(x0, y0, x1, y1)` of the glyph box of cell `index`, widened by half the
    /// distance range on each side: `origin - px_range / 2` and `origin + px_range / 2`.
    pub fn margin_bounds(&self, index: u32, px_range: u32) -> (bounds: (u32, u32, u32, u32))
        requires
            self.wf(),
            index < self.capacity(),
            self.origin(index as int).0 >= px_range / 2,
            self.origin(index as int).1 >= px_range / 2,
            self.origin(index as int).0 + px_range / 2 <= u32::MAX,
            self.origin(index as int).1 + px_range / 2 <= u32::MAX,
        ensures
            bounds.0 == self.origin(index as int).0 - px_range / 2,
            bounds.1 == self.origin(index as int).1 - px_range / 2,
            bounds.2 == self.origin(index as int).0 + px_range / 2,
            bounds.3 == self.origin(index as int).1 + px_range / 2,
    {
        let origin = self.origin_of(index);
        let half = px_range / 2;
        (origin.0 - half, origin.1 - half, origin.0 + half, origin.1 + half)
    }
}

/// Cell offsets stay below the image size.
proof fn lemma_cell_offsets_fit(char_size: int, char_gap: int, column: int, row: int, rows: int)
    requires
        0 <= char_size,
        0 <= char_gap,
        0 <= column < 16,
        0 <= row < rows,
    ensures
        char_gap / 2 + column * (char_size + char_gap) + char_size <= (char_size + char_gap) * 16,
        char_gap / 2 + row * (char_size + char_gap) + char_size <= (char_size + char_gap) * rows,
{
    let p = char_size + char_gap;
    assert(column * p <= 15 * p) by (nonlinear_arith)
        requires
            0 <= column < 16,
            0 <= p,
    ;
    assert(row * p <= (rows - 1) * p) by (nonlinear_arith)
        requires
            0 <= row < rows,
            0 <= p,
    ;
    assert((rows - 1) * p + p == p * rows) by (nonlinear_arith);
}

/// Law: every destination pixel of a glyph bitmap lies inside the atlas image.
pub proof fn lemma_atlas_pixels_in_image(grid: AtlasGrid, index: int, x: int, y: int)
    requires
        grid.wf(),
        0 <= index < grid.capacity(),
        0 <= x < grid.char_size,
        0 <= y < grid.char_size,
    ensures
        0 <= grid.dest(index, x, y).0 < grid.image_width,
        0 <= grid.dest(index, x, y).1 < grid.image_height,
{
    let p = grid.char_size + grid.char_gap;
    assert(index / 16 < grid.rows) by {
        assert(index < 16 * grid.rows);
    }
    assert(0 <= (index / 16) * p) by (nonlinear_arith)
        requires
            0 <= index,
            0 <= p,
    ;
    assert(0 <= (index % 16) * p) by (nonlinear_arith)
        requires
            0 <= index % 16,
            0 <= p,
    ;
    lemma_cell_offsets_fit(
        grid.char_size as int,
        grid.char_gap as int,
        index % 16,
        index / 16,
        grid.rows as int,
    );
    assert(16 * p == p * 16) by (nonlinear_arith);
    assert(grid.rows * p == p * grid.rows) by (nonlinear_arith);
}

/// If `a * p + r == b * p + s` with both remainders below `p`, the quotients and remainders agree.
proof fn lemma_unique_pitch_split(a: int, r: int, b: int, s: int, p: int)
    requires
        0 < p,
        0 <= r < p,
        0 <= s < p,
        a * p + r == b * p + s,
    ensures
        a == b,
        r == s,
{
    vstd::arithmetic::div_mod::lemma_fundamental_div_mod_converse(a * p + r, p, a, r);
    vstd::arithmetic::div_mod::lemma_fundamental_div_mod_converse(b * p + s, p, b, s);
}

/// Law: no two bitmap pixels of an atlas land on the same image pixel, and all of them land
/// inside the image. So glyphs never overwrite one another.
pub proof fn lemma_atlas_pixels_disjoint(
    grid: AtlasGrid,
    i1: int,
    x1: int,
    y1: int,
    i2: int,
    x2: int,
    y2: int,
)
    requires
        grid.wf(),
        0 <= i1 < grid.capacity(),
        0 <= i2 < grid.capacity(),
        0 <= x1 < grid.char_size,
        0 <= y1 < grid.char_size,
        0 <= x2 < grid.char_size,
        0 <= y2 < grid.char_size,
        grid.dest(i1, x1, y1) == grid.dest(i2, x2, y2),
    ensures
        i1 == i2,
        x1 == x2,
        y1 == y2,
{
    let p = grid.char_size + grid.char_gap;
    let h = grid.char_gap / 2;
    assert(h + grid.char_size - 1 < p);
    // columns and x offsets
    lemma_unique_pitch_split(i1 % 16, h + x1, i2 % 16, h + x2, p);
    // rows and flipped y offsets
    assert((i1 / 16) * p + (h + grid.char_size - 1 - y1) == (i2 / 16) * p + (h + grid.char_size
        - 1 - y2));
    lemma_unique_pitch_split(i1 / 16, h + grid.char_size - 1 - y1, i2 / 16, h + grid.char_size - 1 - y2, p);
    assert(i1 == 16 * (i1 / 16) + i1 % 16);
    assert(i2 == 16 * (i2 / 16) + i2 % 16);
}

/// Law: an atlas has just enough rows of `ATLAS_COLUMNS` cells for its glyphs: they all fit,
/// and one row fewer would not hold them.
pub proof fn lemma_rows_just_fit(glyph_count: int)
    requires
        0 <= glyph_count,
    ensures
        16 * spec_rows(glyph_count) >= glyph_count,
        glyph_count > 0 ==> 16 * (spec_rows(glyph_count) - 1) < glyph_count,
        glyph_count == 0 ==> spec_rows(glyph_count) == 0,
{
}

/// Law: cells are laid out row by row, `ATLAS_COLUMNS` to a row, each one pitch
/// (`char_size + char_gap`) from its neighbours: the first bitmap starts half a gap inside the
/// image, the next cell in a row starts one pitch to the right, the cell below one pitch lower;
/// and bitmap pixel `(x, y)` lands `x` pixels right of the origin and `char_size - 1 - y` below it.
pub proof fn lemma_cell_layout(char_size: int, char_gap: int, index: int, x: int, y: int)
    requires
        0 <= char_size,
        0 <= char_gap,
        0 <= index,
    ensures
        spec_origin(char_size, char_gap, 0) == (char_gap / 2, char_gap / 2),
        index % 16 != 15 ==> spec_origin(char_size, char_gap, index + 1) == (
            spec_origin(char_size, char_gap, index).0 + (char_size + char_gap),
            spec_origin(char_size, char_gap, index).1,
        ),
        index % 16 == 15 ==> spec_origin(char_size, char_gap, index + 1) == (
            char_gap / 2,
            spec_origin(char_size, char_gap, index).1 + (char_size + char_gap),
        ),
        spec_origin(char_size, char_gap, index + 16) == (
            spec_origin(char_size, char_gap, index).0,
            spec_origin(char_size, char_gap, index).1 + (char_size + char_gap),
        ),
        spec_dest_pixel(char_size, char_gap, index, x, y) == (
            spec_origin(char_size, char_gap, index).0 + x,
            spec_origin(char_size, char_gap, index).1 + char_size - 1 - y,
        ),
{
    let p = char_size + char_gap;
    let c = index % 16;
    let r = index / 16;
    assert(index == 16 * r + c);
    if c != 15 {
        assert((index + 1) % 16 == c + 1 && (index + 1) / 16 == r) by {
            vstd::arithmetic::div_mod::lemma_fundamental_div_mod_converse(index + 1, 16, r, c + 1);
        }
        assert((c + 1) * p == c * p + p) by (nonlinear_arith);
    } else {
        assert((index + 1) % 16 == 0 && (index + 1) / 16 == r + 1) by {
            vstd::arithmetic::div_mod::lemma_fundamental_div_mod_converse(index + 1, 16, r + 1, 0);
        }
        assert((r + 1) * p == r * p + p) by (nonlinear_arith);
    }
    assert((index + 16) % 16 == c && (index + 16) / 16 == r + 1) by {
        vstd::arithmetic::div_mod::lemma_fundamental_div_mod_converse(index + 16, 16, r + 1, c);
    }
    assert((r + 1) * p == r * p + p) by (nonlinear_arith);
}

/// Size of a preview image of `width` x `height` pixels scaled by `scale.0 / scale.1`.
pub open spec fn spec_preview_size(width: int, height: int, num: int, den: int) -> (int, int) {
    (width * num / den, height * num / den)
}

/// Size of the preview image that `export_preview_png` renders: each side multiplied by
/// `scale.0` and divided by `scale.1`.
pub fn preview_size(width: u32, height: u32, scale: (u32, u32)) -> (size: (u32, u32))
    requires
        scale.1 != 0,
        width * scale.0 <= u32::MAX,
        height * scale.0 <= u32::MAX,
    ensures
        size.0 == spec_preview_size(width as int, height as int, scale.0 as int, scale.1 as int).0,
        size.1 == spec_preview_size(width as int, height as int, scale.0 as int, scale.1 as int).1,
{
    (width * scale.0 / scale.1, height * scale.0 / scale.1)
}

/// Law: each side of a preview is the image side scaled by `num / den`, rounded down: the
/// largest whole number of pixels whose `den`-fold is at most `num` times the side.
pub proof fn lemma_preview_size_rounds_down(width: int, height: int, num: int, den: int)
    requires
        0 <= width,
        0 <= height,
        0 <= num,
        0 < den,
    ensures
        spec_preview_size(width, height, num, den).0 * den <= width * num < (spec_preview_size(
            width,
            height,
            num,
            den,
        ).0 + 1) * den,
        spec_preview_size(width, height, num, den).1 * den <= height * num < (spec_preview_size(
            width,
            height,
            num,
            den,
        ).1 + 1) * den,
{
    let a = width * num;
    let b = height * num;
    vstd::arithmetic::div_mod::lemma_fundamental_div_mod(a, den);
    vstd::arithmetic::div_mod::lemma_fundamental_div_mod(b, den);
    assert((a / den) * den == den * (a / den)) by (nonlinear_arith);
    assert((b / den) * den == den * (b / den)) by (nonlinear_arith);
    assert((a / den + 1) * den == den * (a / den) + den) by (nonlinear_arith);
    assert((b / den + 1) * den == den * (b / den) + den) by (nonlinear_arith);
}

} // verus!
