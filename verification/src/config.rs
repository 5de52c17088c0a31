//! Settings of an atlas built from a font file.
use vstd::prelude::*;

verus! {

/// Default size in pixels of one glyph bitmap.
pub const DEFAULT_CHAR_SIZE: u32 = 64;

/// Default gap in pixels between glyph bitmaps.
pub const DEFAULT_CHAR_GAP: u32 = 8;

/// Default distance range of the signed distance field, in pixels.
pub const DEFAULT_PX_RANGE: u32 = 4;

/// Where to read a font and how to lay out its MTSDF atlas.
#[derive(Clone, Debug)]
pub struct MtsdfAtlasConfig {
    pub font_path: String,
    pub char_size: u32,
    pub char_gap: u32,
    pub px_range: u32,
}

impl MtsdfAtlasConfig {
    /// Settings for the font at `font_path`: 64 pixel glyphs, 8 pixel gaps, a 4 pixel range.
    pub fn new(font_path: String) -> (config: MtsdfAtlasConfig)
        ensures
            config.font_path@ == font_path@,
            config.char_size == 64,
            config.char_gap == 8,
            config.px_range == 4,
    {
        MtsdfAtlasConfig {
            font_path,
            char_size: DEFAULT_CHAR_SIZE,
            char_gap: DEFAULT_CHAR_GAP,
            px_range: DEFAULT_PX_RANGE,
        }
    }
}

} // verus!
