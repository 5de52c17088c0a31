//! The asset loader of SDF font files.
use vstd::prelude::*;

verus! {

/// File extension of serialized SDF fonts.
pub const SDF_FONT_EXTENSION: &'static str = "sdfb";

/// Loads SDF font assets (`.sdfb` files).
#[derive(Clone, Copy, Debug)]
pub struct SdfFontLoader;

impl SdfFontLoader {
    /// The file extensions that the loader handles: only `sdfb`.
    pub fn extensions(&self) -> (r: Vec<&'static str>)
        ensures
            r@.len() == 1,
            r@[0]@ == SDF_FONT_EXTENSION@,
    {
        let mut r: Vec<&'static str> = Vec::new();
        r.push(SDF_FONT_EXTENSION);
        r
    }
}

impl Default for SdfFontLoader {
    fn default() -> (r: SdfFontLoader) {
        SdfFontLoader
    }
}

} // verus!
