//! Errors of the text library.
use vstd::prelude::*;

verus! {

#[verifier::external_type_specification]
#[verifier::external_body]
pub struct ExIoError(std::io::Error);

#[verifier::external_type_specification]
#[verifier::external_body]
pub struct ExAnyhowError(anyhow::Error);

/// Errors when looking up fonts and glyphs.
#[derive(Clone, Copy, Debug, PartialEq, Eq, Structural)]
pub enum MtsdfTextError {
    /// The font is not known.
    NoSuchFont,
    /// The font has no glyph for the character.
    GlyphNotFound(char),
}

/// Errors of loading an SDF font asset.
#[non_exhaustive]
#[derive(Debug)]
pub enum SdfFontLoaderError {
    /// Reading the asset bytes failed.
    Io(std::io::Error),
    /// The asset bytes are not a serialized SDF font.
    Parse(anyhow::Error),
}

} // verus!
