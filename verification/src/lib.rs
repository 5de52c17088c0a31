//! Verified core of an SDF text renderer: the layout of glyph atlases, the plan of which
//! glyphs an atlas draws and where, font metrics read with `owned_ttf_parser`, the font parses
//! for outlines and layout, the encoding and decoding of stored atlas images, grouping and
//! lookup of laid-out glyphs, mesh index buffers, and the bookkeeping of the text update and
//! immediate-mode drawing passes.

pub mod atlas;
pub mod atlas_image;
pub mod charset;
pub mod config;
pub mod error;
pub mod font;
pub mod font_loader;
pub mod grid;
pub mod layout;
pub mod mesh;
pub mod outline;
pub mod painter;
pub mod text_update;
pub mod writer;
