use bevy_sdf_text::atlas::AtlasPlan;
use bevy_sdf_text::atlas_image::{decode_atlas_image, encode_atlas_image, AtlasImageError};
use bevy_sdf_text::grid::AtlasGrid;
use bevy_sdf_text::font::{char_glyphs, parse_ab_font, FontFace, FontFaceError, FontMetrics, GlyphMetrics};
use bevy_sdf_text::outline::parse_outline_face;

fn be16(v: &mut Vec<u8>, x: u16) {
    v.extend_from_slice(&x.to_be_bytes());
}

fn be32(v: &mut Vec<u8>, x: u32) {
    v.extend_from_slice(&x.to_be_bytes());
}

/// A TrueType font with three glyphs: .notdef, space (U+0020) and 'A' (U+0041, a rectangle
/// from (100, 0) to (500, 700)); the character map covers U+0020..=U+0041.
fn tiny_font() -> Vec<u8> {
    // cmap: one Unicode record pointing at a format 6 subtable
    let mut cmap = Vec::new();
    be16(&mut cmap, 0);
    be16(&mut cmap, 1);
    be16(&mut cmap, 0);
    be16(&mut cmap, 3);
    be32(&mut cmap, 12);
    be16(&mut cmap, 6);
    be16(&mut cmap, 10 + 2 * 34);
    be16(&mut cmap, 0);
    be16(&mut cmap, 0x20);
    be16(&mut cmap, 34);
    for i in 0..34u16 {
        be16(&mut cmap, if i == 0 { 1 } else if i == 33 { 2 } else { 0 });
    }
    // glyf: the rectangle glyph
    let mut glyf = Vec::new();
    be16(&mut glyf, 1);
    for x in [100u16, 0, 500, 700] {
        be16(&mut glyf, x);
    }
    be16(&mut glyf, 3);
    be16(&mut glyf, 0);
    glyf.extend_from_slice(&[1, 1, 1, 1]);
    for dx in [100i16, 400, 0, -400] {
        be16(&mut glyf, dx as u16);
    }
    for dy in [0i16, 0, 700, 0] {
        be16(&mut glyf, dy as u16);
    }
    // head
    let mut head = Vec::new();
    be32(&mut head, 0x0001_0000);
    be32(&mut head, 0x0001_0000);
    be32(&mut head, 0);
    be32(&mut head, 0x5F0F_3CF5);
    be16(&mut head, 0);
    be16(&mut head, 1000);
    head.extend_from_slice(&[0; 16]);
    for x in [0u16, 0, 600, 700] {
        be16(&mut head, x);
    }
    be16(&mut head, 0);
    be16(&mut head, 8);
    be16(&mut head, 2);
    be16(&mut head, 0);
    be16(&mut head, 0);
    // hhea
    let mut hhea = Vec::new();
    be32(&mut hhea, 0x0001_0000);
    be16(&mut hhea, 800);
    be16(&mut hhea, (-200i16) as u16);
    be16(&mut hhea, 90);
    hhea.extend_from_slice(&[0; 24]);
    be16(&mut hhea, 3);
    // hmtx
    let mut hmtx = Vec::new();
    for (adv, lsb) in [(500u16, 0u16), (250, 0), (600, 100)] {
        be16(&mut hmtx, adv);
        be16(&mut hmtx, lsb);
    }
    // loca (short offsets, halved)
    let mut loca = Vec::new();
    for off in [0u16, 0, 0, (glyf.len() / 2) as u16] {
        be16(&mut loca, off);
    }
    // maxp
    let mut maxp = Vec::new();
    be32(&mut maxp, 0x0000_5000);
    be16(&mut maxp, 3);

    let tables: [(&[u8; 4], Vec<u8>); 7] = [
        (b"cmap", cmap),
        (b"glyf", glyf),
        (b"head", head),
        (b"hhea", hhea),
        (b"hmtx", hmtx),
        (b"loca", loca),
        (b"maxp", maxp),
    ];
    let mut font = Vec::new();
    be32(&mut font, 0x0001_0000);
    be16(&mut font, tables.len() as u16);
    be16(&mut font, 0);
    be16(&mut font, 0);
    be16(&mut font, 0);
    let mut offset = 12 + 16 * tables.len() as u32;
    for (tag, data) in tables.iter() {
        font.extend_from_slice(&tag[..]);
        be32(&mut font, 0);
        be32(&mut font, offset);
        be32(&mut font, data.len() as u32);
        offset += data.len() as u32;
    }
    for (_, data) in tables.iter() {
        font.extend_from_slice(data);
    }
    font
}

#[test]
fn font_face_rejects_non_fonts() {
    assert!(matches!(
        FontFace::parse(&[]).err(),
        Some(FontFaceError::Parse(owned_ttf_parser::FaceParsingError::UnknownMagic))
    ));
    assert!(matches!(FontFace::parse(b"not a font at all").err(), Some(FontFaceError::Parse(_))));
    // a font header with no tables lacks the required `head` table
    let header_only = [0u8, 1, 0, 0, 0, 0, 0, 0, 0, 0, 0, 0];
    assert!(matches!(
        FontFace::parse(&header_only).err(),
        Some(FontFaceError::Parse(owned_ttf_parser::FaceParsingError::NoHeadTable))
    ));
}

#[test]
fn font_metrics_of_tiny_font() {
    let data = tiny_font();
    let face = FontFace::parse(&data).ok().expect("tiny font parses");
    let metrics = FontMetrics::new(&face).expect("space glyph has an advance");
    assert_eq!(
        metrics,
        FontMetrics {
            glyph_count: 3,
            units_per_em: 1000,
            ascender: 800,
            descender: -200,
            line_gap: 90,
            space_advance: 250,
        }
    );
}

#[test]
fn glyph_metrics_of_tiny_font() {
    let data = tiny_font();
    let face = FontFace::parse(&data).ok().unwrap();
    assert_eq!(
        GlyphMetrics::for_glyph(&face, 2),
        Some(GlyphMetrics { advance: 600, bearing: 100, x_min: 100, y_min: 0, x_max: 500, y_max: 700 })
    );
    // the space glyph has no outline, hence no bounding box
    assert_eq!(GlyphMetrics::for_glyph(&face, 1), None);
    // glyph ids past the font have no metrics
    assert_eq!(GlyphMetrics::for_glyph(&face, 9), None);
}

#[test]
fn char_glyphs_keeps_mapped_chars_in_order() {
    let data = tiny_font();
    let face = FontFace::parse(&data).ok().unwrap();
    let chars = vec!['B', 'A', ' ', '字', 'A'];
    assert_eq!(char_glyphs(&face, &chars), vec![('A', 2), (' ', 1), ('A', 2)]);
    assert_eq!(char_glyphs(&face, &vec![]), vec![]);
}

#[test]
fn atlas_plan_skips_white_space_but_keeps_its_cell() {
    let data = tiny_font();
    let face = FontFace::parse(&data).ok().unwrap();
    let entries = char_glyphs(&face, &vec![' ', 'A', '!']);
    assert_eq!(entries, vec![(' ', 1), ('A', 2), ('!', 0)]);
    let plan = AtlasPlan::new(&face, &entries, 64, 8);
    assert_eq!(plan.grid.rows, 1);
    assert_eq!(plan.grid.image_width, 72 * 16);
    assert_eq!(plan.grid.image_height, 72);
    assert_eq!(plan.glyphs.len(), 2);
    assert_eq!(plan.glyphs[0].char, 'A');
    assert_eq!(plan.glyphs[0].glyph_id, 2);
    assert_eq!(plan.glyphs[0].cell, 1);
    assert_eq!(
        plan.glyphs[0].metrics,
        Some(GlyphMetrics { advance: 600, bearing: 100, x_min: 100, y_min: 0, x_max: 500, y_max: 700 })
    );
    assert_eq!(plan.glyphs[1].char, '!');
    assert_eq!(plan.glyphs[1].cell, 2);
    // .notdef has no outline in this font
    assert_eq!(plan.glyphs[1].metrics, None);
}

fn encode_png(img: image::DynamicImage) -> Vec<u8> {
    let mut out = std::io::Cursor::new(Vec::new());
    img.write_to(&mut out, image::ImageFormat::Png).unwrap();
    out.into_inner()
}

#[test]
fn atlas_image_decodes_rgba16() {
    let samples: Vec<u16> = vec![0, 1, 2, 3, 65535, 40000, 30000, 20000];
    let buf = image::ImageBuffer::<image::Rgba<u16>, Vec<u16>>::from_raw(2, 1, samples.clone()).unwrap();
    let png = encode_png(image::DynamicImage::ImageRgba16(buf));
    let img = decode_atlas_image(&png).ok().expect("rgba16 png decodes");
    assert_eq!((img.width, img.height), (2, 1));
    assert_eq!(img.samples, samples);
}

#[test]
fn atlas_image_rejects_other_formats() {
    let buf = image::ImageBuffer::<image::Rgba<u8>, Vec<u8>>::from_raw(1, 1, vec![1, 2, 3, 4]).unwrap();
    let png = encode_png(image::DynamicImage::ImageRgba8(buf));
    assert!(matches!(decode_atlas_image(&png), Err(AtlasImageError::NotRgba16)));
    assert!(matches!(decode_atlas_image(b"garbage"), Err(AtlasImageError::Decode(_))));
}

#[test]
fn encoded_atlas_image_decodes_back() {
    let grid = AtlasGrid::new(2, 1, 17);
    assert_eq!((grid.image_width, grid.image_height), (48, 6));
    let samples: Vec<u16> = (0..4 * 48 * 6).map(|i| (i * 181 % 65536) as u16).collect();
    let png = encode_atlas_image(&grid, samples.clone()).ok().expect("atlas encodes");
    assert_eq!(&png[1..4], b"PNG");
    let img = decode_atlas_image(&png).ok().expect("encoded atlas decodes");
    assert_eq!((img.width, img.height), (48, 6));
    assert_eq!(img.samples, samples);
}

#[test]
fn empty_atlas_image_does_not_encode() {
    let grid = AtlasGrid::new(0, 0, 1);
    assert_eq!((grid.image_width, grid.image_height), (0, 0));
    assert!(matches!(encode_atlas_image(&grid, Vec::new()), Err(AtlasImageError::Encode(_))));
}

#[test]
fn layout_font_parses_like_font_face() {
    let data = tiny_font();
    assert!(FontFace::parse(&data).is_ok());
    assert!(parse_ab_font(data.clone()).is_ok());
    assert!(FontFace::parse(b"not a font").is_err());
    assert!(parse_ab_font(b"not a font".to_vec()).is_err());
    let mut truncated = data.clone();
    truncated.truncate(20);
    assert_eq!(FontFace::parse(&truncated).is_ok(), parse_ab_font(truncated.clone()).is_ok());
}

#[test]
fn outline_face_parses_fonts_only() {
    let data = tiny_font();
    let face = parse_outline_face(&data).ok().expect("tiny font parses for outlines");
    assert_eq!(face.number_of_glyphs(), 3);
    assert!(parse_outline_face(b"not a font").is_err());
    assert!(parse_outline_face(&[]).is_err());
}
