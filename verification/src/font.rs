//! Font faces read with `owned_ttf_parser` (its re-export of `ttf_parser`), and the integer
//! metrics that the atlas keeps of them.
use vstd::prelude::*;

verus! {

#[verifier::external_type_specification]
#[verifier::external_body]
pub struct ExFace<'a>(owned_ttf_parser::Face<'a>);

#[verifier::external_type_specification]
#[verifier::external_body]
pub struct ExFaceParsingError(owned_ttf_parser::FaceParsingError);

#[verifier::external_type_specification]
#[verifier::external_body]
pub struct ExFontArc(ab_glyph::FontArc);

#[verifier::external_type_specification]
#[verifier::external_body]
pub struct ExInvalidFont(ab_glyph::InvalidFont);

/// Whether `owned_ttf_parser::Face::parse(data, 0)` accepts the font bytes `data`.
pub uninterp spec fn ttf_face_parses(data: Seq<u8>) -> bool;

/// The glyph id that `owned_ttf_parser::Face::glyph_index` gives for `c` in the face parsed from `data`.
pub uninterp spec fn ttf_glyph_index(data: Seq<u8>, c: char) -> Option<u16>;

/// `owned_ttf_parser::Face::number_of_glyphs` of the face parsed from `data`.
pub uninterp spec fn ttf_number_of_glyphs(data: Seq<u8>) -> u16;

/// `owned_ttf_parser::Face::units_per_em` of the face parsed from `data`.
pub uninterp spec fn ttf_units_per_em(data: Seq<u8>) -> u16;

/// `owned_ttf_parser::Face::ascender` of the face parsed from `data`.
pub uninterp spec fn ttf_ascender(data: Seq<u8>) -> i16;

/// `owned_ttf_parser::Face::descender` of the face parsed from `data`.
pub uninterp spec fn ttf_descender(data: Seq<u8>) -> i16;

/// `owned_ttf_parser::Face::line_gap` of the face parsed from `data`.
pub uninterp spec fn ttf_line_gap(data: Seq<u8>) -> i16;

/// `owned_ttf_parser::Face::glyph_hor_advance` of `glyph` in the face parsed from `data`.
pub uninterp spec fn ttf_glyph_hor_advance(data: Seq<u8>, glyph: u16) -> Option<u16>;

/// `owned_ttf_parser::Face::glyph_hor_side_bearing` of `glyph` in the face parsed from `data`.
pub uninterp spec fn ttf_glyph_hor_side_bearing(data: Seq<u8>, glyph: u16) -> Option<i16>;

/// `owned_ttf_parser::Face::glyph_bounding_box` of `glyph` in the face parsed from `data`, as
/// `(x_min, y_min, x_max, y_max)`.
pub uninterp spec fn ttf_glyph_bounding_box(data: Seq<u8>, glyph: u16) -> Option<(i16, i16, i16, i16)>;

/// Calls `owned_ttf_parser::Face::parse(data, 0)`: the result is `Ok` exactly when the parser
/// accepts the bytes. Which error comes back on failure is not stated.
#[verifier::external_body]
fn parse_ttf_face<'a>(data: &'a [u8]) -> (r: Result<owned_ttf_parser::Face<'a>, owned_ttf_parser::FaceParsingError>)
    ensures
        r is Ok <==> ttf_face_parses(data@),
{
    owned_ttf_parser::Face::parse(data, 0)
}

/// Calls `ab_glyph::FontArc::try_from_vec(data)`. In `ab_glyph` that is
/// `FontVec::try_from_vec_and_index(data, 0)`, which fails exactly when
/// `owned_ttf_parser::OwnedFace::from_vec(data, 0)` does, and that in turn fails exactly when
/// `ttf_parser::Face::parse(data, 0)` does: the same parser as `parse_ttf_face`. Which error
/// comes back is not stated (`InvalidFont` carries none).
#[verifier::external_body]
fn font_arc_from_vec(data: Vec<u8>) -> (r: Result<ab_glyph::FontArc, ab_glyph::InvalidFont>)
    ensures
        r is Ok <==> ttf_face_parses(data@),
{
    ab_glyph::FontArc::try_from_vec(data)
}

/// Parses the font `data` for text layout with `ab_glyph`. It succeeds exactly when
/// `FontFace::parse` accepts the same bytes.
pub fn parse_ab_font(data: Vec<u8>) -> (r: Result<ab_glyph::FontArc, ab_glyph::InvalidFont>)
    ensures
        r is Ok <==> ttf_face_parses(data@),
{
    font_arc_from_vec(data)
}

/// A font face together with the bytes it was parsed from.
///
/// The fields are private and `FontFace::parse` is the only constructor, so `face` is always
/// the face that `ttf_parser` parsed from `data`; the readers below rely on that.
pub struct FontFace<'a> {
    data: &'a [u8],
    face: owned_ttf_parser::Face<'a>,
}

/// Why font data cannot be read as a font face.
#[derive(Clone, Copy, Debug)]
pub enum FontFaceError {
    /// `ttf_parser` rejected the font data, with its reason.
    Parse(owned_ttf_parser::FaceParsingError),
}

impl<'a> FontFace<'a> {
    /// The font bytes the face was parsed from.
    pub closed spec fn data(&self) -> Seq<u8> {
        self.data@
    }

    /// Parses the first face of the font `data`.
    pub fn parse(data: &'a [u8]) -> (r: Result<FontFace<'a>, FontFaceError>)
        ensures
            match r {
                Ok(f) => ttf_face_parses(data@) && f.data() == data@,
                Err(FontFaceError::Parse(_)) => !ttf_face_parses(data@),
            },
    {
        match parse_ttf_face(data) {
            Ok(face) => Ok(FontFace { data, face }),
            Err(e) => Err(FontFaceError::Parse(e)),
        }
    }

    /// Calls `Face::glyph_index`: the glyph id of `c`, or `None` when the font has no glyph for it.
    #[verifier::external_body]
    pub(crate) fn glyph_index(&self, c: char) -> (r: Option<u16>)
        ensures
            r == ttf_glyph_index(self.data(), c),
    {
        self.face.glyph_index(c).map(|g| g.0)
    }

    /// Calls `Face::number_of_glyphs`, which `ttf_parser` documents as never zero.
    #[verifier::external_body]
    pub(crate) fn number_of_glyphs(&self) -> (r: u16)
        ensures
            r == ttf_number_of_glyphs(self.data()),
            r > 0,
    {
        self.face.number_of_glyphs()
    }

    /// Calls `Face::units_per_em`, which `ttf_parser` guarantees to lie in `16..=16384`.
    #[verifier::external_body]
    pub(crate) fn units_per_em(&self) -> (r: u16)
        ensures
            r == ttf_units_per_em(self.data()),
            16 <= r <= 16384,
    {
        self.face.units_per_em()
    }

    /// Calls `Face::ascender`.
    #[verifier::external_body]
    pub(crate) fn ascender(&self) -> (r: i16)
        ensures
            r == ttf_ascender(self.data()),
    {
        self.face.ascender()
    }

    /// Calls `Face::descender`.
    #[verifier::external_body]
    pub(crate) fn descender(&self) -> (r: i16)
        ensures
            r == ttf_descender(self.data()),
    {
        self.face.descender()
    }

    /// Calls `Face::line_gap`.
    #[verifier::external_body]
    pub(crate) fn line_gap(&self) -> (r: i16)
        ensures
            r == ttf_line_gap(self.data()),
    {
        self.face.line_gap()
    }

    /// Calls `Face::glyph_hor_advance` for the glyph id `glyph`.
    #[verifier::external_body]
    pub(crate) fn glyph_hor_advance(&self, glyph: u16) -> (r: Option<u16>)
        ensures
            r == ttf_glyph_hor_advance(self.data(), glyph),
    {
        self.face.glyph_hor_advance(owned_ttf_parser::GlyphId(glyph))
    }

    /// Calls `Face::glyph_hor_side_bearing` for the glyph id `glyph`.
    #[verifier::external_body]
    pub(crate) fn glyph_hor_side_bearing(&self, glyph: u16) -> (r: Option<i16>)
        ensures
            r == ttf_glyph_hor_side_bearing(self.data(), glyph),
    {
        self.face.glyph_hor_side_bearing(owned_ttf_parser::GlyphId(glyph))
    }

    /// Calls `Face::glyph_bounding_box` for the glyph id `glyph`; the rectangle comes back as
    /// `(x_min, y_min, x_max, y_max)`, unvalidated, as `ttf_parser` documents.
    #[verifier::external_body]
    pub(crate) fn glyph_bounding_box(&self, glyph: u16) -> (r: Option<(i16, i16, i16, i16)>)
        ensures
            r == ttf_glyph_bounding_box(self.data(), glyph),
    {
        self.face.glyph_bounding_box(owned_ttf_parser::GlyphId(glyph)).map(
            |b: owned_ttf_parser::Rect| (b.x_min, b.y_min, b.x_max, b.y_max),
        )
    }
}

/// Face-wide metrics, in font units.
#[derive(Clone, Copy, Debug, PartialEq, Eq, Structural)]
pub struct FontMetrics {
    pub glyph_count: u32,
    pub units_per_em: u16,
    pub ascender: i16,
    pub descender: i16,
    pub line_gap: i16,
    /// Horizontal advance of the space character.
    pub space_advance: u16,
}

/// The metrics that `FontMetrics::new` reads from the font `data`, if the font has a space
/// glyph with a horizontal advance.
pub open spec fn spec_font_metrics(data: Seq<u8>) -> Option<FontMetrics> {
    match ttf_glyph_index(data, ' ') {
        Some(space) => match ttf_glyph_hor_advance(data, space) {
            Some(advance) => Some(
                FontMetrics {
                    glyph_count: ttf_number_of_glyphs(data) as u32,
                    units_per_em: ttf_units_per_em(data),
                    ascender: ttf_ascender(data),
                    descender: ttf_descender(data),
                    line_gap: ttf_line_gap(data),
                    space_advance: advance,
                },
            ),
            None => None,
        },
        None => None,
    }
}

impl FontMetrics {
    /// Reads the face metrics; `None` when the space character has no glyph or no advance.
    pub fn new(font: &FontFace) -> (r: Option<FontMetrics>)
        ensures
            r == spec_font_metrics(font.data()),
            r is Some <==> (ttf_glyph_index(font.data(), ' ') is Some && ttf_glyph_hor_advance(
                font.data(),
                ttf_glyph_index(font.data(), ' ')->0,
            ) is Some),
            r matches Some(m) ==> {
                &&& m.glyph_count == ttf_number_of_glyphs(font.data())
                &&& m.units_per_em == ttf_units_per_em(font.data())
                &&& m.ascender == ttf_ascender(font.data())
                &&& m.descender == ttf_descender(font.data())
                &&& m.line_gap == ttf_line_gap(font.data())
                &&& m.space_advance == ttf_glyph_hor_advance(
                    font.data(),
                    ttf_glyph_index(font.data(), ' ')->0,
                )->0
            },
    {
        let space_id = match font.glyph_index(' ') {
            Some(g) => g,
            None => return None,
        };
        let space_advance = match font.glyph_hor_advance(space_id) {
            Some(a) => a,
            None => return None,
        };
        Some(
            FontMetrics {
                glyph_count: font.number_of_glyphs() as u32,
                units_per_em: font.units_per_em(),
                ascender: font.ascender(),
                descender: font.descender(),
                line_gap: font.line_gap(),
                space_advance,
            },
        )
    }
}

/// Metrics of one glyph, in font units.
#[derive(Clone, Copy, Debug, PartialEq, Eq, Structural)]
pub struct GlyphMetrics {
    pub advance: u16,
    pub bearing: i16,
    pub x_min: i16,
    pub y_min: i16,
    pub x_max: i16,
    pub y_max: i16,
}

/// The metrics that `GlyphMetrics::for_glyph` reads for `glyph` from the font `data`.
pub open spec fn spec_glyph_metrics(data: Seq<u8>, glyph: u16) -> Option<GlyphMetrics> {
    match (
        ttf_glyph_hor_advance(data, glyph),
        ttf_glyph_hor_side_bearing(data, glyph),
        ttf_glyph_bounding_box(data, glyph),
    ) {
        (Some(advance), Some(bearing), Some(b)) => Some(
            GlyphMetrics { advance, bearing, x_min: b.0, y_min: b.1, x_max: b.2, y_max: b.3 },
        ),
        _ => None,
    }
}

impl GlyphMetrics {
    /// Reads the advance, side bearing and bounding box of `glyph_id`; `None` when the font
    /// lacks any of the three.
    pub fn for_glyph(font: &FontFace, glyph_id: u16) -> (r: Option<GlyphMetrics>)
        ensures
            r == spec_glyph_metrics(font.data(), glyph_id),
            r is Some <==> {
                &&& ttf_glyph_hor_advance(font.data(), glyph_id) is Some
                &&& ttf_glyph_hor_side_bearing(font.data(), glyph_id) is Some
                &&& ttf_glyph_bounding_box(font.data(), glyph_id) is Some
            },
            r matches Some(m) ==> {
                let b = ttf_glyph_bounding_box(font.data(), glyph_id)->0;
                &&& m.advance == ttf_glyph_hor_advance(font.data(), glyph_id)->0
                &&& m.bearing == ttf_glyph_hor_side_bearing(font.data(), glyph_id)->0
                &&& m.x_min == b.0
                &&& m.y_min == b.1
                &&& m.x_max == b.2
                &&& m.y_max == b.3
            },
    {
        let advance = match font.glyph_hor_advance(glyph_id) {
            Some(a) => a,
            None => return None,
        };
        let bearing = match font.glyph_hor_side_bearing(glyph_id) {
            Some(b) => b,
            None => return None,
        };
        let bbox = match font.glyph_bounding_box(glyph_id) {
            Some(b) => b,
            None => return None,
        };
        Some(
            GlyphMetrics {
                advance,
                bearing,
                x_min: bbox.0,
                y_min: bbox.1,
                x_max: bbox.2,
                y_max: bbox.3,
            },
        )
    }
}

/// The characters of `chars` that the font `data` has a glyph for, each with its glyph id,
/// in the order of `chars`.
pub open spec fn spec_char_glyphs(data: Seq<u8>, chars: Seq<char>) -> Seq<(char, u16)>
    decreases chars.len(),
{
    if chars.len() == 0 {
        Seq::empty()
    } else {
        let prev = spec_char_glyphs(data, chars.drop_last());
        match ttf_glyph_index(data, chars.last()) {
            Some(g) => prev.push((chars.last(), g)),
            None => prev,
        }
    }
}

/// Pairs each character of `chars` that the font maps to a glyph with that glyph id, keeping
/// the order of `chars` and dropping the characters without a glyph.
pub fn char_glyphs(font: &FontFace, chars: &Vec<char>) -> (r: Vec<(char, u16)>)
    ensures
        r@ == spec_char_glyphs(font.data(), chars@),
        r@ == chars@.filter(|c: char| ttf_glyph_index(font.data(), c) is Some).map_values(
            |c: char| (c, ttf_glyph_index(font.data(), c)->0),
        ),
{
    let mut r: Vec<(char, u16)> = Vec::new();
    let mut i: usize = 0;
    while i < chars.len()
        invariant
            i <= chars@.len(),
            r@ == spec_char_glyphs(font.data(), chars@.take(i as int)),
        decreases chars@.len() - i,
    {
        let c = chars[i];
        proof {
            assert(chars@.take(i + 1).drop_last() =~= chars@.take(i as int));
            assert(chars@.take(i + 1).last() == c);
        }
        match font.glyph_index(c) {
            Some(g) => r.push((c, g)),
            None => {},
        }
        i = i + 1;
    }
    assert(chars@.take(chars@.len() as int) =~= chars@);
    proof {
        lemma_char_glyphs_are_mapped_chars(font.data(), chars@);
    }
    r
}

/// Law: the face metrics are the face's own readings, field by field, and they exist exactly
/// when the space character has a glyph with a horizontal advance.
pub proof fn lemma_font_metrics_are_face_readings(data: Seq<u8>)
    ensures
        spec_font_metrics(data) is Some <==> (ttf_glyph_index(data, ' ') is Some
            && ttf_glyph_hor_advance(data, ttf_glyph_index(data, ' ')->0) is Some),
        spec_font_metrics(data) matches Some(m) ==> {
            &&& m.glyph_count == ttf_number_of_glyphs(data)
            &&& m.units_per_em == ttf_units_per_em(data)
            &&& m.ascender == ttf_ascender(data)
            &&& m.descender == ttf_descender(data)
            &&& m.line_gap == ttf_line_gap(data)
            &&& m.space_advance == ttf_glyph_hor_advance(data, ttf_glyph_index(data, ' ')->0)->0
        },
{
}

/// Law: a glyph's metrics are its advance, its side bearing and exactly its bounding box as
/// the face reads them, and they exist exactly when all three readings do.
pub proof fn lemma_glyph_metrics_are_face_readings(data: Seq<u8>, glyph: u16)
    ensures
        spec_glyph_metrics(data, glyph) is Some <==> {
            &&& ttf_glyph_hor_advance(data, glyph) is Some
            &&& ttf_glyph_hor_side_bearing(data, glyph) is Some
            &&& ttf_glyph_bounding_box(data, glyph) is Some
        },
        spec_glyph_metrics(data, glyph) matches Some(m) ==> {
            let b = ttf_glyph_bounding_box(data, glyph)->0;
            &&& m.advance == ttf_glyph_hor_advance(data, glyph)->0
            &&& m.bearing == ttf_glyph_hor_side_bearing(data, glyph)->0
            &&& m.x_min == b.0
            &&& m.y_min == b.1
            &&& m.x_max == b.2
            &&& m.y_max == b.3
        },
{
}

/// Law: the glyph pairs of `chars` are exactly the characters that the face maps, whatever
/// their code point, in the order of `chars`, each with the glyph id the face gives it.
pub proof fn lemma_char_glyphs_are_mapped_chars(data: Seq<u8>, chars: Seq<char>)
    ensures
        spec_char_glyphs(data, chars) == chars.filter(|c: char| ttf_glyph_index(data, c) is Some).map_values(
            |c: char| (c, ttf_glyph_index(data, c)->0),
        ),
    decreases chars.len(),
{
    let mapped = |c: char| ttf_glyph_index(data, c) is Some;
    let pair = |c: char| (c, ttf_glyph_index(data, c)->0);
    reveal(Seq::filter);
    if chars.len() > 0 {
        lemma_char_glyphs_are_mapped_chars(data, chars.drop_last());
        let prev = chars.drop_last().filter(mapped);
        if mapped(chars.last()) {
            assert(chars.filter(mapped) == prev.push(chars.last()));
            assert(prev.push(chars.last()).map_values(pair) =~= prev.map_values(pair).push(
                pair(chars.last()),
            ));
        } else {
            assert(chars.filter(mapped) == prev);
        }
    } else {
        assert(chars.filter(mapped) =~= Seq::<char>::empty());
        assert(chars.filter(mapped).map_values(pair) =~= Seq::<(char, u16)>::empty());
    }
}

} // verus!
