//! Font faces parsed for their glyph outlines, with the `ttf_parser` release that `msdfgen`'s
//! font support reads.
use vstd::prelude::*;

verus! {

#[verifier::external_type_specification]
#[verifier::external_body]
pub struct ExOutlineFace<'a>(ttf_parser::Face<'a>);

#[verifier::external_type_specification]
#[verifier::external_body]
pub struct ExOutlineFaceParsingError(ttf_parser::FaceParsingError);

/// Whether `ttf_parser::Face::parse(data, 0)` (the release that `msdfgen` reads) accepts the
/// font bytes `data`.
pub uninterp spec fn outline_face_parses(data: Seq<u8>) -> bool;

/// Calls `ttf_parser::Face::parse(data, 0)`: the result is `Ok` exactly when the parser accepts
/// the bytes. Which error comes back on failure is not stated.
#[verifier::external_body]
fn outline_face_from_bytes<'a>(data: &'a [u8]) -> (r: Result<
    ttf_parser::Face<'a>,
    ttf_parser::FaceParsingError,
>)
    ensures
        r is Ok <==> outline_face_parses(data@),
{
    ttf_parser::Face::parse(data, 0)
}

/// Parses the first face of the font `data` for its glyph outlines, which the distance-field
/// renderer turns into shapes. It succeeds exactly when the parser accepts the bytes.
pub fn parse_outline_face<'a>(data: &'a [u8]) -> (r: Result<
    ttf_parser::Face<'a>,
    ttf_parser::FaceParsingError,
>)
    ensures
        r is Ok <==> outline_face_parses(data@),
{
    outline_face_from_bytes(data)
}

} // verus!
