//! The atlas image as stored in a font file: a PNG of 16-bit RGBA samples.
use vstd::prelude::*;
use crate::grid::AtlasGrid;

verus! {

#[verifier::external_type_specification]
#[verifier::external_body]
pub struct ExImageError(image::ImageError);

/// What decoding `data` as PNG with the `image` crate gives: `None` when decoding fails,
/// `Some(None)` when the image is not 16-bit RGBA, and otherwise its width, height and samples.
pub uninterp spec fn png_decode_rgba16(data: Seq<u8>) -> Option<Option<(u32, u32, Seq<u16>)>>;

/// Calls `image::ImageReader::with_format(.., ImageFormat::Png).decode()` on `data` and keeps
/// a 16-bit RGBA result as its dimensions and raw samples; any other color type gives `Ok(None)`.
/// Which decoding error comes back is not stated.
#[verifier::external_body]
fn decode_png(data: &[u8]) -> (r: Result<Option<(u32, u32, Vec<u16>)>, image::ImageError>)
    ensures
        match r {
            Ok(Some(img)) => png_decode_rgba16(data@) == Some(Some((img.0, img.1, img.2@))),
            Ok(None) => png_decode_rgba16(data@) == Some(None::<(u32, u32, Seq<u16>)>),
            Err(_) => png_decode_rgba16(data@) is None,
        },
{
    let reader = image::ImageReader::with_format(std::io::Cursor::new(data), image::ImageFormat::Png);
    match reader.decode() {
        Ok(image::DynamicImage::ImageRgba16(p)) => Ok(Some((p.width(), p.height(), p.into_raw()))),
        Ok(_) => Ok(None),
        Err(e) => Err(e),
    }
}

/// What encoding `width` x `height` pixels of 16-bit RGBA `samples` as PNG with the `image`
/// crate gives: the PNG bytes, or `None` when encoding fails.
pub uninterp spec fn png_encode_rgba16(width: u32, height: u32, samples: Seq<u16>) -> Option<Seq<u8>>;

/// The largest sample count for which decoding the PNG written by `encode_png` gives the image
/// back: 2^28 samples, that is 512 MiB at two bytes a sample. Decoding with the `image` crate's
/// default limits reserves the whole 16-bit RGBA buffer from its `max_alloc` of 512 MiB
/// (`ImageReader::decode`), and the `png` decoder, which gets its own budget of the same size,
/// reserves one output row and no more for a file that `encode_png` wrote (its other chunks fit
/// in the decoder's initial chunk buffer).
pub const ROUND_TRIP_MAX_SAMPLES: u64 = 0x1000_0000;

/// Builds an `image::ImageBuffer<Rgba<u16>, _>` from `samples` and writes it with
/// `ImageBuffer::write_to(.., ImageFormat::Png)`. The PNG encoder stores the samples as
/// 16-bit RGBA without any conversion, and the PNG decoder of the same crate reads such a
/// file back as `DynamicImage::ImageRgba16` with the same samples; so for a non-empty image
/// within the default decoding limits, decoding the bytes gives the image back. Which
/// encoding error comes back is not stated.
#[verifier::external_body]
fn encode_png(width: u32, height: u32, samples: Vec<u16>) -> (r: Result<Vec<u8>, image::ImageError>)
    requires
        samples@.len() == 4 * width * height,
    ensures
        match r {
            Ok(bytes) => {
                &&& png_encode_rgba16(width, height, samples@) == Some(bytes@)
                &&& (0 < width && 0 < height && 4 * width * height <= ROUND_TRIP_MAX_SAMPLES)
                    ==> png_decode_rgba16(bytes@) == Some(Some((width, height, samples@)))
            },
            Err(_) => png_encode_rgba16(width, height, samples@) is None,
        },
{
    let buffer: image::ImageBuffer<image::Rgba<u16>, Vec<u16>> =
        image::ImageBuffer::from_raw(width, height, samples).unwrap();
    let mut out = std::io::Cursor::new(Vec::new());
    match buffer.write_to(&mut out, image::ImageFormat::Png) {
        Ok(()) => Ok(out.into_inner()),
        Err(e) => Err(e),
    }
}

/// A decoded atlas image: `width` x `height` pixels of four 16-bit samples, row by row.
#[derive(Clone, Debug)]
pub struct AtlasPixels {
    pub width: u32,
    pub height: u32,
    pub samples: Vec<u16>,
}

/// Why the stored atlas image cannot be used.
#[derive(Debug)]
pub enum AtlasImageError {
    /// The PNG data does not decode.
    Decode(image::ImageError),
    /// The image decodes but does not hold 16-bit RGBA samples.
    NotRgba16,
    /// The atlas image could not be encoded as PNG.
    Encode(image::ImageError),
}

/// Decodes the PNG atlas image of a font; it must hold 16-bit RGBA samples.
pub fn decode_atlas_image(png_data: &[u8]) -> (r: Result<AtlasPixels, AtlasImageError>)
    ensures
        match r {
            Ok(img) => png_decode_rgba16(png_data@) == Some(
                Some((img.width, img.height, img.samples@)),
            ),
            Err(AtlasImageError::NotRgba16) => png_decode_rgba16(png_data@) == Some(
                None::<(u32, u32, Seq<u16>)>,
            ),
            Err(AtlasImageError::Decode(_)) => png_decode_rgba16(png_data@) is None,
            Err(AtlasImageError::Encode(_)) => false,
        },
{
    match decode_png(png_data) {
        Ok(Some((width, height, samples))) => Ok(AtlasPixels { width, height, samples }),
        Ok(None) => Err(AtlasImageError::NotRgba16),
        Err(e) => Err(AtlasImageError::Decode(e)),
    }
}

/// Encodes the `grid.image_width` x `grid.image_height` atlas image, given as 16-bit RGBA
/// `samples` row by row, as the PNG stored in a font file. For a non-empty atlas of at most
/// `ROUND_TRIP_MAX_SAMPLES` samples, the bytes decode back to the same image, so that
/// `decode_atlas_image` gives `Ok` with the atlas size and these samples.
pub fn encode_atlas_image(grid: &AtlasGrid, samples: Vec<u16>) -> (r: Result<
    Vec<u8>,
    AtlasImageError,
>)
    requires
        samples@.len() == 4 * grid.image_width * grid.image_height,
    ensures
        match r {
            Ok(bytes) => {
                &&& png_encode_rgba16(grid.image_width, grid.image_height, samples@) == Some(
                    bytes@,
                )
                &&& (0 < grid.image_width && 0 < grid.image_height && 4 * grid.image_width
                    * grid.image_height <= ROUND_TRIP_MAX_SAMPLES) ==> png_decode_rgba16(bytes@)
                    == Some(Some((grid.image_width, grid.image_height, samples@)))
            },
            Err(AtlasImageError::Encode(_)) => png_encode_rgba16(
                grid.image_width,
                grid.image_height,
                samples@,
            ) is None,
            Err(_) => false,
        },
{
    match encode_png(grid.image_width, grid.image_height, samples) {
        Ok(bytes) => Ok(bytes),
        Err(e) => Err(AtlasImageError::Encode(e)),
    }
}

} // verus!
