//! Album art as pixels: decoding untrusted image bytes with the `image`
//! crate under size limits, and shrinking oversized art before it is kept.

use vstd::prelude::*;
use crate::mpris::MprisWatcher;

verus! {

/// Widest (and tallest) art that is decoded at all: 4K.
pub const MAX_ART_DIMENSION: u32 = 4096;

/// Largest buffer a decoder may allocate for one piece of art.
pub const MAX_ART_ALLOC: u64 = 128 * 1024 * 1024;

/// Art larger than this in either direction is shrunk to fit.
pub const ART_SIZE_LIMIT: u32 = 1024;

/// An RGBA image with 8 bits per channel, rows top to bottom.
pub struct RgbaFrame {
    pub width: u32,
    pub height: u32,
    pub pixels: Vec<u8>,
}

impl View for RgbaFrame {
    type V = (u32, u32, Seq<u8>);

    open spec fn view(&self) -> (u32, u32, Seq<u8>) {
        (self.width, self.height, self.pixels@)
    }
}

/// The buffer holds at least every pixel of the image.
pub open spec fn frame_fits(width: u32, height: u32, len: int) -> bool {
    width as int * height as int * 4 <= len
}

impl RgbaFrame {
    /// Wraps a raw RGBA buffer as an image, when it is large enough for
    /// `width` x `height` pixels (`image::ImageBuffer::from_raw`); a frame
    /// whose buffer is too short is refused.
    pub fn from_raw(width: u32, height: u32, pixels: Vec<u8>) -> (r: Option<RgbaFrame>)
        ensures
            match r {
                Some(f) => frame_fits(width, height, pixels@.len() as int) && f@ == (width, height, pixels@),
                None => !frame_fits(width, height, pixels@.len() as int),
            },
    {
        proof {
            assert((width as int) * (height as int) <= 0xffff_ffff * 0xffff_ffff) by (nonlinear_arith)
                requires
                    width <= 0xffff_ffffu32,
                    height <= 0xffff_ffffu32,
            ;
        }
        let needed: u128 = (width as u128) * (height as u128) * 4;
        if needed <= pixels.len() as u128 {
            Some(RgbaFrame { width, height, pixels })
        } else {
            None
        }
    }
}

#[verifier::external_type_specification]
#[verifier::external_body]
pub struct ExImageError(image::ImageError);

/// Why album art could not be used.
#[derive(Clone, Copy, Debug, PartialEq, Eq, Structural)]
pub enum ArtDecodeError {
    /// Not an image format the decoder knows, corrupt, or over the limits.
    Undecodable,
}

/// The width and height that `image`'s reader finds in the header of
/// `bytes` (format guessed from the content), when the header reads and is
/// within the limits.
pub uninterp spec fn encoded_dims(bytes: Seq<u8>, max_width: u32, max_height: u32, max_alloc: u64) -> Option<(u32, u32)>;

/// What `image`'s reader makes of `bytes` (format guessed from the
/// content, decoding limited to `max_width` x `max_height` pixels and
/// `max_alloc` bytes), converted to RGBA8: width, height and pixels.
pub uninterp spec fn decoded_rgba(bytes: Seq<u8>, max_width: u32, max_height: u32, max_alloc: u64) -> Option<(u32, u32, Seq<u8>)>;

/// The same decoded image shrunk with `DynamicImage::thumbnail(nw, nh)`
/// before it is converted to RGBA8: width, height and pixels.
pub uninterp spec fn decoded_thumbnail(
    bytes: Seq<u8>,
    max_width: u32,
    max_height: u32,
    max_alloc: u64,
    nw: u32,
    nh: u32,
) -> Option<(u32, u32, Seq<u8>)>;

/// Reads the header of `bytes` with `image::ImageReader`
/// (`with_guessed_format`, `Limits`, `into_dimensions`). The contract
/// claims that the result is a function of its arguments, and (from the
/// decoders' `set_limits`, which `into_dimensions` applies) that the size
/// read is within the width and height limits.
#[verifier::external_body]
fn read_dimensions(bytes: &[u8], max_width: u32, max_height: u32, max_alloc: u64) -> (r: Result<(u32, u32), image::ImageError>)
    ensures
        match r {
            Ok(d) => encoded_dims(bytes@, max_width, max_height, max_alloc) == Some(d)
                && d.0 <= max_width && d.1 <= max_height,
            Err(_) => encoded_dims(bytes@, max_width, max_height, max_alloc).is_none(),
        },
{
    let mut reader = image::ImageReader::new(std::io::Cursor::new(bytes))
        .with_guessed_format()
        .map_err(image::ImageError::IoError)?;
    let mut limits = image::Limits::default();
    limits.max_image_width = Some(max_width);
    limits.max_image_height = Some(max_height);
    limits.max_alloc = Some(max_alloc);
    reader.limits(limits);
    reader.into_dimensions()
}

/// Decodes `bytes` with `image::ImageReader` (`with_guessed_format`,
/// `Limits` on width, height and allocation, `decode`) and converts the
/// result with `DynamicImage::into_rgba8`. The contract claims that the
/// result is a function of its arguments; that the decoded size is the one
/// the header gives (both come from the same decoder's `dimensions`), so
/// within the limits; and that the pixel buffer holds every pixel (an
/// `RgbaImage` is allocated at its full size).
#[verifier::external_body]
fn decode_rgba(bytes: &[u8], max_width: u32, max_height: u32, max_alloc: u64) -> (r: Result<RgbaFrame, image::ImageError>)
    ensures
        match r {
            Ok(f) => decoded_rgba(bytes@, max_width, max_height, max_alloc) == Some(f@)
                && encoded_dims(bytes@, max_width, max_height, max_alloc) == Some((f.width, f.height))
                && f.width <= max_width && f.height <= max_height
                && frame_fits(f.width, f.height, f.pixels@.len() as int),
            Err(_) => decoded_rgba(bytes@, max_width, max_height, max_alloc).is_none(),
        },
{
    let mut reader = image::ImageReader::new(std::io::Cursor::new(bytes))
        .with_guessed_format()
        .map_err(image::ImageError::IoError)?;
    let mut limits = image::Limits::default();
    limits.max_image_width = Some(max_width);
    limits.max_image_height = Some(max_height);
    limits.max_alloc = Some(max_alloc);
    reader.limits(limits);
    let img = reader.decode()?.into_rgba8();
    Ok(RgbaFrame { width: img.width(), height: img.height(), pixels: img.into_raw() })
}

/// Decodes `bytes` as `decode_rgba` does, shrinks the decoded image with
/// `DynamicImage::thumbnail(nw, nh)` (aspect ratio kept, fitted within the
/// bounds) and only then converts it with `into_rgba8`. The contract claims
/// that the result is a function of its arguments; that it succeeds exactly
/// when `decode_rgba` would (the same decode, followed by calls that cannot
/// fail); that the result fits the bounds and is not empty (as the method's
/// documentation and `resize_dimensions` say); and that the buffer holds
/// every pixel.
#[verifier::external_body]
fn decode_thumbnail_rgba(
    bytes: &[u8],
    max_width: u32,
    max_height: u32,
    max_alloc: u64,
    nw: u32,
    nh: u32,
) -> (r: Result<RgbaFrame, image::ImageError>)
    requires
        nw >= 1 && nh >= 1,
    ensures
        r is Ok <==> decoded_rgba(bytes@, max_width, max_height, max_alloc) is Some,
        match r {
            Ok(f) => decoded_thumbnail(bytes@, max_width, max_height, max_alloc, nw, nh) == Some(f@)
                && 1 <= f.width <= nw && 1 <= f.height <= nh
                && frame_fits(f.width, f.height, f.pixels@.len() as int),
            Err(_) => decoded_thumbnail(bytes@, max_width, max_height, max_alloc, nw, nh).is_none(),
        },
{
    let mut reader = image::ImageReader::new(std::io::Cursor::new(bytes))
        .with_guessed_format()
        .map_err(image::ImageError::IoError)?;
    let mut limits = image::Limits::default();
    limits.max_image_width = Some(max_width);
    limits.max_image_height = Some(max_height);
    limits.max_alloc = Some(max_alloc);
    reader.limits(limits);
    let img = reader.decode()?.thumbnail(nw, nh).into_rgba8();
    Ok(RgbaFrame { width: img.width(), height: img.height(), pixels: img.into_raw() })
}

/// Whether art of this size is shrunk before it is kept.
pub open spec fn art_needs_shrinking(dims: (u32, u32)) -> bool {
    dims.0 > ART_SIZE_LIMIT || dims.1 > ART_SIZE_LIMIT
}

/// The art kept for `bytes`: refused when the header does not read (or is
/// over the decoding limits); otherwise decoded, and shrunk to fit
/// 1024 x 1024 first when either side is larger.
pub open spec fn spec_processed_art(bytes: Seq<u8>) -> Option<(u32, u32, Seq<u8>)> {
    match encoded_dims(bytes, MAX_ART_DIMENSION, MAX_ART_DIMENSION, MAX_ART_ALLOC) {
        None => None,
        Some(d) => if art_needs_shrinking(d) {
            decoded_thumbnail(
                bytes,
                MAX_ART_DIMENSION,
                MAX_ART_DIMENSION,
                MAX_ART_ALLOC,
                ART_SIZE_LIMIT,
                ART_SIZE_LIMIT,
            )
        } else {
            decoded_rgba(bytes, MAX_ART_DIMENSION, MAX_ART_DIMENSION, MAX_ART_ALLOC)
        },
    }
}

impl MprisWatcher {
    /// Decodes untrusted art bytes, refusing anything over 4096 x 4096
    /// pixels or 128 MB of decoder memory, so crafted or huge art cannot
    /// exhaust memory.
    pub fn decode_image_safely(bytes: &[u8]) -> (r: Result<RgbaFrame, ArtDecodeError>)
        ensures
            match r {
                Ok(f) => decoded_rgba(bytes@, MAX_ART_DIMENSION, MAX_ART_DIMENSION, MAX_ART_ALLOC)
                    == Some(f@),
                Err(_) => decoded_rgba(bytes@, MAX_ART_DIMENSION, MAX_ART_DIMENSION, MAX_ART_ALLOC)
                    .is_none(),
            },
            r matches Ok(f) ==> f.width <= MAX_ART_DIMENSION && f.height <= MAX_ART_DIMENSION
                && frame_fits(f.width, f.height, f.pixels@.len() as int),
    {
        match decode_rgba(bytes, MAX_ART_DIMENSION, MAX_ART_DIMENSION, MAX_ART_ALLOC) {
            Ok(f) => Ok(f),
            Err(_) => Err(ArtDecodeError::Undecodable),
        }
    }

    /// The art as it is kept: decoded under the limits of
    /// `decode_image_safely`, and, when larger than 1024 pixels in either
    /// direction, shrunk to fit 1024 x 1024 with its aspect ratio kept
    /// (before conversion to RGBA8).
    pub fn process_art(bytes: &[u8]) -> (r: Result<RgbaFrame, ArtDecodeError>)
        ensures
            match r {
                Ok(f) => spec_processed_art(bytes@) == Some(f@),
                Err(_) => spec_processed_art(bytes@).is_none(),
            },
            r matches Ok(f) ==> f.width <= ART_SIZE_LIMIT && f.height <= ART_SIZE_LIMIT
                && frame_fits(f.width, f.height, f.pixels@.len() as int),
    {
        let dims = match read_dimensions(bytes, MAX_ART_DIMENSION, MAX_ART_DIMENSION, MAX_ART_ALLOC) {
            Ok(d) => d,
            Err(_) => return Err(ArtDecodeError::Undecodable),
        };
        if dims.0 > ART_SIZE_LIMIT || dims.1 > ART_SIZE_LIMIT {
            match decode_thumbnail_rgba(
                bytes,
                MAX_ART_DIMENSION,
                MAX_ART_DIMENSION,
                MAX_ART_ALLOC,
                ART_SIZE_LIMIT,
                ART_SIZE_LIMIT,
            ) {
                Ok(f) => Ok(f),
                Err(_) => Err(ArtDecodeError::Undecodable),
            }
        } else {
            match decode_rgba(bytes, MAX_ART_DIMENSION, MAX_ART_DIMENSION, MAX_ART_ALLOC) {
                Ok(f) => Ok(f),
                Err(_) => Err(ArtDecodeError::Undecodable),
            }
        }
    }
}

} // verus!
