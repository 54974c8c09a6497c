//! Output encoders. JPEG flattens alpha over a background colour; PNG is lossless (then
//! optimized by oxipng when that succeeds); AVIF keeps alpha and has a quality knob.
use vstd::prelude::*;
use crate::codec::{
    avif_encode, avif_encoding, jpeg_encode, jpeg_encoding, oxipng_optimize, oxipng_optimized,
    png_encode, png_encoding,
};
use crate::error::EngineError;
use crate::metadata::{encoder_jpeg, exif_orientation_of};
use crate::model::Options;
use crate::raster::{flatten_to_rgb, to_rgba8, Raster, RasterView};

verus! {

/// A concrete encoder target. JPEG carries the background used to flatten alpha; PNG and AVIF are
/// alpha-preserving (PNG lossless, AVIF lossy with a quality knob).
#[derive(Debug, Clone, Copy, PartialEq, Eq)]
pub enum EncodeFormat {
    Jpeg { background: [u8; 3] },
    Png,
    Avif,
}

/// The oxipng preset applied after PNG encoding.
pub const PNG_OPTIMIZE_PRESET: u8 = 2;

/// The ravif speed setting (fast enough for the size search's repeated encodes).
pub const AVIF_SPEED: u8 = 8;

/// The AVIF encoder's thread count. One thread keeps a single tile, so the same image always
/// encodes to the same file whatever machine runs it.
pub const AVIF_THREADS: usize = 1;

/// Quality used when the caller gives none: JPEG's and AVIF's defaults.
pub const JPEG_DEFAULT_QUALITY: u8 = 75;
pub const AVIF_DEFAULT_QUALITY: u8 = 60;

/// `q` clamped into 1..=100.
pub open spec fn clamp_quality(q: u8) -> u8 {
    if q < 1 {
        1
    } else if q > 100 {
        100
    } else {
        q
    }
}

/// The bytes `encode` produces for `img` in `fmt` at `quality`, or `None` when the encoder fails.
pub open spec fn encoded(img: RasterView, fmt: EncodeFormat, quality: Option<u8>) -> Option<Seq<u8>> {
    match fmt {
        EncodeFormat::Jpeg { background } => jpeg_encoding(
            img.rgb_pixels(background),
            img.width,
            img.height,
            clamp_quality(quality.unwrap_or(JPEG_DEFAULT_QUALITY)),
        ),
        EncodeFormat::Png => match png_encoding(img.pixels, img.width, img.height, img.has_alpha) {
            None => None,
            Some(png) => match oxipng_optimized(png, PNG_OPTIMIZE_PRESET) {
                Some(optimized) => Some(optimized),
                None => Some(png),
            },
        },
        EncodeFormat::Avif => avif_encoding(
            img.rgba_pixels(),
            img.width,
            img.height,
            clamp_quality(quality.unwrap_or(AVIF_DEFAULT_QUALITY)),
            AVIF_SPEED,
            AVIF_THREADS,
        ),
    }
}

/// What an image must satisfy for `fmt` to encode it without panicking: a well-formed buffer, and
/// for AVIF a non-zero width.
pub open spec fn encodable(img: RasterView, fmt: EncodeFormat) -> bool {
    &&& img.wf()
    &&& (fmt is Avif ==> img.width >= 1)
}

fn clamp_q(q: u8) -> (r: u8)
    ensures
        r == clamp_quality(q),
{
    if q < 1 {
        1
    } else if q > 100 {
        100
    } else {
        q
    }
}

/// The `(min, max)` quality search range of a format: the configured bounds clamped into
/// 1..=100 with `max >= min`, or `None` for PNG, which has no quality knob.
pub open spec fn quality_range_of(fmt: EncodeFormat, opts: Options) -> Option<(u8, u8)> {
    match fmt {
        EncodeFormat::Png => None,
        _ => Some(
            (
                clamp_quality(opts.jpeg_quality_min),
                if opts.jpeg_quality_max < clamp_quality(opts.jpeg_quality_min) {
                    clamp_quality(opts.jpeg_quality_min)
                } else {
                    clamp_quality(opts.jpeg_quality_max)
                },
            ),
        ),
    }
}

/// The file extension of a format's output.
pub open spec fn format_ext(fmt: EncodeFormat) -> Seq<char> {
    match fmt {
        EncodeFormat::Jpeg { .. } => "jpg"@,
        EncodeFormat::Png => "png"@,
        EncodeFormat::Avif => "avif"@,
    }
}

impl EncodeFormat {
    /// File extension for the output path.
    pub fn extension(&self) -> (r: &'static str)
        ensures
            r@ == format_ext(*self),
    {
        match self {
            EncodeFormat::Jpeg { .. } => "jpg",
            EncodeFormat::Png => "png",
            EncodeFormat::Avif => "avif",
        }
    }

    /// MIME type, used when building a preview data URL.
    pub fn mime(&self) -> (r: &'static str)
        ensures
            r@ == match self {
                EncodeFormat::Jpeg { .. } => "image/jpeg"@,
                EncodeFormat::Png => "image/png"@,
                EncodeFormat::Avif => "image/avif"@,
            },
    {
        match self {
            EncodeFormat::Jpeg { .. } => "image/jpeg",
            EncodeFormat::Png => "image/png",
            EncodeFormat::Avif => "image/avif",
        }
    }

    /// The `(min, max)` quality range for the size search, or `None` for formats without a
    /// lossy quality knob. `max` is clamped to be `>= min` so the search range is always valid.
    /// JPEG and AVIF share the user's configured quality bounds.
    pub fn quality_range(&self, opts: &Options) -> (r: Option<(u8, u8)>)
        ensures
            r == quality_range_of(*self, *opts),
            r matches Some((lo, hi)) ==> 1 <= lo <= hi <= 100,
    {
        match self {
            EncodeFormat::Jpeg { .. } | EncodeFormat::Avif => {
                let lo = clamp_q(opts.jpeg_quality_min);
                let hi = if opts.jpeg_quality_max < lo {
                    lo
                } else {
                    clamp_q(opts.jpeg_quality_max)
                };
                Some((lo, hi))
            },
            EncodeFormat::Png => None,
        }
    }
}

/// Encode `img` to an in-memory buffer. `quality` is ignored for formats without a quality knob.
pub fn encode(img: &Raster, fmt: EncodeFormat, quality: Option<u8>) -> (r: Result<
    Vec<u8>,
    EngineError,
>)
    requires
        encodable(img@, fmt),
    ensures
        match r {
            Ok(v) => encoded(img@, fmt, quality) == Some(v@),
            Err(e) => encoded(img@, fmt, quality) is None && e is Encode,
        },
        fmt is Jpeg ==> (r matches Ok(v) ==> encoder_jpeg(v@) && exif_orientation_of(v@) is None),
{
    match fmt {
        EncodeFormat::Jpeg { background } => {
            let q = match quality {
                Some(q) => q,
                None => JPEG_DEFAULT_QUALITY,
            };
            encode_jpeg(img, q, background)
        },
        EncodeFormat::Png => encode_png(img),
        EncodeFormat::Avif => {
            let q = match quality {
                Some(q) => q,
                None => AVIF_DEFAULT_QUALITY,
            };
            encode_avif(img, q)
        },
    }
}

/// Encode to AVIF with the pure-Rust `ravif`/rav1e encoder. Alpha is preserved.
fn encode_avif(img: &Raster, quality: u8) -> (r: Result<Vec<u8>, EngineError>)
    requires
        img.wf(),
        img.width >= 1,
    ensures
        match r {
            Ok(v) => encoded(img@, EncodeFormat::Avif, Some(quality)) == Some(v@),
            Err(e) => encoded(img@, EncodeFormat::Avif, Some(quality)) is None && e is Encode,
        },
{
    let rgba = to_rgba8(img);
    match avif_encode(&rgba, img.width, img.height, clamp_q(quality), AVIF_SPEED, AVIF_THREADS) {
        Ok(v) => Ok(v),
        Err(m) => Err(EngineError::Encode(m)),
    }
}

/// JPEG encode of the flattened RGB8 pixels.
fn encode_jpeg(img: &Raster, quality: u8, background: [u8; 3]) -> (r: Result<Vec<u8>, EngineError>)
    requires
        img.wf(),
    ensures
        match r {
            Ok(v) => encoded(img@, EncodeFormat::Jpeg { background }, Some(quality)) == Some(v@),
            Err(e) => encoded(img@, EncodeFormat::Jpeg { background }, Some(quality)) is None
                && e is Encode,
        },
        r matches Ok(v) ==> encoder_jpeg(v@) && exif_orientation_of(v@) is None,
{
    let rgb = flatten_to_rgb(img, background);
    match jpeg_encode(&rgb, img.width, img.height, clamp_q(quality)) {
        Ok(v) => Ok(v),
        Err(m) => Err(EngineError::Encode(m)),
    }
}

/// Lossless PNG encode, then a lossless oxipng pass. Best-effort: if the optimization fails, the
/// already-valid PNG is returned unchanged.
fn encode_png(img: &Raster) -> (r: Result<Vec<u8>, EngineError>)
    requires
        img.wf(),
    ensures
        match r {
            Ok(v) => encoded(img@, EncodeFormat::Png, None) == Some(v@),
            Err(e) => encoded(img@, EncodeFormat::Png, None) is None && e is Encode,
        },
{
    let png = match png_encode(&img.pixels, img.width, img.height, img.has_alpha) {
        Ok(v) => v,
        Err(m) => {
            return Err(EngineError::Encode(m));
        },
    };
    match oxipng_optimize(&png, PNG_OPTIMIZE_PRESET) {
        Some(optimized) => Ok(optimized),
        None => Ok(png),
    }
}

} // verus!
