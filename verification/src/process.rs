//! One file's journey from its encoded bytes to the image the cap search works on: metadata is read
//! from the source bytes, the image is decoded, made upright (and optionally converted to sRGB),
//! given its encoder, and sized per the resize mode; the cap is reduced by whatever a re-embedded
//! ICC profile will take. Reading the file, the search itself and writing the result are the
//! caller's.
use vstd::prelude::*;
use crate::batch::{effective_cap, format_for, icc_reserve, resolve_format};
use crate::codec::decoded_image;
use crate::crop::{cover_crop_resize, cover_output_size, cover_rect, cropped};
use crate::decode::decode;
use crate::encode::{format_ext, EncodeFormat};
use crate::error::EngineError;
use crate::metadata::{apply_color_and_orientation, colored_and_oriented, opt_seq, read_source_meta, source_meta_of, SourceMeta};
use crate::model::{Options, ResizeMode};
use crate::raster::{Raster, RasterView};
use crate::resize::{downscale_to_long_edge, long_edge_target, resized};

verus! {

/// A decoded, upright, sized image ready for the cap search, with what the rest of the run needs.
pub struct Prepared {
    /// The image the search encodes.
    pub image: Raster,
    /// Metadata read from the source bytes (re-embedded after encoding in the keep modes).
    pub meta: SourceMeta,
    /// The encoder the file gets.
    pub format: EncodeFormat,
    /// Whether the search may shrink dimensions further (fit mode) or they are locked (exact mode).
    pub allow_downscale: bool,
    /// The cap the search aims for: the file's cap less the room a re-embedded ICC profile takes.
    pub search_cap: u64,
}

/// The image a decode of `bytes` gives, as a view.
pub open spec fn decoded_view(bytes: Seq<u8>) -> Option<RasterView> {
    match decoded_image(bytes) {
        Some((w, h, a, px)) => Some(RasterView { width: w, height: h, has_alpha: a, pixels: px }),
        None => None,
    }
}

/// What sizing `img` per `resize` gives before the search, or `None` when resampling fails (or an
/// exact target has a zero edge). Fit bounds the long edge (never upscaling); exact crops to fill
/// the target aspect and resamples to the target (or, without upscaling, to at most the crop).
pub open spec fn sized_for(img: RasterView, resize: ResizeMode) -> Option<RasterView> {
    match resize {
        ResizeMode::Fit { max_dimension } => match max_dimension {
            None => Some(img),
            Some(m) => if m == 0 || img.long_edge() <= m {
                Some(img)
            } else {
                resized(img, long_edge_target(img, m).0, long_edge_target(img, m).1)
            },
        },
        ResizeMode::Exact { width, height, anchor, allow_upscale } => if width == 0 || height == 0 {
            None
        } else {
            let rect = cover_rect(img.width, img.height, width, height, anchor);
            let (ow, oh) = cover_output_size(rect, width, height, allow_upscale);
            resized(cropped(img, rect), ow, oh)
        },
    }
}

/// The length of an optional profile.
pub open spec fn opt_len(o: Option<Vec<u8>>) -> Option<usize> {
    match o {
        Some(v) => Some(v.len()),
        None => None,
    }
}

/// `cap` less `reserve`, never below zero.
pub open spec fn cap_less(cap: u64, reserve: nat) -> u64 {
    if cap >= reserve {
        (cap - reserve) as u64
    } else {
        0
    }
}

/// Size an upright image per the resize mode.
fn size_image(img: Raster, resize: ResizeMode) -> (r: Result<Raster, EngineError>)
    requires
        img.wf(),
    ensures
        match r {
            Ok(out) => out.wf() && sized_for(img@, resize) == Some(out@),
            Err(e) => sized_for(img@, resize) is None && e is Resize,
        },
{
    match resize {
        ResizeMode::Fit { max_dimension } => match max_dimension {
            Some(maxd) => downscale_to_long_edge(&img, maxd),
            None => Ok(img),
        },
        ResizeMode::Exact { width, height, anchor, allow_upscale } => {
            cover_crop_resize(&img, width, height, anchor, allow_upscale)
        },
    }
}

/// `up` is an upright image the file's `bytes` may give under `options`: they decode, and `up` is
/// the decoded image with its orientation baked in (recoloured when converting to sRGB, whose
/// exact values depend on the CPU).
pub open spec fn upright_from(bytes: Seq<u8>, options: Options, up: RasterView) -> bool {
    decoded_view(bytes) matches Some(img) && colored_and_oriented(
        img,
        source_meta_of(bytes).0,
        source_meta_of(bytes).1,
        options.convert_srgb,
        up,
    )
}

/// Preparing `bytes` is sure to succeed: they decode, and every upright image they may give can be
/// sized.
pub open spec fn prepares(bytes: Seq<u8>, options: Options) -> bool {
    &&& decoded_view(bytes) is Some
    &&& forall|up: RasterView|
        #[trigger] upright_from(bytes, options, up) ==> sized_for(up, options.resize) is Some
}

/// Why preparing `bytes` failed: they do not decode (a decode error), or the upright image could
/// not be sized (a resize error).
pub open spec fn prepare_error(bytes: Seq<u8>, options: Options, e: EngineError) -> bool {
    if decoded_view(bytes) is None {
        e is Decode
    } else {
        e is Resize && exists|up: RasterView|
            #[trigger] upright_from(bytes, options, up) && sized_for(up, options.resize) is None
    }
}

/// What a successful preparation of `bytes` holds: the sized image of the upright image `up`,
/// the metadata read from the bytes, the encoder, whether the search may shrink further, and the
/// reduced cap.
pub open spec fn prepared_parts(
    bytes: Seq<u8>,
    options: Options,
    cap: u64,
    up: RasterView,
    image: RasterView,
    meta: SourceMeta,
    format: EncodeFormat,
    allow_downscale: bool,
    search_cap: u64,
) -> bool {
    &&& upright_from(bytes, options, up)
    &&& image.wf()
    &&& Some(image) == sized_for(up, options.resize)
    &&& meta.orientation == source_meta_of(bytes).0
    &&& opt_seq(meta.icc) == source_meta_of(bytes).1
    &&& format == format_for(options.output_format, up.has_alpha, options.background)
    &&& allow_downscale == (options.resize is Fit)
    &&& search_cap == cap_less(cap, icc_reserve(options, opt_len(meta.icc), format_ext(format)))
}

/// Everything between reading a file and searching for its encoding. The metadata comes from the
/// source bytes; the image is decoded (failing with a decode error), made upright and optionally
/// converted to sRGB, given its encoder, and sized per the resize mode (failing with a resize
/// error). In fit mode the search may shrink the image further; in exact mode its size is locked.
pub fn prepare_for_cap(bytes: &[u8], options: &Options, cap: u64) -> (r: Result<
    Prepared,
    EngineError,
>)
    ensures
        r matches Err(e) ==> prepare_error(bytes@, *options, e),
        r matches Ok(p) ==> exists|up: RasterView|
            #[trigger] prepared_parts(
                bytes@,
                *options,
                cap,
                up,
                p.image@,
                p.meta,
                p.format,
                p.allow_downscale,
                p.search_cap,
            ),
        prepares(bytes@, *options) ==> r is Ok,
{
    let meta = read_source_meta(bytes);
    let img = match decode(bytes) {
        Ok(i) => i,
        Err(e) => {
            return Err(e);
        },
    };
    let img = apply_color_and_orientation(img, &meta, options);
    let ghost up = img@;
    assert(upright_from(bytes@, *options, up));
    let format = resolve_format(options.output_format, &img, options.background);
    let allow_downscale = match options.resize {
        ResizeMode::Fit { .. } => true,
        ResizeMode::Exact { .. } => false,
    };
    let image = match size_image(img, options.resize) {
        Ok(i) => i,
        Err(e) => {
            return Err(e);
        },
    };
    let icc_len = match &meta.icc {
        Some(icc) => Some(icc.len()),
        None => None,
    };
    let search_cap = effective_cap(options, cap, icc_len, format.extension());
    let p = Prepared { image, meta, format, allow_downscale, search_cap };
    assert(prepared_parts(
        bytes@,
        *options,
        cap,
        up,
        p.image@,
        p.meta,
        p.format,
        p.allow_downscale,
        p.search_cap,
    ));
    Ok(p)
}

} // verus!
