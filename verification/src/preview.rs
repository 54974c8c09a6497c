//! What a single-image preview searches on, and the small thumbnails of the file list. The preview
//! search itself extrapolates sizes with floating point and lives with the caller.
use vstd::prelude::*;
use crate::crop::lemma_u32_product_fits;
use crate::decode::decode;
use crate::encode::{encode, encoded, EncodeFormat};
use crate::error::EngineError;
use crate::metadata::{apply_color_and_orientation, oriented, read_source_meta, source_meta_of};
use crate::model::{Options, ResizeMode};
use crate::process::{decoded_view, sized_for};
use crate::raster::{Raster, RasterView};
use crate::resize::downscale_to_long_edge;
use crate::text::{push_str, str_eq, string_of};

verus! {

/// Longest-edge cap for the downscaled copy the preview searches on. Small on purpose: the preview
/// panel displays it tiny, and fewer pixels make each search encode fast; sizes are extrapolated
/// back to the full resolution.
pub const PREVIEW_MAX_DIM: u32 = 720;

/// A decoded, sized image ready for the preview search, kept so that changing only the cap or the
/// format does not decode the file again.
pub struct PreviewSource {
    /// The downscaled working copy the search encodes.
    pub work: Raster,
    /// The intended output size (after the resize mode).
    pub base_width: u32,
    pub base_height: u32,
    /// Pixel counts of the working copy and of the intended output.
    pub work_pixels: u64,
    pub base_pixels: u64,
    /// Whether the upright source has alpha, and its dimensions.
    pub has_alpha: bool,
    pub source_width: u32,
    pub source_height: u32,
}

/// The upright image a file's bytes decode to (orientation baked in, no colour conversion).
pub open spec fn upright_of(bytes: Seq<u8>, img: RasterView) -> RasterView {
    oriented(img, source_meta_of(bytes).0)
}

/// The long-edge bound of a fit resize.
pub open spec fn bounded(img: RasterView, max: u32) -> Option<RasterView> {
    sized_for(img, ResizeMode::Fit { max_dimension: Some(max) })
}

/// Decode a file's bytes, make the image upright, size it per the resize mode (the intended output
/// resolution), and downscale a working copy to [`PREVIEW_MAX_DIM`] for a fast preview search.
/// A decode failure is a decode error; a failed resample is a resize error.
pub fn prepare_source(bytes: &[u8], resize: ResizeMode) -> (r: Result<PreviewSource, EngineError>)
    ensures
        match decoded_view(bytes@) {
            None => r matches Err(e) && e is Decode,
            Some(img) => {
                let upright = upright_of(bytes@, img);
                match sized_for(upright, resize) {
                    None => r matches Err(e) && e is Resize,
                    Some(base) => match bounded(base, PREVIEW_MAX_DIM) {
                        None => r matches Err(e) && e is Resize,
                        Some(work) => r matches Ok(p) && {
                            &&& p.work.wf() && p.work@ == work
                            &&& p.base_width == base.width && p.base_height == base.height
                            &&& p.base_pixels == base.width * base.height
                            &&& p.work_pixels == work.width * work.height
                            &&& p.has_alpha == upright.has_alpha
                            &&& p.source_width == upright.width && p.source_height == upright.height
                        },
                    },
                }
            },
        },
{
    let meta = read_source_meta(bytes);
    let img = match decode(bytes) {
        Ok(i) => i,
        Err(e) => {
            return Err(e);
        },
    };
    let plain = Options::default();
    let img = apply_color_and_orientation(img, &meta, &plain);
    let source_width = img.width;
    let source_height = img.height;
    let has_alpha = img.has_alpha;
    let base = match resize {
        ResizeMode::Fit { max_dimension } => match max_dimension {
            Some(maxd) => match downscale_to_long_edge(&img, maxd) {
                Ok(i) => i,
                Err(e) => {
                    return Err(e);
                },
            },
            None => img,
        },
        ResizeMode::Exact { width, height, anchor, allow_upscale } => {
            match crate::crop::cover_crop_resize(&img, width, height, anchor, allow_upscale) {
                Ok(i) => i,
                Err(e) => {
                    return Err(e);
                },
            }
        },
    };
    let base_width = base.width;
    let base_height = base.height;
    proof {
        lemma_u32_product_fits(base_width, base_height);
    }
    let base_pixels = (base_width as u64) * (base_height as u64);
    let work = match downscale_to_long_edge(&base, PREVIEW_MAX_DIM) {
        Ok(i) => i,
        Err(e) => {
            return Err(e);
        },
    };
    proof {
        lemma_u32_product_fits(work.width, work.height);
    }
    let work_pixels = (work.width as u64) * (work.height as u64);
    Ok(
        PreviewSource {
            work,
            base_width,
            base_height,
            work_pixels,
            base_pixels,
            has_alpha,
            source_width,
            source_height,
        },
    )
}

/// A small JPEG thumbnail (quality 70, transparency flattened onto white) of a file's bytes, for the
/// file list: the upright image with its long edge at most `max` (at most one pixel when `max` is
/// zero), never upscaled.
pub fn thumbnail(bytes: &[u8], max: u32) -> (r: Result<Vec<u8>, EngineError>)
    ensures
        match decoded_view(bytes@) {
            None => r matches Err(e) && e is Decode,
            Some(img) => {
                let limit = if max >= 1 { max } else { 1 };
                match bounded(upright_of(bytes@, img), limit) {
                    None => r matches Err(e) && e is Resize,
                    Some(small) => small.long_edge() <= limit && match encoded(
                        small,
                        EncodeFormat::Jpeg { background: [255u8, 255u8, 255u8] },
                        Some(70u8),
                    ) {
                        Some(b) => r matches Ok(v) && v@ == b,
                        None => r matches Err(e) && e is Encode,
                    },
                }
            },
        },
{
    let meta = read_source_meta(bytes);
    let img = match decode(bytes) {
        Ok(i) => i,
        Err(e) => {
            return Err(e);
        },
    };
    let plain = Options::default();
    let img = apply_color_and_orientation(img, &meta, &plain);
    let limit = if max >= 1 {
        max
    } else {
        1
    };
    let small = match downscale_to_long_edge(&img, limit) {
        Ok(i) => i,
        Err(e) => {
            return Err(e);
        },
    };
    assert(small@.long_edge() <= limit);
    encode(&small, EncodeFormat::Jpeg { background: [255, 255, 255] }, Some(70))
}

/// What a preview shows for the encode its search found, as a MIME type and bytes. An AVIF result
/// may not render in older system WebViews, so it is shown as a quality-85 JPEG of the searched
/// image (flattened onto `background`), or as the AVIF itself when that encode fails; any other
/// result is shown as found.
pub fn preview_display(work: &Raster, fmt: EncodeFormat, background: [u8; 3], found: Vec<u8>) -> (r: (
    String,
    Vec<u8>,
))
    requires
        work.wf(),
    ensures
        match fmt {
            EncodeFormat::Avif => match encoded(work@, EncodeFormat::Jpeg { background }, Some(85u8)) {
                Some(b) => r.0@ == "image/jpeg"@ && r.1@ == b,
                None => r.0@ == "image/avif"@ && r.1@ == found@,
            },
            EncodeFormat::Jpeg { .. } => r.0@ == "image/jpeg"@ && r.1@ == found@,
            EncodeFormat::Png => r.0@ == "image/png"@ && r.1@ == found@,
        },
{
    match fmt {
        EncodeFormat::Avif => {
            let stand_in = EncodeFormat::Jpeg { background };
            match encode(work, stand_in, Some(85)) {
                Ok(jpeg) => (stand_in.mime().to_owned(), jpeg),
                Err(_) => (fmt.mime().to_owned(), found),
            }
        },
        _ => (fmt.mime().to_owned(), found),
    }
}

/// A cached preview source, prepared from `path` under `resize`, serves a new preview of `path`
/// under `resize` when both match: changing only the cap or the format keeps the decoded source.
pub fn reuses_source(cached: &Option<(String, ResizeMode)>, path: &str, resize: ResizeMode) -> (r: bool)
    ensures
        r == (cached matches Some(entry) && entry.0@ == path@ && entry.1 == resize),
{
    match cached {
        Some((cached_path, cached_resize)) => str_eq(cached_path.as_str(), path) && *cached_resize == resize,
        None => false,
    }
}

/// The data URL a preview is shown through: `data:`, its MIME type (`image/jpeg` when it has
/// none), `;base64,` and the base64 text of its bytes; none when the preview has no bytes.
pub fn preview_data_url(mime: &Option<String>, has_bytes: bool, base64_text: &str) -> (r: Option<String>)
    ensures
        !has_bytes ==> r is None,
        has_bytes ==> (r matches Some(u) && u@ == "data:"@ + match mime {
            Some(m) => m@,
            None => "image/jpeg"@,
        } + ";base64,"@ + base64_text@),
{
    if !has_bytes {
        return None;
    }
    let mut out: Vec<char> = Vec::new();
    push_str(&mut out, "data:");
    match mime {
        Some(m) => push_str(&mut out, m.as_str()),
        None => push_str(&mut out, "image/jpeg"),
    }
    push_str(&mut out, ";base64,");
    push_str(&mut out, base64_text);
    Some(string_of(&out))
}

} // verus!
