//! The core: find, at a given image size, the encode that fits a byte cap with the best quality.
//! The quality is binary-searched upward from the smallest encode; a caller that cannot fit even
//! the smallest encode shrinks the image and asks again.
use vstd::prelude::*;
use crate::encode::{encodable, encode, encoded, quality_range_of, EncodeFormat};
use crate::error::EngineError;
use crate::metadata::{encoder_jpeg, exif_orientation_of};
use crate::model::Options;
use crate::raster::Raster;

verus! {

/// The outcome of trying one image size against the cap.
pub enum SizeStep {
    /// Even the smallest encode at this size is over the cap; `smallest` is its length.
    TooLarge { smallest: u64 },
    /// The chosen encode: within the cap, at quality `quality` (`None` for lossless formats).
    Fits { bytes: Vec<u8>, quality: Option<u8> },
}

/// The smallest encode this size can produce: the lowest quality of the range, or the single
/// lossless encode.
pub open spec fn smallest_encoding(work: crate::raster::RasterView, fmt: EncodeFormat, opts: Options) -> Option<
    Seq<u8>,
> {
    match quality_range_of(fmt, opts) {
        Some((lo, _)) => encoded(work, fmt, Some(lo)),
        None => encoded(work, fmt, None),
    }
}

/// Quality `q` encodes and the result fits in `cap` bytes.
pub open spec fn fits_at(work: crate::raster::RasterView, fmt: EncodeFormat, q: u8, cap: u64) -> bool {
    encoded(work, fmt, Some(q)) matches Some(b) && b.len() <= cap
}

/// Quality `q` encodes and the result is over `cap` bytes.
pub open spec fn overshoots_at(work: crate::raster::RasterView, fmt: EncodeFormat, q: u8, cap: u64) -> bool {
    encoded(work, fmt, Some(q)) matches Some(b) && b.len() > cap
}

/// Every quality in `lo..=hi` encodes without error.
pub open spec fn all_encode(work: crate::raster::RasterView, fmt: EncodeFormat, lo: u8, hi: u8) -> bool {
    forall|q: u8| lo <= q <= hi ==> (#[trigger] encoded(work, fmt, Some(q))) is Some
}

/// Encode `work` at the lowest quality (or losslessly). Over the cap: report `TooLarge`. For a
/// lossless format the single encode is the answer. Otherwise binary-search the quality upward for
/// the largest file still within the cap; `quality_hint` (a quality that worked for a previous,
/// similar image) is probed first to narrow the range. The result is within the cap, and one
/// quality step higher is over it (or the top of the range was reached).
pub fn fit_at_size(
    work: &Raster,
    cap_bytes: u64,
    fmt: EncodeFormat,
    opts: &Options,
    quality_hint: Option<u8>,
) -> (r: Result<SizeStep, EngineError>)
    requires
        encodable(work@, fmt),
    ensures
        match r {
            Ok(SizeStep::TooLarge { smallest }) => smallest_encoding(work@, fmt, *opts) matches Some(
                b,
            ) && smallest == b.len() && b.len() > cap_bytes,
            Ok(SizeStep::Fits { bytes, quality }) => bytes@.len() <= cap_bytes && match quality_range_of(
                fmt,
                *opts,
            ) {
                None => quality is None && smallest_encoding(work@, fmt, *opts) == Some(bytes@),
                Some((lo, hi)) => quality matches Some(q) && lo <= q <= hi && encoded(
                    work@,
                    fmt,
                    Some(q),
                ) == Some(bytes@) && (q == hi || overshoots_at(work@, fmt, (q + 1) as u8, cap_bytes)),
            },
            Err(e) => e is Encode && (smallest_encoding(work@, fmt, *opts) is None || (
            quality_range_of(fmt, *opts) matches Some((lo, hi)) && !all_encode(work@, fmt, lo, hi))),
        },
        smallest_encoding(work@, fmt, *opts) is Some && (quality_range_of(fmt, *opts) matches Some(
            (lo, hi),
        ) ==> all_encode(work@, fmt, lo, hi)) ==> r is Ok,
        fmt is Jpeg ==> (r matches Ok(SizeStep::Fits { bytes, .. }) ==> encoder_jpeg(bytes@)
            && exif_orientation_of(bytes@) is None),
{
    let range = fmt.quality_range(opts);
    let q_lo = match range {
        Some((lo, _)) => Some(lo),
        None => None,
    };
    let smallest = match encode(work, fmt, q_lo) {
        Ok(b) => b,
        Err(e) => {
            return Err(e);
        },
    };
    if smallest.len() as u64 > cap_bytes {
        return Ok(SizeStep::TooLarge { smallest: smallest.len() as u64 });
    }
    let (lo, hi) = match range {
        Some(bounds) => bounds,
        None => {
            return Ok(SizeStep::Fits { bytes: smallest, quality: None });
        },
    };
    let mut best_q = lo;
    let mut best_bytes = smallest;
    let mut low: u8 = lo + 1;
    let mut high: u8 = hi;
    match quality_hint {
        Some(hq) => {
            if hq > lo && hq <= hi {
                let candidate = match encode(work, fmt, Some(hq)) {
                    Ok(b) => b,
                    Err(e) => {
                        return Err(e);
                    },
                };
                if candidate.len() as u64 <= cap_bytes {
                    best_q = hq;
                    best_bytes = candidate;
                    low = hq + 1;
                } else {
                    high = hq - 1;
                }
            }
        },
        None => {},
    }
    while low <= high
        invariant
            1 <= lo <= hi <= 100,
            quality_range_of(fmt, *opts) == Some((lo, hi)),
            encodable(work@, fmt),
            lo <= best_q <= hi,
            best_q + 1 == low,
            low <= high + 1,
            high <= hi,
            encoded(work@, fmt, Some(best_q)) == Some(best_bytes@),
            best_bytes@.len() <= cap_bytes,
            fmt is Jpeg ==> encoder_jpeg(best_bytes@) && exif_orientation_of(best_bytes@) is None,
            high == hi || overshoots_at(work@, fmt, (high + 1) as u8, cap_bytes),
        decreases high + 1 - low,
    {
        let mid = low + (high - low) / 2;
        let candidate = match encode(work, fmt, Some(mid)) {
            Ok(b) => b,
            Err(e) => {
                return Err(e);
            },
        };
        if candidate.len() as u64 <= cap_bytes {
            best_q = mid;
            best_bytes = candidate;
            low = mid + 1;
        } else {
            high = mid - 1;
        }
    }
    Ok(SizeStep::Fits { bytes: best_bytes, quality: Some(best_q) })
}

/// What the size search does after trying one image size.
pub enum SearchMove {
    /// This encode is the answer.
    Accept { bytes: Vec<u8>, quality: Option<u8> },
    /// The cap cannot be met: the dimensions are locked, or the long edge is already at the floor
    /// or a single pixel.
    Unreachable,
    /// Shrink the image and try again; `smallest` is the smallest encode at the current size.
    Shrink { smallest: u64 },
}

/// The decision after [`fit_at_size`]: a fitting encode is accepted; when even the smallest encode
/// is over the cap, the image shrinks, unless its dimensions are locked (`allow_downscale` false,
/// exact mode), its long edge is already at or below `min_long_edge`, or it is a single pixel
/// that cannot shrink at all, in which case the cap is unreachable. So the search always ends.
pub fn next_move(step: SizeStep, allow_downscale: bool, long_edge: u32, min_long_edge: u32) -> (r:
    SearchMove)
    ensures
        match step {
            SizeStep::Fits { bytes, quality } => r matches SearchMove::Accept { bytes: b, quality: q }
                && b@ == bytes@ && q == quality,
            SizeStep::TooLarge { smallest } => if !allow_downscale || long_edge <= min_long_edge
                || long_edge <= 1 {
                r is Unreachable
            } else {
                r matches SearchMove::Shrink { smallest: s } && s == smallest
            },
        },
        !allow_downscale ==> !(r is Shrink),
        r is Shrink ==> long_edge > 1 && long_edge > min_long_edge,
{
    match step {
        SizeStep::Fits { bytes, quality } => SearchMove::Accept { bytes, quality },
        SizeStep::TooLarge { smallest } => {
            if !allow_downscale || long_edge <= min_long_edge || long_edge <= 1 {
                SearchMove::Unreachable
            } else {
                SearchMove::Shrink { smallest }
            }
        },
    }
}

/// When a larger quality never gives a smaller file, the quality found is the best one: no
/// quality above it in the range fits the cap.
pub proof fn best_quality_when_size_grows_with_quality(
    work: crate::raster::RasterView,
    fmt: EncodeFormat,
    lo: u8,
    hi: u8,
    q: u8,
    cap: u64,
)
    requires
        lo <= q <= hi,
        all_encode(work, fmt, lo, hi),
        forall|a: u8, b: u8|
            lo <= a <= b <= hi ==> (#[trigger] encoded(work, fmt, Some(a))).unwrap().len() <= (
            #[trigger] encoded(work, fmt, Some(b))).unwrap().len(),
        q == hi || overshoots_at(work, fmt, (q + 1) as u8, cap),
    ensures
        forall|p: u8| q < p <= hi ==> !fits_at(work, fmt, p, cap),
{
    assert forall|p: u8| q < p <= hi implies !fits_at(work, fmt, p, cap) by {
        let next = (q + 1) as u8;
        assert(encoded(work, fmt, Some(next)) is Some);
        assert(encoded(work, fmt, Some(p)) is Some);
        assert(encoded(work, fmt, Some(next)).unwrap().len() <= encoded(work, fmt, Some(p)).unwrap().len());
    }
}

} // verus!
