//! The per-file decisions of a batch run that do not touch the filesystem: which inputs are
//! images, which encoder a file gets, when an under-cap file may be copied instead of re-encoded,
//! how much of the cap is reserved for re-embedded metadata, and the calendar date stamp.
use vstd::prelude::*;
use crate::encode::EncodeFormat;
use crate::model::{MetadataMode, Options, OutputFormat};
use crate::paths::{extension, path_extension};
use crate::raster::Raster;
use crate::model::ResizeMode;
use crate::text::{ascii_lower_seq, chars_of, chars_eq, decimal, push_decimal, push_str, str_eq, string_of, to_ascii_lower};

verus! {

/// File extensions the engine will attempt to decode.
pub const SUPPORTED_EXTENSIONS: [&'static str; 6] = ["jpg", "jpeg", "png", "webp", "tif", "tiff"];

/// Whether `ext` (already lower-cased) is one of [`SUPPORTED_EXTENSIONS`].
pub open spec fn is_supported_ext(ext: Seq<char>) -> bool {
    exists|i: int| 0 <= i < 6 && #[trigger] SUPPORTED_EXTENSIONS[i]@ == ext
}

/// Whether a path names a supported image: its extension, ASCII lower-cased, is supported.
pub open spec fn supported_path(path: Seq<char>) -> bool {
    match path_extension(path) {
        Some(e) => is_supported_ext(ascii_lower_seq(e)),
        None => false,
    }
}

/// True if `path` has a supported image extension (case-insensitive).
pub fn is_supported(path: &str) -> (r: bool)
    ensures
        r == supported_path(path@),
{
    let ext = match extension(path) {
        Some(e) => e,
        None => {
            return false;
        },
    };
    assert(path_extension(path@) == Some(ext@));
    let e = chars_of(ext.as_str());
    let lower = to_ascii_lower(&e);
    let mut i: usize = 0;
    while i < 6
        invariant
            i <= 6,
            lower@ == ascii_lower_seq(ext@),
            path_extension(path@) == Some(ext@),
            forall|k: int| 0 <= k < i ==> SUPPORTED_EXTENSIONS[k]@ != lower@,
        decreases 6 - i,
    {
        let known: [&str; 6] = SUPPORTED_EXTENSIONS;
        let candidate = chars_of(known[i]);
        if chars_eq(&candidate, &lower) {
            assert(known[i as int]@ == lower@);
            assert(is_supported_ext(lower@));
            return true;
        }
        i = i + 1;
    }
    false
}

/// Support is case-insensitive: two paths whose extensions agree up to ASCII case are both
/// supported or both not.
pub proof fn support_ignores_extension_case(a: Seq<char>, b: Seq<char>, ea: Seq<char>, eb: Seq<char>)
    requires
        path_extension(a) == Some(ea),
        path_extension(b) == Some(eb),
        ascii_lower_seq(ea) == ascii_lower_seq(eb),
    ensures
        supported_path(a) == supported_path(b),
{
}

/// The encoder a file gets: the requested format, with `Keep` choosing PNG for images with alpha
/// and JPEG (flattened over `background`) otherwise.
pub open spec fn format_for(of: OutputFormat, has_alpha: bool, background: [u8; 3]) -> EncodeFormat {
    match of {
        OutputFormat::Jpeg => EncodeFormat::Jpeg { background },
        OutputFormat::Png => EncodeFormat::Png,
        OutputFormat::Avif => EncodeFormat::Avif,
        OutputFormat::Keep => if has_alpha {
            EncodeFormat::Png
        } else {
            EncodeFormat::Jpeg { background }
        },
    }
}

/// A requested format is the one used, whether the image has alpha or not: PNG gives PNG, JPEG
/// gives JPEG over the background, AVIF gives AVIF. Only `Keep` looks at the alpha, giving PNG to
/// an image with alpha and JPEG to one without.
pub proof fn requested_formats_are_honoured(of: OutputFormat, has_alpha: bool, background: [u8; 3])
    ensures
        of !is Keep ==> format_for(of, has_alpha, background) == format_for(of, !has_alpha, background),
        of is Png ==> format_for(of, has_alpha, background) is Png,
        of is Jpeg ==> format_for(of, has_alpha, background) == (EncodeFormat::Jpeg { background }),
        of is Avif ==> format_for(of, has_alpha, background) is Avif,
        of is Keep ==> (format_for(of, has_alpha, background) is Png <==> has_alpha),
        of is Keep && !has_alpha ==> format_for(of, has_alpha, background) == (EncodeFormat::Jpeg {
            background,
        }),
{
}

/// The encoder for an image with (or without) alpha.
pub fn resolve_format_with_alpha(of: OutputFormat, has_alpha: bool, background: [u8; 3]) -> (r:
    EncodeFormat)
    ensures
        r == format_for(of, has_alpha, background),
        of is Png ==> r is Png,
        of is Jpeg ==> r == (EncodeFormat::Jpeg { background }),
        of is Avif ==> r is Avif,
        of is Keep ==> (r is Png <==> has_alpha),
{
    match of {
        OutputFormat::Jpeg => EncodeFormat::Jpeg { background },
        OutputFormat::Png => EncodeFormat::Png,
        OutputFormat::Avif => EncodeFormat::Avif,
        OutputFormat::Keep => {
            if has_alpha {
                EncodeFormat::Png
            } else {
                EncodeFormat::Jpeg { background }
            }
        },
    }
}

/// The encoder for a decoded image.
pub fn resolve_format(of: OutputFormat, img: &Raster, background: [u8; 3]) -> (r: EncodeFormat)
    ensures
        r == format_for(of, img.has_alpha, background),
{
    resolve_format_with_alpha(of, img.has_alpha, background)
}

/// An already-under-cap file is copied as-is (instead of re-encoded) only when the options ask for
/// it and the file is non-empty and within the cap.
pub fn copy_as_is_eligible(options: &Options, original_bytes: u64, cap: u64) -> (r: bool)
    ensures
        r == (options.skip_if_under_cap && original_bytes <= cap && original_bytes > 0),
{
    options.skip_if_under_cap && original_bytes <= cap && original_bytes > 0
}

/// The room a re-embedded profile of `n` bytes takes, before saturating: its length and 24 bytes,
/// and in a JPEG another 18 bytes of segment header for each further segment of 65519 bytes it
/// spills into.
pub open spec fn icc_room(n: nat, ext: Seq<char>) -> nat {
    if ext == "jpg"@ {
        n + 24 + 18 * (n / 65519)
    } else {
        n + 24
    }
}

/// Room reserved in the cap for a re-embedded ICC profile: [`icc_room`], for the non-strip
/// metadata modes without sRGB conversion, when the output is a JPEG or PNG (at most the whole
/// `u64` range).
pub open spec fn icc_reserve(options: Options, icc_len: Option<usize>, ext: Seq<char>) -> nat {
    if options.metadata != MetadataMode::StripAll && !options.convert_srgb {
        match icc_len {
            Some(n) => if ext == "jpg"@ || ext == "png"@ {
                if icc_room(n as nat, ext) > u64::MAX {
                    u64::MAX as nat
                } else {
                    icc_room(n as nat, ext)
                }
            } else {
                0
            },
            None => 0,
        }
    } else {
        0
    }
}

/// The cap the size search aims for: the file's cap less the room reserved for a re-embedded ICC
/// profile, so the final file still fits (never below zero).
pub fn effective_cap(options: &Options, cap: u64, icc_len: Option<usize>, ext: &str) -> (r: u64)
    ensures
        r == if cap >= icc_reserve(*options, icc_len, ext@) {
            cap - icc_reserve(*options, icc_len, ext@)
        } else {
            0
        },
{
    let reserve: u64 = if options.metadata != MetadataMode::StripAll && !options.convert_srgb {
        match icc_len {
            Some(n) => {
                let is_jpg = str_eq(ext, "jpg");
                if is_jpg || str_eq(ext, "png") {
                    let n64 = n as u64;
                    let extra: u64 = if is_jpg {
                        18 * (n64 / 65519)
                    } else {
                        0
                    };
                    n64.saturating_add(24).saturating_add(extra)
                } else {
                    0
                }
            },
            None => 0,
        }
    } else {
        0
    };
    cap.saturating_sub(reserve)
}

/// Why a file's cap could not be met, in words.
pub open spec fn unreachable_text(options: Options, cap: u64) -> Seq<char> {
    match options.resize {
        ResizeMode::Exact { width, height, .. } => "cap of "@ + decimal(cap as nat)
            + " bytes not reachable at the locked "@ + decimal(width as nat) + "\u{00d7}"@ + decimal(
            height as nat,
        ) + " size"@,
        ResizeMode::Fit { .. } => "cap of "@ + decimal(cap as nat) + " bytes not reachable above "@
            + decimal(options.min_long_edge as nat) + "px"@,
    }
}

/// The reason recorded for an `Unreachable` outcome.
pub fn unreachable_reason(options: &Options, cap: u64) -> (r: String)
    ensures
        r@ == unreachable_text(*options, cap),
{
    let mut out: Vec<char> = Vec::new();
    push_str(&mut out, "cap of ");
    push_decimal(&mut out, cap);
    match options.resize {
        ResizeMode::Exact { width, height, .. } => {
            push_str(&mut out, " bytes not reachable at the locked ");
            push_decimal(&mut out, width as u64);
            push_str(&mut out, "\u{00d7}");
            push_decimal(&mut out, height as u64);
            push_str(&mut out, " size");
        },
        ResizeMode::Fit { .. } => {
            push_str(&mut out, " bytes not reachable above ");
            push_decimal(&mut out, options.min_long_edge as u64);
            push_str(&mut out, "px");
        },
    }
    string_of(&out)
}

} // verus!
