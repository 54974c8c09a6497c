//! The engine's shared vocabulary: what the caller asks for (`Options`, `ResizeMode`, …) and what
//! each file comes out as (`Outcome`, `FileResult`, …). Paths are held as strings.
use vstd::prelude::*;

verus! {

/// Output container the user wants. `Keep` picks PNG for images with alpha, JPEG otherwise.
#[derive(Debug, Clone, Copy, PartialEq, Eq, Structural)]
pub enum OutputFormat {
    Keep,
    Jpeg,
    Png,
    Avif,
}

/// Which edge a crop is anchored to on the axis being cropped when producing an exact size.
/// Applies to the cropped axis only: left/centre/right when trimming width, top/centre/bottom when
/// trimming height.
#[derive(Debug, Clone, Copy, PartialEq, Eq, Structural)]
pub enum Anchor {
    /// Keep the top (cropping height) or left (cropping width) edge.
    Start,
    /// Centre the crop (default).
    Center,
    /// Keep the bottom (cropping height) or right (cropping width) edge.
    End,
}

impl Default for Anchor {
    fn default() -> (r: Self)
        ensures
            r == Anchor::Center,
    {
        Anchor::Center
    }
}

/// How the engine sizes the output before the byte-cap search runs.
#[derive(Debug, Clone, Copy, PartialEq, Eq, Structural)]
pub enum ResizeMode {
    /// Preserve aspect ratio, bounding the longest edge. `max_dimension == None` means no resize.
    /// Never upscales; the cap search may still downscale dimensions to meet the cap.
    Fit { max_dimension: Option<u32> },
    /// Produce EXACTLY `width` x `height` pixels via crop-to-fill (cover): scale and crop so the
    /// image fully covers the box — never adding borders. Dimensions are locked, so the cap search
    /// varies quality only and never downscales below the target.
    Exact { width: u32, height: u32, anchor: Anchor, allow_upscale: bool },
}

impl Default for ResizeMode {
    fn default() -> (r: Self)
        ensures
            r == (ResizeMode::Fit { max_dimension: None }),
    {
        ResizeMode::Fit { max_dimension: None }
    }
}

/// What to do when the computed output path already exists on disk.
#[derive(Debug, Clone, Copy, PartialEq, Eq, Structural)]
pub enum CollisionPolicy {
    /// Append `-1`, `-2`, … until a free name is found.
    Suffix,
    /// Overwrite the existing file.
    Overwrite,
    /// Leave the existing file untouched and record the input as skipped.
    Skip,
}

/// Which source metadata survives into the output. Orientation is always baked into the pixels.
#[derive(Debug, Clone, Copy, PartialEq, Eq, Structural)]
pub enum MetadataMode {
    /// Drop everything (the default): no EXIF, GPS, XMP, comments or ICC profile.
    StripAll,
    /// Keep everything the engine can carry over.
    KeepAll,
    /// Keep the orientation and the ICC colour profile, drop the rest.
    KeepOrientationIcc,
    /// Drop the GPS position (with the rest of EXIF), keep the ICC profile.
    StripGps,
}

impl Default for MetadataMode {
    fn default() -> (r: Self)
        ensures
            r == MetadataMode::StripAll,
    {
        MetadataMode::StripAll
    }
}

/// Everything the engine needs to process a batch.
#[derive(Debug, Clone)]
pub struct Options {
    /// The hard size cap, in bytes. Output is always `<= cap_bytes` when reachable.
    pub cap_bytes: u64,
    /// How the output is sized before the cap search: fit-by-longest-edge (the default) or an exact
    /// crop-to-fill target.
    pub resize: ResizeMode,
    pub output_format: OutputFormat,
    /// `None` writes next to each source file.
    pub output_dir: Option<String>,
    /// Appended to the file stem, e.g. `-compressed`.
    pub suffix: String,
    pub collision: CollisionPolicy,
    /// Re-encoding always drops metadata; kept for forward-compat / copy-as-is paths.
    pub strip_metadata: bool,
    /// If true, a source already `<= cap_bytes` is copied as-is instead of re-encoded.
    pub skip_if_under_cap: bool,
    /// Lower / upper bound of the quality binary search (1..=100).
    pub jpeg_quality_min: u8,
    pub jpeg_quality_max: u8,
    /// Floor on the longest edge during the downscale fallback; below this a cap is unreachable.
    pub min_long_edge: u32,
    /// Background used to flatten alpha when encoding an image with transparency to JPEG.
    pub background: [u8; 3],
    /// Which metadata to re-embed in the output.
    pub metadata: MetadataMode,
    /// Convert pixels to sRGB via the source ICC profile before encoding.
    pub convert_srgb: bool,
    /// Output-name pattern (`{name}-{seq:000}` …); `None` uses `stem + suffix`.
    pub rename_pattern: Option<String>,
}

impl Default for Options {
    fn default() -> (r: Self)
        ensures
            r.cap_bytes == 500 * 1024,
            r.resize == (ResizeMode::Fit { max_dimension: None }),
            r.output_format == OutputFormat::Jpeg,
            r.output_dir is None,
            r.suffix@ == "-compressed"@,
            r.collision == CollisionPolicy::Suffix,
            r.strip_metadata,
            r.skip_if_under_cap,
            r.jpeg_quality_min == 10,
            r.jpeg_quality_max == 95,
            r.min_long_edge == 16,
            r.background@ == seq![255u8, 255u8, 255u8],
            r.metadata == MetadataMode::StripAll,
            !r.convert_srgb,
            r.rename_pattern is None,
    {
        let r = Options {
            cap_bytes: 500 * 1024,
            resize: ResizeMode::Fit { max_dimension: None },
            output_format: OutputFormat::Jpeg,
            output_dir: None,
            suffix: "-compressed".to_owned(),
            collision: CollisionPolicy::Suffix,
            strip_metadata: true,
            skip_if_under_cap: true,
            jpeg_quality_min: 10,
            jpeg_quality_max: 95,
            min_long_edge: 16,
            background: [255, 255, 255],
            metadata: MetadataMode::StripAll,
            convert_srgb: false,
            rename_pattern: None,
        };
        assert(r.background@ =~= seq![255u8, 255u8, 255u8]);
        r
    }
}

/// Per-file result. Exactly one variant is produced for every input.
#[derive(Debug, Clone)]
pub enum Outcome {
    /// Re-encoded and written under the cap.
    Compressed {
        final_bytes: u64,
        /// `None` for formats without a lossy quality knob (e.g. PNG).
        quality: Option<u8>,
        width: u32,
        height: u32,
        /// True if dimensions had to shrink to meet the cap.
        downscaled: bool,
    },
    /// Source was already under the cap and copied as-is.
    SkippedUnderCap { bytes: u64 },
    /// Output already existed and the collision policy was `Skip`.
    SkippedCollision,
    /// Cap could not be met even at the dimension floor.
    Unreachable { reason: String },
    /// Decode/read/write failure — isolated to this file.
    Failed { reason: String },
    /// The job was cancelled before this file was processed.
    Cancelled,
}

#[derive(Debug, Clone)]
pub struct FileResult {
    pub input: String,
    pub output: Option<String>,
    pub original_bytes: u64,
    pub outcome: Outcome,
}

#[derive(Debug, Clone)]
pub struct BatchSummary {
    pub results: Vec<FileResult>,
    pub cancelled: bool,
}

/// Emitted once per file as the batch progresses.
#[derive(Debug, Clone)]
pub struct Progress {
    pub completed: usize,
    pub total: usize,
    pub result: FileResult,
}

/// A concrete, supported image file plus its on-disk size — what the UI lists for the user.
#[derive(Debug, Clone)]
pub struct InputFile {
    pub path: String,
    pub bytes: u64,
}

/// A file to process, optionally with its own size cap overriding the batch default.
#[derive(Debug, Clone)]
pub struct BatchItem {
    pub path: String,
    pub cap_override: Option<u64>,
}

impl BatchItem {
    pub fn new(path: String) -> (r: Self)
        ensures
            r.path == path,
            r.cap_override is None,
    {
        BatchItem { path, cap_override: None }
    }

    /// The cap this item is held to: its own override, or else the batch cap.
    pub fn effective_cap(&self, options: &Options) -> (r: u64)
        ensures
            r == match self.cap_override {
                Some(c) => c,
                None => options.cap_bytes,
            },
    {
        match self.cap_override {
            Some(c) => c,
            None => options.cap_bytes,
        }
    }
}

/// A bare path becomes an item held to the batch cap.
impl From<String> for BatchItem {
    fn from(path: String) -> (r: Self) {
        BatchItem::new(path)
    }
}

impl vstd::std_specs::convert::FromSpecImpl<String> for BatchItem {
    open spec fn obeys_from_spec() -> bool {
        true
    }

    open spec fn from_spec(path: String) -> BatchItem {
        BatchItem { path, cap_override: None }
    }
}

} // verus!
