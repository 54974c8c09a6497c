//! Target-size image compression engine: the logic that decides how an image is sized, encoded,
//! named and written so that the result fits a byte cap with the best quality available, plus the
//! text of the command-line and OS shell integration. The pixel codecs are outside crates called
//! through small trusted functions; everything else is verified.

pub mod text;
pub mod rename;
pub mod model;
pub mod error;
pub mod raster;
pub mod codec;
pub mod encode;
pub mod decode;
pub mod resize;
pub mod crop;
pub mod paths;
pub mod batch;
pub mod watch;
pub mod naming;
pub mod metadata;
pub mod target;
pub mod process;
pub mod preview;
pub mod calendar;
pub mod job;
pub mod shell;
pub mod cli;

pub use batch::{is_supported, SUPPORTED_EXTENSIONS};
pub use crop::{cover_crop_rect, cover_crop_resize, CropRect};
pub use encode::EncodeFormat;
pub use error::EngineError;
pub use metadata::{apply_color_and_orientation, mux_metadata, plan_copy, read_source_meta, CopyPlan, SourceMeta};
pub use model::{
    Anchor, BatchItem, BatchSummary, CollisionPolicy, FileResult, InputFile, MetadataMode, Options,
    Outcome, OutputFormat, Progress, ResizeMode,
};
pub use naming::{output_base_name, resolve_output_path, resolve_output_path_with_base, NameInfo, Resolved, ResolveStep};
pub use raster::Raster;
pub use preview::{prepare_source, thumbnail, PreviewSource};
pub use process::{prepare_for_cap, Prepared};
pub use rename::{expand_name, preview_rename, NameContext};
pub use target::{fit_at_size, next_move, SearchMove, SizeStep};
pub use watch::{should_ingest, PendingFiles, SettleTracker};
