//! One file of a batch, as a sequence of decisions around outside work. The caller performs each
//! action the job asks for (probing the image header, reading the file, searching for the encoding,
//! checking whether a path exists, writing the output) and hands the result to the matching step;
//! every decision — copy or re-encode, which outcome, which path, which failure reason — is made
//! here. Each action carries what the next step needs, so the caller only dispatches.
use vstd::prelude::*;
use crate::batch::{copy_as_is_eligible, icc_reserve, unreachable_reason, unreachable_text};
use crate::encode::{format_ext, EncodeFormat};
use crate::error::{error_text, EngineError};
use crate::metadata::{
    copy_plan_of, embedded_icc, encoder_jpeg, exif_orientation_of, holds_no_private_segments, muxed,
    muxed_within, mux_growth, mux_metadata_within, opt_seq, plan_copy, segments_carry_lengths,
    CopyPlan, SourceMeta,
};
use crate::model::{MetadataMode, Options, Outcome};
use crate::naming::{
    answer_plan, candidate, first_plan, output_base, output_base_name, output_parent,
    resolve_after_check, resolve_output_path_with_base, NameInfo, Plan, Resolved, ResolveStep,
    carries_out, spares,
};
use crate::paths::{extension, path_extension};
use crate::process::{cap_less, opt_len, prepare_error, prepare_for_cap, prepared_parts, prepares};
use crate::raster::RasterView;
use crate::raster::Raster;
use crate::text::{chars_of, push_str, string_of};

verus! {

/// What the caller is processing: the input path, the options, the file's cap, its 1-based
/// position in the batch, the batch's date stamp, and the input's size on disk.
pub struct JobContext<'a> {
    pub input: &'a str,
    pub options: &'a Options,
    pub cap: u64,
    pub seq: usize,
    pub date: &'a str,
    pub original_bytes: u64,
}

/// The encode a search found.
pub struct Found {
    pub bytes: Vec<u8>,
    /// `None` for lossless formats.
    pub quality: Option<u8>,
    pub width: u32,
    pub height: u32,
    pub downscaled: bool,
}

/// An output path being chosen: the extension and base name, the candidate number last handed
/// out, the bytes to write, the outcome on success, and whether this is the copy of an under-cap
/// file.
pub struct Resolution {
    pub ext: String,
    pub base: String,
    pub attempt: u32,
    pub bytes: Vec<u8>,
    pub success: Outcome,
    pub copying: bool,
}

/// What the caller does next.
pub enum JobAction {
    /// Read the input's image header; report its dimensions to [`on_header`] (`None` when it is not
    /// a readable image).
    ProbeHeader,
    /// Read the input to copy it; report to [`on_copy_bytes`] with `dims`.
    ReadForCopy { dims: (u32, u32) },
    /// Read the input to re-encode it; report to [`on_input`].
    ReadInput,
    /// Search for the best encoding of `image` in `format` within `search_cap` (shrinking further
    /// only when `allow_downscale`); report to [`on_search`] with `meta` and `format`.
    Search {
        image: Raster,
        format: EncodeFormat,
        search_cap: u64,
        allow_downscale: bool,
        meta: SourceMeta,
    },
    /// Check whether `path` exists; report to [`on_exists`] with `resolution`.
    CheckExists { path: String, resolution: Resolution },
    /// Write `bytes` to `path`; report to [`on_written`] with `path`, `success` and `copying`.
    Write { path: String, bytes: Vec<u8>, success: Outcome, copying: bool },
    /// The file is finished.
    Done { output: Option<String>, outcome: Outcome },
}

/// The job ended as a failure with the given reason and no output.
pub open spec fn fails_with(r: JobAction, reason: Seq<char>) -> bool {
    r matches JobAction::Done { output, outcome } && output is None && (
    outcome matches Outcome::Failed { reason: t } && t@ == reason)
}

/// The outcome the file gets if the write `r` leads to succeeds: the one carried by a path check
/// or a write, `None` for any other action.
pub open spec fn pending_outcome(r: JobAction) -> Option<Outcome> {
    match r {
        JobAction::CheckExists { resolution, .. } => Some(resolution.success),
        JobAction::Write { success, .. } => Some(success),
        _ => None,
    }
}

/// No path the job probes or writes is the input path itself.
pub open spec fn spares_input(r: JobAction, input: Seq<char>) -> bool {
    match r {
        JobAction::CheckExists { path, .. } => path@ != input,
        JobAction::Write { path, .. } => path@ != input,
        _ => true,
    }
}

/// What a size search promises of the encode it found for an image of `width` x `height`: it fits
/// `search_cap`; it is at the searched size unless it was downscaled; and it was not downscaled
/// when the dimensions are locked.
pub open spec fn found_fits(f: Found, search_cap: u64, allow_downscale: bool, width: u32, height: u32) -> bool {
    &&& f.bytes@.len() <= search_cap
    &&& !f.downscaled ==> f.width == width && f.height == height
    &&& !allow_downscale ==> !f.downscaled
}

/// The inputs on which the room the search leaves for metadata covers what re-embedding it adds,
/// so the profile is kept: metadata stripped; an AVIF (nothing is re-embedded); a PNG that gets no
/// profile; or a JPEG whose segments all carry a length field, as every JPEG the encoder writes
/// does. A compressed PNG profile can outgrow its room; the file is then written without it.
pub open spec fn reserve_suffices(
    found: Seq<u8>,
    icc: Option<Seq<u8>>,
    opts: Options,
    format: EncodeFormat,
) -> bool {
    ||| opts.metadata == MetadataMode::StripAll
    ||| format is Avif
    ||| format is Png && embedded_icc(icc, opts) is None
    ||| format is Jpeg && segments_carry_lengths(found)
}

/// The job carries out a step of the output-path resolution: probe a candidate, write to it, or
/// skip the file because of a collision.
pub open spec fn follows_plan(
    r: JobAction,
    plan: Plan,
    parent: Seq<char>,
    base: Seq<char>,
    ext: Seq<char>,
    bytes: Seq<u8>,
    success: Outcome,
    copying: bool,
) -> bool {
    match plan {
        Plan::Probe(n) => r matches JobAction::CheckExists { path, resolution } && path@ == candidate(
            parent,
            base,
            ext,
            n,
        ) && resolution.ext@ == ext && resolution.base@ == base && resolution.attempt == n
            && resolution.bytes@ == bytes && resolution.success == success && resolution.copying
            == copying,
        Plan::Take(n) => r matches JobAction::Write { path, bytes: b, success: s, copying: c }
            && path@ == candidate(parent, base, ext, n) && b@ == bytes && s == success && c
            == copying,
        Plan::Skip => r matches JobAction::Done { output, outcome } && output is None
            && outcome is SkippedCollision,
    }
}

/// The extension an under-cap copy keeps: the input's, or `img` when it has none.
pub open spec fn copy_ext(input: Seq<char>) -> Seq<char> {
    match path_extension(input) {
        Some(e) => e,
        None => "img"@,
    }
}

/// The naming details of a file: its batch position, dimensions and the date.
pub open spec fn name_info<'a>(ctx: JobContext<'a>, width: u32, height: u32) -> NameInfo<'a> {
    NameInfo { seq: ctx.seq, width, height, date: ctx.date }
}

fn failure(reason: Vec<char>) -> (r: JobAction)
    ensures
        fails_with(r, reason@),
{
    JobAction::Done { output: None, outcome: Outcome::Failed { reason: string_of(&reason) } }
}

fn message_with(prefix: &str, detail: &str) -> (r: Vec<char>)
    ensures
        r@ == prefix@ + detail@,
{
    let mut out = chars_of(prefix);
    push_str(&mut out, detail);
    out
}

/// Turn a resolution step into the job's next action.
fn act_on(
    step: ResolveStep,
    ext: String,
    base: String,
    bytes: Vec<u8>,
    success: Outcome,
    copying: bool,
    Ghost(plan): Ghost<Plan>,
    Ghost(parent): Ghost<Seq<char>>,
    Ghost(input): Ghost<Seq<char>>,
) -> (r: JobAction)
    requires
        carries_out(step, plan, parent, base@, ext@),
        spares(step, input),
    ensures
        follows_plan(r, plan, parent, base@, ext@, bytes@, success, copying),
        spares_input(r, input),
        pending_outcome(r) matches Some(o) ==> o == success,
{
    match step {
        ResolveStep::Check { path, attempt } => JobAction::CheckExists {
            path,
            resolution: Resolution { ext, base, attempt, bytes, success, copying },
        },
        ResolveStep::Done(Resolved::Path(path)) => JobAction::Write { path, bytes, success, copying },
        ResolveStep::Done(Resolved::SkipCollision) => JobAction::Done {
            output: None,
            outcome: Outcome::SkippedCollision,
        },
    }
}

/// The first action for a file: an under-cap file (when the options allow copying) is first
/// checked to be a readable image; any other file is read for re-encoding.
pub fn start(ctx: &JobContext) -> (r: JobAction)
    ensures
        ctx.options.skip_if_under_cap && ctx.original_bytes <= ctx.cap && ctx.original_bytes > 0
            ==> r is ProbeHeader,
        !(ctx.options.skip_if_under_cap && ctx.original_bytes <= ctx.cap && ctx.original_bytes > 0)
            ==> r is ReadInput,
{
    if copy_as_is_eligible(ctx.options, ctx.original_bytes, ctx.cap) {
        JobAction::ProbeHeader
    } else {
        JobAction::ReadInput
    }
}

/// After probing the header of an under-cap file: a file that is not a readable image fails
/// (it is never passed through as a skipped image); otherwise it is read for copying.
pub fn on_header(dims: Option<(u32, u32)>) -> (r: JobAction)
    ensures
        dims is None ==> fails_with(r, "unreadable or corrupt image"@),
        dims matches Some(d) ==> (r matches JobAction::ReadForCopy { dims: e } && e == d),
{
    match dims {
        None => failure(chars_of("unreadable or corrupt image")),
        Some(d) => JobAction::ReadForCopy { dims: d },
    }
}

/// After reading an under-cap file for copying. A read error fails the file. Otherwise the copy
/// plan decides: when the metadata policy cannot be honoured losslessly the file is re-encoded;
/// else its bytes (verbatim, or with metadata stripped) go to the output path chosen for it,
/// under its own extension, named with its header dimensions, and the outcome is "skipped, under
/// the cap".
pub fn on_copy_bytes(ctx: &JobContext, dims: (u32, u32), read: Result<Vec<u8>, String>) -> (r:
    JobAction)
    ensures
        match read {
            Err(m) => fails_with(r, "I/O error for "@ + ctx.input@ + ": "@ + m@),
            Ok(b) => match copy_plan_of(b@, ctx.options.metadata, copy_ext(ctx.input@)) {
                None => r is ReadInput,
                Some(plan) => {
                    let base = output_base(ctx.input@, *ctx.options, name_info(*ctx, dims.0, dims.1));
                    let parent = output_parent(ctx.input@, *ctx.options);
                    let ext = copy_ext(ctx.input@);
                    follows_plan(
                        r,
                        first_plan(ctx.input@, parent, base, ext),
                        parent,
                        base,
                        ext,
                        match plan {
                            Some(stripped) => stripped,
                            None => b@,
                        },
                        Outcome::SkippedUnderCap { bytes: ctx.original_bytes },
                        true,
                    )
                },
            },
        },
        spares_input(r, ctx.input@),
        read matches Ok(b) ==> (copy_plan_of(b@, ctx.options.metadata, copy_ext(ctx.input@)) matches Some(
            Some(s),
        ) ==> holds_no_private_segments(s, ctx.options.metadata == MetadataMode::StripAll)),
{
    let original = match read {
        Ok(b) => b,
        Err(m) => {
            let mut msg = message_with("I/O error for ", ctx.input);
            push_str(&mut msg, ": ");
            push_str(&mut msg, m.as_str());
            return failure(msg);
        },
    };
    let ext = match extension(ctx.input) {
        Some(e) => e,
        None => "img".to_owned(),
    };
    let bytes = match plan_copy(&original, ctx.options.metadata, ext.as_str()) {
        CopyPlan::Verbatim => original,
        CopyPlan::Stripped(b) => b,
        CopyPlan::Reencode => {
            return JobAction::ReadInput;
        },
    };
    let info = NameInfo { seq: ctx.seq, width: dims.0, height: dims.1, date: ctx.date };
    let base = output_base_name(ctx.input, ctx.options, &info);
    let step = resolve_output_path_with_base(ctx.input, ctx.options, ext.as_str(), base.as_str());
    let ghost parent = output_parent(ctx.input@, *ctx.options);
    let ghost plan = first_plan(ctx.input@, parent, base@, ext@);
    act_on(
        step,
        ext,
        base,
        bytes,
        Outcome::SkippedUnderCap { bytes: ctx.original_bytes },
        true,
        Ghost(plan),
        Ghost(parent),
        Ghost(ctx.input@),
    )
}

/// After reading a file for re-encoding. A read error fails the file; a file that does not decode
/// or cannot be sized fails with the text of that error; otherwise the prepared image goes to the
/// search. Preparation is sure to succeed when the bytes decode and every upright image they may
/// give can be sized.
pub fn on_input(ctx: &JobContext, read: Result<Vec<u8>, String>) -> (r: JobAction)
    ensures
        match read {
            Err(m) => fails_with(r, "read: "@ + m@),
            Ok(b) => {
                &&& r matches JobAction::Search { image, format, search_cap, allow_downscale, meta }
                    ==> exists|up: RasterView|
                    #[trigger] prepared_parts(
                        b@,
                        *ctx.options,
                        ctx.cap,
                        up,
                        image@,
                        meta,
                        format,
                        allow_downscale,
                        search_cap,
                    )
                &&& r is Search || exists|e: EngineError|
                    #[trigger] prepare_error(b@, *ctx.options, e) && fails_with(r, error_text(e))
                &&& prepares(b@, *ctx.options) ==> r is Search
            },
        },
{
    let bytes = match read {
        Ok(b) => b,
        Err(m) => {
            return failure(message_with("read: ", m.as_str()));
        },
    };
    match prepare_for_cap(&bytes, ctx.options, ctx.cap) {
        Ok(p) => {
            let ghost up = choose|up: RasterView|
                prepared_parts(
                    bytes@,
                    *ctx.options,
                    ctx.cap,
                    up,
                    p.image@,
                    p.meta,
                    p.format,
                    p.allow_downscale,
                    p.search_cap,
                );
            let r = JobAction::Search {
                image: p.image,
                format: p.format,
                search_cap: p.search_cap,
                allow_downscale: p.allow_downscale,
                meta: p.meta,
            };
            assert(r matches JobAction::Search { image, format, search_cap, allow_downscale, meta }
                && prepared_parts(
                bytes@,
                *ctx.options,
                ctx.cap,
                up,
                image@,
                meta,
                format,
                allow_downscale,
                search_cap,
            ));
            r
        },
        Err(e) => {
            let m = e.message();
            let r = failure(chars_of(m.as_str()));
            assert(prepare_error(bytes@, *ctx.options, e) && fails_with(r, error_text(e)));
            r
        },
    }
}

/// After the search for the image `searched` (width, height) within `search_cap`, which never
/// exceeds the file's cap. An encode failure fails the file with the error's text; a cap that
/// cannot be met makes the file unreachable; a found encode gets the source metadata re-embedded
/// per the policy and goes to the output path chosen for it (named with the encode's dimensions,
/// under the format's extension), with the outcome "compressed". With metadata stripped that
/// outcome is within the file's cap; it reports the searched size unless the search downscaled,
/// which it never does when the size is locked.
pub fn on_search(
    ctx: &JobContext,
    meta: SourceMeta,
    format: EncodeFormat,
    search_cap: u64,
    allow_downscale: bool,
    searched: (u32, u32),
    result: Result<Option<Found>, EngineError>,
) -> (r: JobAction)
    requires
        search_cap <= cap_less(
            ctx.cap,
            icc_reserve(*ctx.options, opt_len(meta.icc), format_ext(format)),
        ),
        result matches Ok(Some(f)) ==> found_fits(f, search_cap, allow_downscale, searched.0, searched.1),
    ensures
        match result {
            Err(e) => fails_with(r, error_text(e)),
            Ok(None) => r matches JobAction::Done { output, outcome } && output is None && (
            outcome matches Outcome::Unreachable { reason } && reason@ == unreachable_text(
                *ctx.options,
                ctx.cap,
            )),
            Ok(Some(f)) => {
                let ext = format_ext(format);
                let bytes = muxed_within(f.bytes@, opt_seq(meta.icc), *ctx.options, ext, ctx.cap);
                let base = output_base(ctx.input@, *ctx.options, name_info(*ctx, f.width, f.height));
                let parent = output_parent(ctx.input@, *ctx.options);
                follows_plan(
                    r,
                    first_plan(ctx.input@, parent, base, ext),
                    parent,
                    base,
                    ext,
                    bytes,
                    Outcome::Compressed {
                        final_bytes: bytes.len() as u64,
                        quality: f.quality,
                        width: f.width,
                        height: f.height,
                        downscaled: f.downscaled,
                    },
                    false,
                )
            },
        },
        spares_input(r, ctx.input@),
        result matches Ok(Some(f)) ==> (reserve_suffices(
            f.bytes@,
            opt_seq(meta.icc),
            *ctx.options,
            format,
        ) ==> muxed_within(f.bytes@, opt_seq(meta.icc), *ctx.options, format_ext(format), ctx.cap)
            == muxed(f.bytes@, opt_seq(meta.icc), *ctx.options, format_ext(format))),
        result matches Ok(Some(f)) ==> (ctx.options.metadata == MetadataMode::StripAll && encoder_jpeg(
            f.bytes@,
        ) ==> {
            let written = muxed_within(
                f.bytes@,
                opt_seq(meta.icc),
                *ctx.options,
                format_ext(format),
                ctx.cap,
            );
            &&& holds_no_private_segments(written, true)
            &&& exif_orientation_of(written) == exif_orientation_of(f.bytes@)
        }),
        pending_outcome(r) matches Some(Outcome::Compressed { final_bytes, width, height, downscaled, .. })
            ==> {
            &&& final_bytes <= ctx.cap
            &&& !downscaled ==> width == searched.0 && height == searched.1
            &&& !allow_downscale ==> !downscaled
        },
{
    let found = match result {
        Ok(Some(f)) => f,
        Ok(None) => {
            return JobAction::Done {
                output: None,
                outcome: Outcome::Unreachable { reason: unreachable_reason(ctx.options, ctx.cap) },
            };
        },
        Err(e) => {
            let m = e.message();
            return failure(chars_of(m.as_str()));
        },
    };
    let ext = format.extension();
    let ghost encoded = found.bytes@;
    let final_bytes = mux_metadata_within(found.bytes, &meta, ctx.options, ext, ctx.cap);
    proof {
        reveal_strlit("jpg");
        reveal_strlit("jpeg");
        reveal_strlit("png");
        reveal_strlit("avif");
        let icc = opt_seq(meta.icc);
        let full = muxed(encoded, icc, *ctx.options, ext@);
        if reserve_suffices(encoded, icc, *ctx.options, format) {
            if ctx.options.metadata == MetadataMode::StripAll {
                assert(full.len() <= ctx.cap);
            } else if format is Avif {
                assert(ext@ == "avif"@);
                assert("avif"@[0] == 'a' && "jpg"@[0] == 'j' && "jpeg"@[0] == 'j' && "png"@[0] == 'p');
                assert(ext@ != "jpg"@ && ext@ != "jpeg"@ && ext@ != "png"@);
                assert(full.len() <= ctx.cap);
            } else if format is Png {
                assert(ext@ == "png"@);
                assert("jpg"@[0] == 'j' && "jpeg"@[0] == 'j' && "png"@[0] == 'p');
                assert(ext@ != "jpg"@ && ext@ != "jpeg"@);
                assert(full.len() <= ctx.cap);
            } else {
                assert(ext@ == "jpg"@);
                assert(mux_growth(encoded, icc, *ctx.options, ext@) is Some);
                assert(full.len() <= ctx.cap);
            }
        }
    }
    let info = NameInfo { seq: ctx.seq, width: found.width, height: found.height, date: ctx.date };
    let base = output_base_name(ctx.input, ctx.options, &info);
    let step = resolve_output_path_with_base(ctx.input, ctx.options, ext, base.as_str());
    let success = Outcome::Compressed {
        final_bytes: final_bytes.len() as u64,
        quality: found.quality,
        width: found.width,
        height: found.height,
        downscaled: found.downscaled,
    };
    let ghost parent = output_parent(ctx.input@, *ctx.options);
    let ghost plan = first_plan(ctx.input@, parent, base@, ext@);
    act_on(
        step,
        ext.to_owned(),
        base,
        final_bytes,
        success,
        false,
        Ghost(plan),
        Ghost(parent),
        Ghost(ctx.input@),
    )
}

/// After checking whether the last candidate path exists: the resolution goes on (probe the next
/// candidate, write, or skip the file) per the collision policy.
pub fn on_exists(ctx: &JobContext, resolution: Resolution, exists: bool) -> (r: JobAction)
    ensures
        follows_plan(
            r,
            answer_plan(
                ctx.input@,
                output_parent(ctx.input@, *ctx.options),
                resolution.base@,
                resolution.ext@,
                ctx.options.collision,
                resolution.attempt as nat,
                exists,
            ),
            output_parent(ctx.input@, *ctx.options),
            resolution.base@,
            resolution.ext@,
            resolution.bytes@,
            resolution.success,
            resolution.copying,
        ),
        spares_input(r, ctx.input@),
{
    let step = resolve_after_check(
        ctx.input,
        ctx.options,
        resolution.ext.as_str(),
        resolution.base.as_str(),
        resolution.attempt,
        exists,
    );
    let ghost parent = output_parent(ctx.input@, *ctx.options);
    let ghost plan = answer_plan(
        ctx.input@,
        parent,
        resolution.base@,
        resolution.ext@,
        ctx.options.collision,
        resolution.attempt as nat,
        exists,
    );
    act_on(
        step,
        resolution.ext,
        resolution.base,
        resolution.bytes,
        resolution.success,
        resolution.copying,
        Ghost(plan),
        Ghost(parent),
        Ghost(ctx.input@),
    )
}

/// After writing the output: the file is done with that output and its outcome; a failed write
/// fails the file (reported as an I/O error on the path for a copy, as a write error otherwise).
pub fn on_written(path: String, success: Outcome, copying: bool, result: Result<(), String>) -> (r:
    JobAction)
    ensures
        result is Ok ==> (r matches JobAction::Done { output, outcome } && outcome == success && (
        output matches Some(p) && p@ == path@)),
        result matches Err(m) ==> fails_with(
            r,
            if copying {
                "I/O error for "@ + path@ + ": "@ + m@
            } else {
                "write: "@ + m@
            },
        ),
{
    match result {
        Ok(()) => JobAction::Done { output: Some(path), outcome: success },
        Err(m) => {
            if copying {
                let mut msg = message_with("I/O error for ", path.as_str());
                push_str(&mut msg, ": ");
                push_str(&mut msg, m.as_str());
                failure(msg)
            } else {
                failure(message_with("write: ", m.as_str()))
            }
        },
    }
}

} // verus!
