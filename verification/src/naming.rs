//! Output naming: the base filename of each output, and the path it is written to under the
//! collision policy. Whether a candidate path already exists is a question about the disk, so the
//! path choice is a small state machine: the caller checks each candidate it is handed and
//! reports back, and the machine decides what comes next.
use vstd::prelude::*;
use crate::model::{CollisionPolicy, Options};
use crate::paths::{file_stem, join, parent, path_file_stem, path_joined, path_parent, path_same, same_path};
use crate::rename::{expand_name, expanded_name, NameContext, NameParts};
use crate::text::{chars_of, decimal, is_blank, is_blank_str, push_decimal, push_str, string_of};

verus! {

/// Where a file's output should go, or a signal to skip it.
pub enum Resolved {
    Path(String),
    SkipCollision,
}

/// Dynamic naming context the batch supplies for rename-token expansion (the parts not derivable
/// from the input path alone: the batch sequence number, output dimensions, and the date).
pub struct NameInfo<'a> {
    pub seq: usize,
    pub width: u32,
    pub height: u32,
    pub date: &'a str,
}

/// How many numbered names (`-1` … `-9999`) are tried before giving up.
pub const NUMBERED_LIMIT: u32 = 10_000;

/// The input's file stem, or `"image"` when it has none.
pub open spec fn stem_or_default(input: Seq<char>) -> Seq<char> {
    match path_file_stem(input) {
        Some(s) => s,
        None => "image"@,
    }
}

/// The output base filename (no extension): the rename pattern expanded if one is set and not
/// blank, otherwise the classic `stem + suffix`.
pub open spec fn output_base(input: Seq<char>, opts: Options, info: NameInfo) -> Seq<char> {
    let stem = stem_or_default(input);
    match opts.rename_pattern {
        Some(p) => if !is_blank(p@) {
            expanded_name(
                p@,
                NameParts {
                    stem,
                    seq: info.seq as nat,
                    width: info.width,
                    height: info.height,
                    date: info.date@,
                },
            )
        } else {
            stem + opts.suffix@
        },
        None => stem + opts.suffix@,
    }
}

fn stem_of(input: &str) -> (r: String)
    ensures
        r@ == stem_or_default(input@),
{
    match file_stem(input) {
        Some(s) => s,
        None => "image".to_owned(),
    }
}

/// The output base filename (no extension): the rename pattern expanded if one is set, otherwise the
/// classic `stem + suffix`.
pub fn output_base_name(input: &str, opts: &Options, info: &NameInfo) -> (r: String)
    ensures
        r@ == output_base(input@, *opts, *info),
{
    let stem = stem_of(input);
    match &opts.rename_pattern {
        Some(pattern) => {
            if !is_blank_str(pattern.as_str()) {
                let ctx = NameContext {
                    stem: stem.as_str(),
                    seq: info.seq,
                    width: info.width,
                    height: info.height,
                    date: info.date,
                };
                return expand_name(pattern.as_str(), &ctx);
            }
        },
        None => {},
    }
    let mut out = chars_of(stem.as_str());
    push_str(&mut out, opts.suffix.as_str());
    string_of(&out)
}

/// The folder outputs go to: the configured output folder, else the input's folder, else `"."`.
pub open spec fn output_parent(input: Seq<char>, opts: Options) -> Seq<char> {
    match opts.output_dir {
        Some(d) => d@,
        None => match path_parent(input) {
            Some(p) => p,
            None => "."@,
        },
    }
}

/// The `n`-th candidate file name: `base.ext`, then `base-1.ext`, `base-2.ext`, ….
pub open spec fn candidate_name(base: Seq<char>, ext: Seq<char>, n: nat) -> Seq<char> {
    if n == 0 {
        base + seq!['.'] + ext
    } else {
        base + seq!['-'] + decimal(n) + seq!['.'] + ext
    }
}

/// The `n`-th candidate output path.
pub open spec fn candidate(parent: Seq<char>, base: Seq<char>, ext: Seq<char>, n: nat) -> Seq<
    char,
> {
    path_joined(parent, candidate_name(base, ext, n))
}

/// What the path resolution does next, in terms of candidate numbers.
pub enum Plan {
    /// Ask whether candidate `n` exists.
    Probe(nat),
    /// Write to candidate `n`.
    Take(nat),
    /// Give up on this file (skipped because of a collision).
    Skip,
}

/// The first numbered candidate from `from` on (below the limit) that is not the input itself;
/// `Skip` when there is none.
pub open spec fn next_numbered(
    input: Seq<char>,
    parent: Seq<char>,
    base: Seq<char>,
    ext: Seq<char>,
    from: nat,
) -> Plan
    decreases NUMBERED_LIMIT - from,
{
    if from >= NUMBERED_LIMIT {
        Plan::Skip
    } else if !path_same(candidate(parent, base, ext, from), input) {
        Plan::Probe(from)
    } else {
        next_numbered(input, parent, base, ext, from + 1)
    }
}

/// The first step: probe `base.ext`, unless that is the input itself, in which case the input is
/// protected by moving straight to the numbered names.
pub open spec fn first_plan(input: Seq<char>, parent: Seq<char>, base: Seq<char>, ext: Seq<char>) -> Plan {
    if path_same(candidate(parent, base, ext, 0), input) {
        next_numbered(input, parent, base, ext, 1)
    } else {
        Plan::Probe(0)
    }
}

/// The step after learning whether candidate `attempt` exists. A free candidate is taken; a taken
/// `base.ext` is overwritten, skipped or numbered per the policy; a taken numbered name moves on to
/// the next number. A candidate that is the input itself is never taken.
pub open spec fn answer_plan(
    input: Seq<char>,
    parent: Seq<char>,
    base: Seq<char>,
    ext: Seq<char>,
    collision: CollisionPolicy,
    attempt: nat,
    exists: bool,
) -> Plan {
    if attempt >= NUMBERED_LIMIT {
        Plan::Skip
    } else if path_same(candidate(parent, base, ext, attempt), input) {
        next_numbered(input, parent, base, ext, attempt + 1)
    } else if !exists {
        Plan::Take(attempt)
    } else if attempt == 0 {
        match collision {
            CollisionPolicy::Overwrite => Plan::Take(0),
            CollisionPolicy::Skip => Plan::Skip,
            CollisionPolicy::Suffix => next_numbered(input, parent, base, ext, 1),
        }
    } else {
        next_numbered(input, parent, base, ext, attempt + 1)
    }
}

/// One step of output path resolution, as handed to the caller.
pub enum ResolveStep {
    /// Check whether `path` exists, then report back with `attempt`.
    Check { path: String, attempt: u32 },
    /// Resolution is finished.
    Done(Resolved),
}

/// `r` carries out `plan`.
pub open spec fn carries_out(
    r: ResolveStep,
    plan: Plan,
    parent: Seq<char>,
    base: Seq<char>,
    ext: Seq<char>,
) -> bool {
    match (r, plan) {
        (ResolveStep::Check { path, attempt }, Plan::Probe(n)) => attempt == n && path@ == candidate(
            parent,
            base,
            ext,
            n,
        ),
        (ResolveStep::Done(Resolved::Path(p)), Plan::Take(n)) => p@ == candidate(parent, base, ext, n),
        (ResolveStep::Done(Resolved::SkipCollision), Plan::Skip) => true,
        _ => false,
    }
}

/// Every path `r` hands out differs from the input path.
pub open spec fn spares(r: ResolveStep, input: Seq<char>) -> bool {
    match r {
        ResolveStep::Check { path, .. } => path@ != input,
        ResolveStep::Done(Resolved::Path(p)) => p@ != input,
        ResolveStep::Done(Resolved::SkipCollision) => true,
    }
}

fn output_parent_of(input: &str, opts: &Options) -> (r: String)
    ensures
        r@ == output_parent(input@, *opts),
{
    match &opts.output_dir {
        Some(d) => d.clone(),
        None => match parent(input) {
            Some(p) => p,
            None => ".".to_owned(),
        },
    }
}

fn candidate_path(parent_dir: &str, base: &str, ext: &str, n: u32) -> (r: String)
    ensures
        r@ == candidate(parent_dir@, base@, ext@, n as nat),
{
    let mut name = chars_of(base);
    if n > 0 {
        name.push('-');
        push_decimal(&mut name, n as u64);
    }
    name.push('.');
    push_str(&mut name, ext);
    let name = string_of(&name);
    proof {
        if n == 0 {
            assert(name@ =~= candidate_name(base@, ext@, 0));
        } else {
            assert(name@ =~= candidate_name(base@, ext@, n as nat));
        }
    }
    join(parent_dir, name.as_str())
}

fn numbered_from(input: &str, parent_dir: &str, base: &str, ext: &str, from: u32) -> (r: ResolveStep)
    requires
        from >= 1,
    ensures
        carries_out(r, next_numbered(input@, parent_dir@, base@, ext@, from as nat), parent_dir@, base@, ext@),
        spares(r, input@),
{
    let mut n = from;
    while n < NUMBERED_LIMIT
        invariant
            from <= n,
            next_numbered(input@, parent_dir@, base@, ext@, from as nat) == next_numbered(
                input@,
                parent_dir@,
                base@,
                ext@,
                n as nat,
            ),
        decreases NUMBERED_LIMIT - n,
    {
        let p = candidate_path(parent_dir, base, ext, n);
        if !same_path(p.as_str(), input) {
            return ResolveStep::Check { path: p, attempt: n };
        }
        n = n + 1;
    }
    ResolveStep::Done(Resolved::SkipCollision)
}

/// Start resolving the output path for `input` given an already-resolved `base_name` (no
/// extension), honoring the output directory, target extension, and collision policy. The caller
/// checks each `Check` path for existence and reports back through [`resolve_after_check`]. Never
/// settles on a path that already exists unless the policy is `Overwrite`, and never on the
/// `input` path itself — writing there would destroy the original, so the source is protected by
/// falling through to a numbered name.
pub fn resolve_output_path_with_base(input: &str, opts: &Options, ext: &str, base_name: &str) -> (r:
    ResolveStep)
    ensures
        carries_out(
            r,
            first_plan(input@, output_parent(input@, *opts), base_name@, ext@),
            output_parent(input@, *opts),
            base_name@,
            ext@,
        ),
        spares(r, input@),
{
    let parent_dir = output_parent_of(input, opts);
    let first = candidate_path(parent_dir.as_str(), base_name, ext, 0);
    if same_path(first.as_str(), input) {
        numbered_from(input, parent_dir.as_str(), base_name, ext, 1)
    } else {
        ResolveStep::Check { path: first, attempt: 0 }
    }
}

/// Continue resolving after the caller checked candidate `attempt` (the path of the last `Check`)
/// and found that it does or does not exist.
pub fn resolve_after_check(
    input: &str,
    opts: &Options,
    ext: &str,
    base_name: &str,
    attempt: u32,
    exists: bool,
) -> (r: ResolveStep)
    ensures
        carries_out(
            r,
            answer_plan(
                input@,
                output_parent(input@, *opts),
                base_name@,
                ext@,
                opts.collision,
                attempt as nat,
                exists,
            ),
            output_parent(input@, *opts),
            base_name@,
            ext@,
        ),
        spares(r, input@),
{
    if attempt >= NUMBERED_LIMIT {
        return ResolveStep::Done(Resolved::SkipCollision);
    }
    let parent_dir = output_parent_of(input, opts);
    let current = candidate_path(parent_dir.as_str(), base_name, ext, attempt);
    if same_path(current.as_str(), input) {
        return numbered_from(input, parent_dir.as_str(), base_name, ext, attempt + 1);
    }
    if !exists {
        return ResolveStep::Done(Resolved::Path(current));
    }
    if attempt == 0 {
        match opts.collision {
            CollisionPolicy::Overwrite => ResolveStep::Done(Resolved::Path(current)),
            CollisionPolicy::Skip => ResolveStep::Done(Resolved::SkipCollision),
            CollisionPolicy::Suffix => numbered_from(input, parent_dir.as_str(), base_name, ext, 1),
        }
    } else {
        numbered_from(input, parent_dir.as_str(), base_name, ext, attempt + 1)
    }
}

/// Start resolving the output path for `input` using the default `stem + suffix` base name.
pub fn resolve_output_path(input: &str, opts: &Options, ext: &str) -> (r: ResolveStep)
    ensures
        carries_out(
            r,
            first_plan(
                input@,
                output_parent(input@, *opts),
                stem_or_default(input@) + opts.suffix@,
                ext@,
            ),
            output_parent(input@, *opts),
            stem_or_default(input@) + opts.suffix@,
            ext@,
        ),
        spares(r, input@),
{
    let stem = stem_of(input);
    let mut base = chars_of(stem.as_str());
    push_str(&mut base, opts.suffix.as_str());
    let base = string_of(&base);
    resolve_output_path_with_base(input, opts, ext, base.as_str())
}

proof fn lemma_next_numbered(input: Seq<char>, parent: Seq<char>, base: Seq<char>, ext: Seq<char>, from: nat)
    ensures
        match next_numbered(input, parent, base, ext, from) {
            Plan::Probe(n) => from <= n < NUMBERED_LIMIT && !path_same(candidate(parent, base, ext, n), input)
                && forall|k: nat| from <= k < n ==> path_same(#[trigger] candidate(parent, base, ext, k), input),
            Plan::Take(_) => false,
            Plan::Skip => forall|k: nat|
                from <= k < NUMBERED_LIMIT ==> path_same(#[trigger] candidate(parent, base, ext, k), input),
        },
    decreases NUMBERED_LIMIT - from,
{
    if from < NUMBERED_LIMIT && path_same(candidate(parent, base, ext, from), input) {
        lemma_next_numbered(input, parent, base, ext, from + 1);
    }
}

/// Output path resolution never settles on, nor asks about, the input file itself: every
/// candidate it probes or takes differs from the input path.
pub proof fn resolution_never_targets_the_input(
    input: Seq<char>,
    parent: Seq<char>,
    base: Seq<char>,
    ext: Seq<char>,
    collision: CollisionPolicy,
    attempt: nat,
    exists: bool,
)
    ensures
        first_plan(input, parent, base, ext) matches Plan::Probe(n) ==> !path_same(
            candidate(parent, base, ext, n),
            input,
        ),
        answer_plan(input, parent, base, ext, collision, attempt, exists) matches Plan::Probe(n)
            ==> !path_same(candidate(parent, base, ext, n), input),
        answer_plan(input, parent, base, ext, collision, attempt, exists) matches Plan::Take(n)
            ==> !path_same(candidate(parent, base, ext, n), input),
{
    lemma_next_numbered(input, parent, base, ext, 1);
    lemma_next_numbered(input, parent, base, ext, attempt + 1);
}

/// An output path that already exists is only ever taken for the plain `base.ext` name under the
/// `Overwrite` policy; otherwise a taken path is one the caller found free.
pub proof fn resolution_overwrites_only_by_policy(
    input: Seq<char>,
    parent: Seq<char>,
    base: Seq<char>,
    ext: Seq<char>,
    collision: CollisionPolicy,
    attempt: nat,
)
    ensures
        answer_plan(input, parent, base, ext, collision, attempt, true) matches Plan::Take(n) ==> n
            == 0 && attempt == 0 && collision == CollisionPolicy::Overwrite,
        answer_plan(input, parent, base, ext, collision, attempt, false) matches Plan::Take(n) ==> n
            == attempt,
{
    lemma_next_numbered(input, parent, base, ext, 1);
    lemma_next_numbered(input, parent, base, ext, attempt + 1);
}

/// Numbered names are tried in order: the next candidate probed after `from` is the first one,
/// counting up, that is not the input, and giving up means every numbered name below the limit
/// was the input.
pub proof fn numbered_names_are_tried_in_order(
    input: Seq<char>,
    parent: Seq<char>,
    base: Seq<char>,
    ext: Seq<char>,
    from: nat,
)
    ensures
        next_numbered(input, parent, base, ext, from) matches Plan::Probe(n) ==> from <= n
            && forall|k: nat| from <= k < n ==> path_same(#[trigger] candidate(parent, base, ext, k), input),
        next_numbered(input, parent, base, ext, from) is Skip ==> forall|k: nat|
            from <= k < NUMBERED_LIMIT ==> path_same(#[trigger] candidate(parent, base, ext, k), input),
{
    lemma_next_numbered(input, parent, base, ext, from);
}

} // verus!
