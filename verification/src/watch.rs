//! Pure decision logic for the folder watcher. The OS-level watcher and its filesystem probes
//! live with the caller; this module only holds the side-effect-free predicates it calls.
use vstd::prelude::*;
use crate::batch::{is_supported, supported_path};
use crate::model::Outcome;
use crate::paths::{has_prefix, path_has_prefix, path_same, same_path};
use crate::text::{decimal, push_decimal, push_str, string_of};

verus! {

/// Whether a path the watcher discovered should be processed: it must be a supported image AND must
/// not live inside `output_dir` (so the app never re-ingests its own output and loops forever).
/// `canonical` holds the canonical forms of the path and of `output_dir` when the caller could
/// resolve both; they are compared when present, otherwise the given paths are compared lexically
/// (component-wise prefix).
pub fn should_ingest(path: &str, output_dir: Option<&str>, canonical: Option<(String, String)>) -> (r:
    bool)
    ensures
        r == (supported_path(path@) && match output_dir {
            None => true,
            Some(out) => !match canonical {
                Some((cp, co)) => path_has_prefix(cp@, co@),
                None => path_has_prefix(path@, out@),
            },
        }),
{
    if !is_supported(path) {
        return false;
    }
    let out = match output_dir {
        Some(o) => o,
        None => {
            return true;
        },
    };
    let inside = match canonical {
        Some((canon_path, canon_out)) => has_prefix(canon_path.as_str(), canon_out.as_str()),
        None => has_prefix(path, out),
    };
    !inside
}

/// Why a folder cannot be watched with these settings, if it cannot: it must be a folder, the
/// options must name an output folder (so results are not ingested again), and that output folder
/// must not be the watched folder.
pub open spec fn watch_refusal(
    dir: Seq<char>,
    dir_is_folder: bool,
    output_dir: Option<Seq<char>>,
    canonical: Option<(Seq<char>, Seq<char>)>,
) -> Option<Seq<char>> {
    if !dir_is_folder {
        Some("Not a folder: "@ + dir)
    } else {
        match output_dir {
            None => Some("Watch mode needs an output folder so results aren't re-ingested"@),
            Some(out) => if match canonical {
                Some((co, cd)) => path_same(co, cd),
                None => path_same(out, dir),
            } {
                Some("The output folder must differ from the watched folder"@)
            } else {
                None
            },
        }
    }
}

/// Check that `dir` can be watched with results going to `output_dir`. `dir_is_folder` says
/// whether `dir` is an existing folder; `canonical` holds the canonical forms of the output folder
/// and of `dir` when the caller could resolve both, and they are compared when present (otherwise
/// the paths as given). Returns the output folder, or the reason the watch is refused.
pub fn check_watch_target(
    dir: &str,
    dir_is_folder: bool,
    output_dir: &Option<String>,
    canonical: Option<(String, String)>,
) -> (r: Result<String, String>)
    ensures
        match watch_refusal(
            dir@,
            dir_is_folder,
            match output_dir {
                Some(o) => Some(o@),
                None => None,
            },
            match canonical {
                Some((a, b)) => Some((a@, b@)),
                None => None,
            },
        ) {
            Some(reason) => r matches Err(e) && e@ == reason,
            None => r matches Ok(out) && output_dir matches Some(o) && out@ == o@,
        },
{
    if !dir_is_folder {
        let mut m = crate::text::chars_of("Not a folder: ");
        crate::text::push_str(&mut m, dir);
        return Err(crate::text::string_of(&m));
    }
    let out = match output_dir {
        Some(o) => o.clone(),
        None => {
            return Err("Watch mode needs an output folder so results aren't re-ingested".to_owned());
        },
    };
    let same = match canonical {
        Some((co, cd)) => same_path(co.as_str(), cd.as_str()),
        None => same_path(out.as_str(), dir),
    };
    if same {
        return Err("The output folder must differ from the watched folder".to_owned());
    }
    Ok(out)
}

/// The observable state of a [`SettleTracker`].
pub struct SettleView {
    pub required: u32,
    pub last: Option<u64>,
    pub streak: u32,
}

/// Tracks a file's size across polls to decide when it has "settled" (finished being written) before
/// the watcher processes it. Pure state machine — the caller supplies observed sizes.
pub struct SettleTracker {
    required_stable: u32,
    last_size: Option<u64>,
    streak: u32,
}

impl View for SettleTracker {
    type V = SettleView;

    closed spec fn view(&self) -> SettleView {
        SettleView { required: self.required_stable, last: self.last_size, streak: self.streak }
    }
}

/// One observation: the next state and whether the file counts as settled.
pub open spec fn observe_step(v: SettleView, size: u64) -> (SettleView, bool) {
    if size == 0 {
        (SettleView { required: v.required, last: Some(0), streak: 0 }, false)
    } else if v.last == Some(size) {
        let streak = (v.streak + 1) as u32;
        (SettleView { required: v.required, last: v.last, streak }, streak >= v.required)
    } else {
        (SettleView { required: v.required, last: Some(size), streak: 1 }, 1 >= v.required)
    }
}

/// How many of the latest observations are the same non-zero size.
pub open spec fn stable_run(h: Seq<u64>) -> nat
    decreases h.len(),
{
    if h.len() == 0 || h.last() == 0 {
        0
    } else if h.len() >= 2 && h[h.len() - 2] == h.last() {
        stable_run(h.drop_last()) + 1
    } else {
        1
    }
}

/// The tracker's state summarizes the history `h` of sizes it was fed.
pub open spec fn summarizes(v: SettleView, h: Seq<u64>) -> bool {
    &&& v.streak == stable_run(h)
    &&& v.last == if h.len() == 0 {
        None::<u64>
    } else {
        Some(h.last())
    }
}

impl SettleTracker {
    /// `required_stable` = how many consecutive identical, non-zero observations mean "settled".
    /// A value of 0 is treated as 1 (a single non-zero observation settles immediately).
    pub fn new(required_stable: u32) -> (r: Self)
        ensures
            r@.required == if required_stable < 1 {
                1
            } else {
                required_stable
            },
            r@.required >= 1,
            summarizes(r@, Seq::empty()),
    {
        SettleTracker {
            required_stable: if required_stable < 1 {
                1
            } else {
                required_stable
            },
            last_size: None,
            streak: 0,
        }
    }

    /// Feed the latest observed file size. Returns true once the size has been identical and > 0 for
    /// `required_stable` consecutive observations. A changed size resets the streak; a zero size
    /// (an empty/just-created file) is never considered settled. The streak counter is a `u32`, so
    /// it cannot count past `u32::MAX` identical observations.
    pub fn observe(&mut self, size: u64) -> (r: bool)
        requires
            old(self)@.streak < u32::MAX,
        ensures
            (final(self)@, r) == observe_step(old(self)@, size),
    {
        if size == 0 {
            self.streak = 0;
            self.last_size = Some(0);
            return false;
        }
        match self.last_size {
            Some(last) if last == size => self.streak = self.streak + 1,
            _ => {
                self.last_size = Some(size);
                self.streak = 1;
            },
        }
        self.streak >= self.required_stable
    }
}

/// A watched file waiting to settle: its path and its tracker's state.
pub type PendingEntry = (Seq<char>, SettleView);

/// What one poll does to the waiting files, given each one's freshly observed size (`None`: the file
/// vanished, so it is forgotten): the files still waiting, with their trackers advanced, and the
/// files that settled, both in their original order.
pub open spec fn polled(s: Seq<PendingEntry>, sizes: Seq<Option<u64>>) -> (Seq<PendingEntry>, Seq<
    Seq<char>,
>)
    decreases s.len(),
{
    if s.len() == 0 {
        (Seq::empty(), Seq::empty())
    } else {
        let (kept, ready) = polled(s.drop_last(), sizes.take(s.len() - 1));
        let (path, tracker) = s.last();
        match sizes[s.len() - 1] {
            None => (kept, ready),
            Some(size) => {
                let (next, settled) = observe_step(tracker, size);
                if settled {
                    (kept, ready.push(path))
                } else {
                    (kept.push((path, next)), ready)
                }
            },
        }
    }
}

/// The files a folder watch is waiting on, each with its settle tracker, in arrival order. A path
/// is tracked at most once, and a file leaves as soon as it settles or vanishes.
pub struct PendingFiles {
    entries: Vec<(String, SettleTracker)>,
}

impl View for PendingFiles {
    type V = Seq<PendingEntry>;

    closed spec fn view(&self) -> Seq<PendingEntry> {
        self.entries@.map_values(|e: (String, SettleTracker)| (e.0@, e.1@))
    }
}

/// No path twice, and every waiting tracker is short of settling (so it can always count on).
pub open spec fn pending_ok(s: Seq<PendingEntry>) -> bool {
    &&& forall|i: int, j: int| 0 <= i < j < s.len() ==> #[trigger] s[i].0 != #[trigger] s[j].0
    &&& forall|i: int| 0 <= i < s.len() ==> 1 <= #[trigger] s[i].1.required && s[i].1.streak < s[i].1.required
}

impl SettleTracker {
    fn copy(&self) -> (r: SettleTracker)
        ensures
            r@ == self@,
    {
        SettleTracker { required_stable: self.required_stable, last_size: self.last_size, streak: self.streak }
    }
}

impl PendingFiles {
    #[verifier::type_invariant]
    spec fn inv(self) -> bool {
        pending_ok(self@)
    }

    /// Nothing is pending.
    pub fn new() -> (r: Self)
        ensures
            r@ == Seq::<PendingEntry>::empty(),
            pending_ok(r@),
    {
        let r = PendingFiles { entries: Vec::new() };
        assert(r@ =~= Seq::<PendingEntry>::empty());
        r
    }

    /// How many files are waiting.
    pub fn len(&self) -> (r: usize)
        ensures
            r == self@.len(),
    {
        self.entries.len()
    }

    /// The waiting paths, in order (the caller observes each one's size for [`PendingFiles::poll`]).
    pub fn paths(&self) -> (r: Vec<String>)
        ensures
            r@.len() == self@.len(),
            forall|i: int| 0 <= i < r@.len() ==> #[trigger] r@[i]@ == self@[i].0,
    {
        let mut out: Vec<String> = Vec::new();
        let mut i: usize = 0;
        while i < self.entries.len()
            invariant
                i <= self.entries@.len(),
                out@.len() == i,
                forall|k: int| 0 <= k < i ==> #[trigger] out@[k]@ == self@[k].0,
            decreases self.entries@.len() - i,
        {
            out.push(self.entries[i].0.clone());
            i = i + 1;
        }
        out
    }

    /// Start waiting on `path` (needing `required_stable` equal non-zero sizes in a row) unless it
    /// is already waiting, in which case nothing changes.
    pub fn track(&mut self, path: String, required_stable: u32)
        ensures
            (exists|i: int| 0 <= i < old(self)@.len() && #[trigger] old(self)@[i].0 == path@)
                ==> final(self)@ == old(self)@,
            (forall|i: int| 0 <= i < old(self)@.len() ==> #[trigger] old(self)@[i].0 != path@)
                ==> final(self)@ == old(self)@.push(
                (
                    path@,
                    SettleView {
                        required: if required_stable < 1 {
                            1
                        } else {
                            required_stable
                        },
                        last: None,
                        streak: 0,
                    },
                ),
            ),
            pending_ok(final(self)@),
    {
        proof {
            use_type_invariant(&*self);
        }
        let mut i: usize = 0;
        while i < self.entries.len()
            invariant
                i <= self.entries@.len(),
                forall|k: int| 0 <= k < i ==> #[trigger] self@[k].0 != path@,
            decreases self.entries@.len() - i,
        {
            if crate::text::str_eq(self.entries[i].0.as_str(), path.as_str()) {
                assert(self@[i as int].0 == path@);
                proof {
                    use_type_invariant(&*self);
                }
                return;
            }
            i = i + 1;
        }
        let tracker = SettleTracker::new(required_stable);
        let ghost before = self@;
        let mut entries = Vec::new();
        std::mem::swap(&mut entries, &mut self.entries);
        entries.push((path, tracker));
        proof {
            let after = entries@.map_values(|e: (String, SettleTracker)| (e.0@, e.1@));
            assert(after =~= before.push((path@, tracker@)));
            assert(pending_ok(after));
        }
        self.entries = entries;
        proof {
            use_type_invariant(&*self);
        }
    }

    /// Feed every waiting file its freshly observed size (`sizes[i]` for the `i`-th path, `None`
    /// when it vanished) and return the paths that settled, in order; those and the vanished ones
    /// stop waiting.
    pub fn poll(&mut self, sizes: &Vec<Option<u64>>) -> (r: Vec<String>)
        requires
            sizes@.len() == old(self)@.len(),
        ensures
            final(self)@ == polled(old(self)@, sizes@).0,
            r@.map_values(|p: String| p@) == polled(old(self)@, sizes@).1,
            pending_ok(final(self)@),
    {
        proof {
            use_type_invariant(&*self);
        }
        let ghost old_view = self@;
        let mut kept: Vec<(String, SettleTracker)> = Vec::new();
        let mut ready: Vec<String> = Vec::new();
        let mut i: usize = 0;
        while i < self.entries.len()
            invariant
                i <= self.entries@.len(),
                sizes@.len() == self.entries@.len(),
                old_view == self@,
                pending_ok(old_view),
                kept@.map_values(|e: (String, SettleTracker)| (e.0@, e.1@)) == polled(
                    old_view.take(i as int),
                    sizes@.take(i as int),
                ).0,
                ready@.map_values(|p: String| p@) == polled(old_view.take(i as int), sizes@.take(i as int)).1,
                pending_ok(kept@.map_values(|e: (String, SettleTracker)| (e.0@, e.1@))),
                forall|k: int|
                    0 <= k < kept@.len() ==> exists|j: int|
                        0 <= j < i && #[trigger] kept@[k].0@ == #[trigger] old_view[j].0,
            decreases self.entries@.len() - i,
        {
            let ghost kv = kept@.map_values(|e: (String, SettleTracker)| (e.0@, e.1@));
            let ghost rv = ready@.map_values(|p: String| p@);
            proof {
                let t = old_view.take(i + 1);
                assert(t.drop_last() =~= old_view.take(i as int));
                assert(sizes@.take(i + 1).take(i as int) =~= sizes@.take(i as int));
                assert(t.last() == old_view[i as int]);
                assert(sizes@.take(i + 1)[i as int] == sizes@[i as int]);
            }
            match sizes[i] {
                None => {},
                Some(size) => {
                    let mut tracker = self.entries[i].1.copy();
                    assert(old_view[i as int].1.streak < old_view[i as int].1.required);
                    let settled = tracker.observe(size);
                    if settled {
                        ready.push(self.entries[i].0.clone());
                        proof {
                            assert(ready@.map_values(|p: String| p@) =~= rv.push(old_view[i as int].0));
                        }
                    } else {
                        let path = self.entries[i].0.clone();
                        proof {
                            assert forall|k: int| 0 <= k < kept@.len() implies #[trigger] kept@[k].0@ != path@ by {
                                let j = choose|j: int| 0 <= j < i && #[trigger] kept@[k].0@ == #[trigger] old_view[j].0;
                                assert(old_view[j].0 != old_view[i as int].0);
                                assert(kv[k].0 == kept@[k].0@);
                            }
                        }
                        kept.push((path, tracker));
                        proof {
                            let nk = kept@.map_values(|e: (String, SettleTracker)| (e.0@, e.1@));
                            assert(nk =~= kv.push((old_view[i as int].0, tracker@)));
                            assert forall|a: int, b: int| 0 <= a < b < nk.len() implies #[trigger] nk[a].0 != #[trigger] nk[b].0 by {
                                if b == nk.len() - 1 {
                                    assert(nk[a].0 == kept@[a].0@);
                                }
                            }
                            assert forall|k: int| 0 <= k < kept@.len() implies exists|j: int|
                                0 <= j < i + 1 && #[trigger] kept@[k].0@ == #[trigger] old_view[j].0 by {
                                if k == kept@.len() - 1 {
                                    assert(kept@[k].0@ == old_view[i as int].0);
                                } else {
                                    let j = choose|j: int| 0 <= j < i && #[trigger] kept@[k].0@ == #[trigger] old_view[j].0;
                                    assert(kept@[k].0@ == old_view[j].0);
                                }
                            }
                        }
                    }
                },
            }
            i = i + 1;
        }
        proof {
            assert(old_view.take(old_view.len() as int) =~= old_view);
            assert(sizes@.take(sizes@.len() as int) =~= sizes@);
        }
        self.entries = kept;
        proof {
            use_type_invariant(&*self);
        }
        ready
    }
}

/// Fed one size after another, the tracker keeps counting how many of the latest sizes are the
/// same non-zero value, and reports the file settled exactly when that count reaches the required
/// number.
pub proof fn settle_tracker_counts_stable_run(before: SettleView, h: Seq<u64>, size: u64)
    requires
        summarizes(before, h),
        before.streak < u32::MAX,
    ensures
        summarizes(observe_step(before, size).0, h.push(size)),
        observe_step(before, size).1 == (size != 0 && stable_run(h.push(size)) >= before.required),
        observe_step(before, size).0.required == before.required,
{
    let h2 = h.push(size);
    assert(h2.drop_last() =~= h);
    assert(h2.last() == size);
    if h.len() > 0 {
        assert(h2[h2.len() - 2] == h.last());
    }
}

/// The stable run of a history is at least `m` long exactly when its latest `m` sizes are one
/// and the same non-zero size.
proof fn stable_run_covers_tail(h: Seq<u64>, m: nat)
    requires
        m >= 1,
    ensures
        stable_run(h) >= m <==> (h.len() >= m && h.last() != 0 && forall|i: int|
            h.len() - m <= i < h.len() ==> #[trigger] h[i] == h.last()),
    decreases h.len(),
{
    if h.len() == 0 || h.last() == 0 {
    } else if h.len() >= 2 && h[h.len() - 2] == h.last() {
        let t = h.drop_last();
        assert(t.last() == h.last());
        if m >= 2 {
            stable_run_covers_tail(t, (m - 1) as nat);
            if stable_run(h) >= m {
                assert forall|i: int| h.len() - m <= i < h.len() implies #[trigger] h[i] == h.last() by {
                    if i < h.len() - 1 {
                        assert(t[i] == t.last());
                    }
                }
            } else {
                if h.len() >= m && forall|i: int| h.len() - m <= i < h.len() ==> #[trigger] h[i]
                    == h.last() {
                    assert forall|i: int| t.len() - (m - 1) <= i < t.len() implies #[trigger] t[i]
                        == t.last() by {
                        assert(h[i] == h.last());
                    }
                }
            }
        }
    } else {
        if m >= 2 && h.len() >= m && forall|i: int| h.len() - m <= i < h.len() ==> #[trigger] h[i]
            == h.last() {
            assert(h[h.len() - 2] == h.last());
        }
    }
}

/// A tracker fed the sizes `h` and then `size` reports the file settled exactly when the latest
/// `required` sizes (this one included) are all `size` and `size` is not zero: a changed size
/// restarts the count and an empty file never settles.
pub proof fn settled_exactly_when_latest_sizes_agree(before: SettleView, h: Seq<u64>, size: u64)
    requires
        summarizes(before, h),
        before.streak < u32::MAX,
        before.required >= 1,
    ensures
        observe_step(before, size).1 == {
            let all = h.push(size);
            &&& size != 0
            &&& all.len() >= before.required
            &&& forall|i: int| all.len() - before.required <= i < all.len() ==> #[trigger] all[i] == size
        },
{
    settle_tracker_counts_stable_run(before, h, size);
    stable_run_covers_tail(h.push(size), before.required as nat);
}

/// The byte count a watched file's status line shows in human-readable form: the final size of a
/// compressed file, the size of a file skipped under the cap, none for the other outcomes.
pub open spec fn status_bytes(outcome: Outcome) -> Option<u64> {
    match outcome {
        Outcome::Compressed { final_bytes, .. } => Some(final_bytes),
        Outcome::SkippedUnderCap { bytes } => Some(bytes),
        _ => None,
    }
}

/// The byte count a watched file's status line shows, for the caller to put in words.
pub fn status_size(outcome: &Outcome) -> (r: Option<u64>)
    ensures
        r == status_bytes(*outcome),
{
    match outcome {
        Outcome::Compressed { final_bytes, .. } => Some(*final_bytes),
        Outcome::SkippedUnderCap { bytes } => Some(*bytes),
        _ => None,
    }
}

/// The status line of a watched file's outcome, with `size` the human-readable form of its
/// [`status_bytes`]: `size → W×H`, then ` qN` when a quality was chosen and ` ↓` when the image was
/// shrunk, for a compressed file; `already under cap (size)`; `skipped (output exists)`;
/// `unreachable: reason`; `failed: reason`; `cancelled`.
pub open spec fn status_text(outcome: Outcome, size: Seq<char>) -> Seq<char> {
    match outcome {
        Outcome::Compressed { quality, width, height, downscaled, .. } => size + " \u{2192} "@
            + decimal(width as nat) + "\u{00d7}"@ + decimal(height as nat) + match quality {
            Some(q) => " q"@ + decimal(q as nat),
            None => Seq::empty(),
        } + if downscaled {
            " \u{2193}"@
        } else {
            Seq::empty()
        },
        Outcome::SkippedUnderCap { .. } => "already under cap ("@ + size + ")"@,
        Outcome::SkippedCollision => "skipped (output exists)"@,
        Outcome::Unreachable { reason } => "unreachable: "@ + reason@,
        Outcome::Failed { reason } => "failed: "@ + reason@,
        Outcome::Cancelled => "cancelled"@,
    }
}

/// How the watcher reports a processed file: whether it went well (compressed, or skipped because
/// it was already under the cap or its output exists) and its status line, `size` being the
/// human-readable form of the outcome's [`status_bytes`].
pub fn summarize(outcome: &Outcome, size: &str) -> (r: (bool, String))
    ensures
        r.0 == (outcome is Compressed || outcome is SkippedUnderCap || outcome is SkippedCollision),
        r.1@ == status_text(*outcome, size@),
{
    let mut out: Vec<char> = Vec::new();
    let ok = match outcome {
        Outcome::Compressed { quality, width, height, downscaled, .. } => {
            push_str(&mut out, size);
            push_str(&mut out, " \u{2192} ");
            push_decimal(&mut out, *width as u64);
            push_str(&mut out, "\u{00d7}");
            push_decimal(&mut out, *height as u64);
            let ghost head = out@;
            match quality {
                Some(q) => {
                    push_str(&mut out, " q");
                    push_decimal(&mut out, *q as u64);
                },
                None => {},
            }
            let ghost with_q = out@;
            if *downscaled {
                push_str(&mut out, " \u{2193}");
            }
            proof {
                assert(with_q =~= head + match *quality {
                    Some(q) => " q"@ + decimal(q as nat),
                    None => Seq::<char>::empty(),
                });
                assert(out@ =~= with_q + if *downscaled {
                    " \u{2193}"@
                } else {
                    Seq::<char>::empty()
                });
            }
            true
        },
        Outcome::SkippedUnderCap { .. } => {
            push_str(&mut out, "already under cap (");
            push_str(&mut out, size);
            push_str(&mut out, ")");
            true
        },
        Outcome::SkippedCollision => {
            push_str(&mut out, "skipped (output exists)");
            true
        },
        Outcome::Unreachable { reason } => {
            push_str(&mut out, "unreachable: ");
            push_str(&mut out, reason.as_str());
            false
        },
        Outcome::Failed { reason } => {
            push_str(&mut out, "failed: ");
            push_str(&mut out, reason.as_str());
            false
        },
        Outcome::Cancelled => {
            push_str(&mut out, "cancelled");
            false
        },
    };
    (ok, string_of(&out))
}

} // verus!
