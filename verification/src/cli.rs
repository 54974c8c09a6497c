//! The `imgc` command line's own rules that do not involve floating point: parsing numbers and
//! `WxH` dimensions, the accepted range of the perceptual floor, and the final tally of a run.
use vstd::prelude::*;
use crate::model::{FileResult, Outcome};
use crate::text::{chars_of, string_of, sub_chars};

verus! {

/// An ASCII decimal digit.
pub open spec fn is_digit(c: char) -> bool {
    '0' <= c && c <= '9'
}

/// The value of a string of decimal digits.
pub open spec fn digits_value(s: Seq<char>) -> nat
    decreases s.len(),
{
    if s.len() == 0 {
        0
    } else {
        digits_value(s.drop_last()) * 10 + ((s.last() as u32) - ('0' as u32)) as nat
    }
}

/// Every character is a decimal digit.
pub open spec fn all_digits(t: Seq<char>) -> bool {
    forall|i: int| 0 <= i < t.len() ==> is_digit(#[trigger] t[i])
}

/// The part of `s` after an optional leading `+`.
pub open spec fn unsigned_body(s: Seq<char>) -> Seq<char> {
    if s.len() > 0 && s[0] == '+' {
        s.skip(1)
    } else {
        s
    }
}

/// What `str::parse::<u32>` accepts: an optional `+`, then one or more decimal digits whose value
/// fits in a `u32`.
pub open spec fn parsed_u32(s: Seq<char>) -> Option<u32> {
    let body = unsigned_body(s);
    if body.len() == 0 || !all_digits(body) {
        None
    } else if digits_value(body) > u32::MAX {
        None
    } else {
        Some(digits_value(body) as u32)
    }
}

/// Parse an unsigned 32-bit decimal number the way `str::parse::<u32>` does.
pub fn parse_u32(s: &[char]) -> (r: Option<u32>)
    ensures
        r == parsed_u32(s@),
{
    let start: usize = if s.len() > 0 && s[0] == '+' {
        1
    } else {
        0
    };
    let ghost body = if s@.len() > 0 && s@[0] == '+' {
        s@.skip(1)
    } else {
        s@
    };
    assert(body =~= s@.skip(start as int));
    if start >= s.len() {
        return None;
    }
    let mut value: u64 = 0;
    let mut i = start;
    while i < s.len()
        invariant
            start <= i <= s@.len(),
            body == s@.skip(start as int),
            body == unsigned_body(s@),
            start < s@.len(),
            value == digits_value(s@.subrange(start as int, i as int)),
            value <= u32::MAX,
            forall|k: int| start <= k < i ==> is_digit(#[trigger] s@[k]),
        decreases s@.len() - i,
    {
        let c = s[i];
        if !('0' <= c && c <= '9') {
            assert(body[(i - start) as int] == s@[i as int]);
            assert(!is_digit(body[(i - start) as int]));
            return None;
        }
        let d = (c as u32 - '0' as u32) as u64;
        assert(s@.subrange(start as int, i + 1).drop_last() =~= s@.subrange(start as int, i as int));
        value = value * 10 + d;
        if value > u32::MAX as u64 {
            proof {
                assert(s@.subrange(start as int, i + 1) =~= body.take(i - start + 1));
                if all_digits(body) {
                    lemma_digits_grow(body, (i - start) as int);
                }
            }
            return None;
        }
        i = i + 1;
    }
    assert(s@.subrange(start as int, s@.len() as int) =~= body);
    Some(value as u32)
}

proof fn lemma_digits_grow(s: Seq<char>, k: int)
    requires
        0 <= k < s.len(),
        forall|i: int| 0 <= i < s.len() ==> is_digit(#[trigger] s[i]),
    ensures
        digits_value(s.take(k + 1)) <= digits_value(s),
    decreases s.len() - k,
{
    if k + 1 < s.len() {
        lemma_digits_grow(s.drop_last(), k);
        assert(s.drop_last().take(k + 1) =~= s.take(k + 1));
        assert(forall|i: int| 0 <= i < s.drop_last().len() ==> is_digit(#[trigger] s.drop_last()[i]) ) by {
            assert forall|i: int| 0 <= i < s.drop_last().len() implies is_digit(#[trigger] s.drop_last()[i]) by {
                assert(s.drop_last()[i] == s[i]);
            }
        }
    } else {
        assert(s.take(k + 1) =~= s);
    }
}

/// A dimension separator: `x` or `X`.
pub open spec fn is_dim_sep(c: char) -> bool {
    c == 'x' || c == 'X'
}

/// What `parse_dims` returns for `s`.
pub open spec fn parsed_dims(s: Seq<char>) -> Result<(u32, u32), Seq<char>> {
    if !(exists|i: int| 0 <= i < s.len() && is_dim_sep(#[trigger] s[i]) && forall|j: int|
        0 <= j < s.len() && j != i ==> !is_dim_sep(#[trigger] s[j])) {
        Err("dimensions must look like WxH, e.g. 1920x1080"@)
    } else {
        let i = choose|i: int| 0 <= i < s.len() && is_dim_sep(#[trigger] s[i]) && forall|j: int|
            0 <= j < s.len() && j != i ==> !is_dim_sep(#[trigger] s[j]);
        match (parsed_u32(s.take(i)), parsed_u32(s.skip(i + 1))) {
            (None, _) => Err("invalid width"@),
            (Some(_), None) => Err("invalid height"@),
            (Some(w), Some(h)) => if w == 0 || h == 0 {
                Err("dimensions must be greater than zero"@)
            } else {
                Ok((w, h))
            },
        }
    }
}

/// Parse `WxH` into a `(width, height)` pair; both must be >= 1.
pub fn parse_dims(s: &str) -> (r: Result<(u32, u32), String>)
    ensures
        match (r, parsed_dims(s@)) {
            (Ok(a), Ok(b)) => a == b,
            (Err(e), Err(m)) => e@ == m,
            _ => false,
        },
{
    let c = chars_of(s);
    let mut sep: usize = 0;
    let mut count: usize = 0;
    let mut i: usize = 0;
    while i < c.len()
        invariant
            c@ == s@,
            i <= c@.len(),
            count <= i,
            count == 0 ==> forall|j: int| 0 <= j < i ==> !is_dim_sep(#[trigger] c@[j]),
            count == 1 ==> sep < i && is_dim_sep(c@[sep as int]) && forall|j: int|
                0 <= j < i && j != sep ==> !is_dim_sep(#[trigger] c@[j]),
            count >= 2 ==> exists|a: int, b: int|
                0 <= a < b < i && is_dim_sep(#[trigger] c@[a]) && is_dim_sep(#[trigger] c@[b]),
        decreases c@.len() - i,
    {
        if c[i] == 'x' || c[i] == 'X' {
            if count == 1 {
                assert(is_dim_sep(c@[sep as int]) && is_dim_sep(c@[i as int]));
            }
            if count < 2 {
                count = count + 1;
            }
            sep = if count == 1 {
                i
            } else {
                sep
            };
        }
        i = i + 1;
    }
    if count != 1 {
        proof {
            if count >= 2 {
                let (a, b) = choose|a: int, b: int|
                    0 <= a < b < c@.len() && is_dim_sep(#[trigger] c@[a]) && is_dim_sep(
                        #[trigger] c@[b],
                    );
                assert forall|k: int| 0 <= k < c@.len() && is_dim_sep(c@[k]) implies !(forall|j: int|
                    0 <= j < c@.len() && j != k ==> !is_dim_sep(#[trigger] c@[j])) by {
                    if k == a {
                        assert(is_dim_sep(c@[b]));
                    } else {
                        assert(is_dim_sep(c@[a]));
                    }
                }
            }
        }
        let m = chars_of("dimensions must look like WxH, e.g. 1920x1080");
        return Err(string_of(&m));
    }
    proof {
        let k = choose|k: int| 0 <= k < s@.len() && is_dim_sep(#[trigger] s@[k]) && forall|j: int|
            0 <= j < s@.len() && j != k ==> !is_dim_sep(#[trigger] s@[j]);
        if k != sep {
            assert(is_dim_sep(s@[sep as int]));
        }
        assert(k == sep);
    }
    let width = parse_u32(&sub_chars(&c, 0, sep));
    let height = parse_u32(&sub_chars(&c, sep + 1, c.len()));
    assert(c@.subrange(0, sep as int) =~= s@.take(sep as int));
    assert(c@.subrange(sep + 1, c@.len() as int) =~= s@.skip(sep + 1));
    match width {
        None => {
            let m = chars_of("invalid width");
            Err(string_of(&m))
        },
        Some(w) => match height {
            None => {
                let m = chars_of("invalid height");
                Err(string_of(&m))
            },
            Some(h) => {
                if w == 0 || h == 0 {
                    let m = chars_of("dimensions must be greater than zero");
                    Err(string_of(&m))
                } else {
                    Ok((w, h))
                }
            },
        },
    }
}

/// The perceptual floor is given as an SSIM percentage between 50 and 100.
pub fn floor_percent_allowed(pct: u8) -> (r: bool)
    ensures
        r == (50 <= pct <= 100),
{
    50 <= pct && pct <= 100
}

/// How a run's outcomes are counted: compressed, skipped (already under the cap, or the output
/// existed), and failed (unreachable, failed, or cancelled).
pub enum OutcomeClass {
    Compressed,
    Skipped,
    Failed,
}

/// The class an outcome is counted in.
pub open spec fn class_of(o: Outcome) -> OutcomeClass {
    match o {
        Outcome::Compressed { .. } => OutcomeClass::Compressed,
        Outcome::SkippedUnderCap { .. } | Outcome::SkippedCollision => OutcomeClass::Skipped,
        _ => OutcomeClass::Failed,
    }
}

/// How many results fall in `class`.
pub open spec fn count_class(s: Seq<FileResult>, class: OutcomeClass) -> nat
    decreases s.len(),
{
    if s.len() == 0 {
        0
    } else {
        count_class(s.drop_last(), class) + if class_of(s.last().outcome) == class {
            1nat
        } else {
            0nat
        }
    }
}

/// The end-of-run summary counts.
pub struct Tally {
    pub compressed: usize,
    pub skipped: usize,
    pub failed: usize,
}

/// Count a run's results by outcome class. Every result is counted exactly once, and the run
/// fails (non-zero exit) exactly when `failed > 0`.
pub fn tally_outcomes(results: &Vec<FileResult>) -> (r: Tally)
    ensures
        r.compressed == count_class(results@, OutcomeClass::Compressed),
        r.skipped == count_class(results@, OutcomeClass::Skipped),
        r.failed == count_class(results@, OutcomeClass::Failed),
        r.compressed + r.skipped + r.failed == results@.len(),
{
    let mut t = Tally { compressed: 0, skipped: 0, failed: 0 };
    let mut i: usize = 0;
    while i < results.len()
        invariant
            i <= results@.len(),
            t.compressed == count_class(results@.take(i as int), OutcomeClass::Compressed),
            t.skipped == count_class(results@.take(i as int), OutcomeClass::Skipped),
            t.failed == count_class(results@.take(i as int), OutcomeClass::Failed),
            t.compressed + t.skipped + t.failed == i,
        decreases results@.len() - i,
    {
        proof {
            assert(results@.take(i + 1).drop_last() =~= results@.take(i as int));
        }
        match &results[i].outcome {
            Outcome::Compressed { .. } => t.compressed = t.compressed + 1,
            Outcome::SkippedUnderCap { .. } | Outcome::SkippedCollision => t.skipped = t.skipped + 1,
            _ => t.failed = t.failed + 1,
        }
        i = i + 1;
    }
    proof {
        assert(results@.take(results@.len() as int) =~= results@);
    }
    t
}

} // verus!
