//! Filename token expansion for bulk rename. Expands a user pattern like `{name}-{seq:000}` into a
//! filesystem-safe base filename (no extension). The caller supplies the date string so this stays
//! deterministic and clock-free.
use vstd::prelude::*;
use crate::text::{
    chars_eq, chars_of, sub_chars, decimal, decimal_chars, pad_zeros, padded_decimal, push_all, string_of,
};

verus! {

/// Context for expanding a rename pattern into a base filename (no extension).
pub struct NameContext<'a> {
    /// The source file stem (filename without extension).
    pub stem: &'a str,
    /// 1-based sequence number of this file within the batch.
    pub seq: usize,
    /// Output image width in pixels.
    pub width: u32,
    /// Output image height in pixels.
    pub height: u32,
    /// Preformatted date string, e.g. "2026-06-25" (supplied by the caller).
    pub date: &'a str,
}

/// The plain content of a [`NameContext`].
pub struct NameParts {
    pub stem: Seq<char>,
    pub seq: nat,
    pub width: u32,
    pub height: u32,
    pub date: Seq<char>,
}

impl NameContext<'_> {
    pub open spec fn parts(&self) -> NameParts {
        NameParts {
            stem: self.stem@,
            seq: self.seq as nat,
            width: self.width,
            height: self.height,
            date: self.date@,
        }
    }
}

/// A `{seq:0…0}` token: `seq:` followed by at least one `'0'` and nothing else.
pub open spec fn is_padded_seq_token(t: Seq<char>) -> bool {
    &&& t.len() > 4
    &&& t.take(4) == seq!['s', 'e', 'q', ':']
    &&& forall|k: int| 4 <= k < t.len() ==> t[k] == '0'
}

/// What a recognized token expands to: `{name}`, `{date}`, `{w}`, `{h}`, `{seq}` and
/// `{seq:000}` (the sequence number zero-padded to the count of `0`s). `None` for anything else.
pub open spec fn token_value(t: Seq<char>, ctx: NameParts) -> Option<Seq<char>> {
    if t == seq!['n', 'a', 'm', 'e'] {
        Some(ctx.stem)
    } else if t == seq!['d', 'a', 't', 'e'] {
        Some(ctx.date)
    } else if t == seq!['w'] {
        Some(decimal(ctx.width as nat))
    } else if t == seq!['h'] {
        Some(decimal(ctx.height as nat))
    } else if t == seq!['s', 'e', 'q'] {
        Some(decimal(ctx.seq))
    } else if is_padded_seq_token(t) {
        Some(pad_zeros(decimal(ctx.seq), (t.len() - 4) as nat))
    } else {
        None
    }
}

/// The text a `{token}` becomes: its value, or the token kept literally with its braces.
pub open spec fn token_text(t: Seq<char>, ctx: NameParts) -> Seq<char> {
    match token_value(t, ctx) {
        Some(v) => v,
        None => seq!['{'] + t + seq!['}'],
    }
}

/// Index of the first `'}'` in `p` at or after `from`.
pub open spec fn find_close(p: Seq<char>, from: int) -> Option<int>
    decreases p.len() - from,
{
    if from < 0 || from >= p.len() {
        None
    } else if p[from] == '}' {
        Some(from)
    } else {
        find_close(p, from + 1)
    }
}

pub proof fn lemma_find_close(p: Seq<char>, from: int)
    requires
        0 <= from,
    ensures
        match find_close(p, from) {
            Some(j) => from <= j < p.len() && p[j] == '}' && forall|k: int|
                from <= k < j ==> p[k] != '}',
            None => forall|k: int| from <= k < p.len() ==> p[k] != '}',
        },
    decreases p.len() - from,
{
    if from < p.len() && p[from] != '}' {
        lemma_find_close(p, from + 1);
    }
}

/// The expansion of `p` from position `i` on: text outside braces is copied, each `{token}` is
/// replaced by its [`token_text`], and an opening brace with no closing brace starts literal text
/// up to the end.
pub open spec fn expand_from(p: Seq<char>, i: int, ctx: NameParts) -> Seq<char>
    decreases p.len() - i,
{
    if i < 0 || i >= p.len() {
        seq![]
    } else if p[i] == '{' {
        match find_close(p, i + 1) {
            Some(j) => {
                proof {
                    lemma_find_close(p, i + 1);
                }
                token_text(p.subrange(i + 1, j), ctx) + expand_from(p, j + 1, ctx)
            },
            None => p.skip(i),
        }
    } else {
        seq![p[i]] + expand_from(p, i + 1, ctx)
    }
}

/// Characters that are unsafe in a filename: path separators, the Windows-reserved
/// characters, and control characters.
pub open spec fn is_unsafe_char(c: char) -> bool {
    ||| c == '/'
    ||| c == '\\'
    ||| c == ':'
    ||| c == '*'
    ||| c == '?'
    ||| c == '"'
    ||| c == '<'
    ||| c == '>'
    ||| c == '|'
    ||| (c as u32) < 0x20
}

/// Characters trimmed from both ends of a filename (invalid there on Windows).
pub open spec fn is_edge_trimmed(c: char) -> bool {
    c == ' ' || c == '.'
}

pub open spec fn replace_unsafe(s: Seq<char>) -> Seq<char> {
    Seq::new(s.len(), |i: int| if is_unsafe_char(s[i]) { '_' } else { s[i] })
}

pub open spec fn trim_start(s: Seq<char>) -> Seq<char>
    decreases s.len(),
{
    if s.len() > 0 && is_edge_trimmed(s[0]) {
        trim_start(s.drop_first())
    } else {
        s
    }
}

pub open spec fn trim_end(s: Seq<char>) -> Seq<char>
    decreases s.len(),
{
    if s.len() > 0 && is_edge_trimmed(s.last()) {
        trim_end(s.drop_last())
    } else {
        s
    }
}

/// `s` made safe as a filename: unsafe characters become `'_'`, then leading and trailing
/// spaces and dots are trimmed.
pub open spec fn sanitized(s: Seq<char>) -> Seq<char> {
    trim_end(trim_start(replace_unsafe(s)))
}

/// The base filename a pattern expands to: the sanitized expansion, or when that is empty the
/// sanitized stem, or when that is empty too, `"image"`.
pub open spec fn expanded_name(p: Seq<char>, ctx: NameParts) -> Seq<char> {
    let s = sanitized(expand_from(p, 0, ctx));
    if s.len() > 0 {
        s
    } else {
        let t = sanitized(ctx.stem);
        if t.len() > 0 {
            t
        } else {
            seq!['i', 'm', 'a', 'g', 'e']
        }
    }
}

/// A filename that is safe on every platform: non-empty, no unsafe character, and no space or
/// dot at either end.
pub open spec fn is_safe_filename(s: Seq<char>) -> bool {
    &&& s.len() > 0
    &&& forall|k: int| 0 <= k < s.len() ==> !is_unsafe_char(#[trigger] s[k])
    &&& !is_edge_trimmed(s[0])
    &&& !is_edge_trimmed(s.last())
}

/// Expand a rename pattern into a filesystem-safe base filename (NO extension). Supported tokens:
/// `{name}`, `{seq}`, `{seq:000}` (zero-pad to the count of `0`s), `{date}`, `{w}`, `{h}`. Unknown
/// tokens are left literal (braces included); text outside braces is copied verbatim.
pub fn expand_name(pattern: &str, ctx: &NameContext) -> (r: String)
    ensures
        r@ == expanded_name(pattern@, ctx.parts()),
        is_safe_filename(r@),
{
    let p = chars_of(pattern);
    let mut out: Vec<char> = Vec::new();
    let mut i: usize = 0;
    while i < p.len()
        invariant
            p@ == pattern@,
            i <= p@.len(),
            out@ + expand_from(p@, i as int, ctx.parts()) == expand_from(p@, 0, ctx.parts()),
        decreases p@.len() - i,
    {
        if p[i] == '{' {
            let found = find_close_at(&p, i + 1);
            proof {
                lemma_find_close(p@, i + 1);
            }
            match found {
                Some(close) => {
                    let token = sub_chars(&p, i + 1, close);
                    let text = token_chars(&token, ctx);
                    let ghost before = out@;
                    push_all(&mut out, &text);
                    assert(out@ + expand_from(p@, close + 1, ctx.parts()) == before + expand_from(
                        p@,
                        i as int,
                        ctx.parts(),
                    ));
                    i = close + 1;
                },
                None => {
                    let rest = sub_chars(&p, i, p.len());
                    let ghost before = out@;
                    push_all(&mut out, &rest);
                    assert(p@.skip(i as int) =~= p@.subrange(i as int, p@.len() as int));
                    assert(out@ =~= before + expand_from(p@, i as int, ctx.parts()));
                    i = p.len();
                },
            }
        } else {
            let ghost before = out@;
            out.push(p[i]);
            assert(out@ + expand_from(p@, i + 1, ctx.parts()) =~= before + expand_from(
                p@,
                i as int,
                ctx.parts(),
            ));
            i = i + 1;
        }
    }
    assert(out@ =~= expand_from(p@, 0, ctx.parts()));
    let sanitized_out = sanitize_filename(&out);
    proof {
        lemma_sanitized_safe(out@);
    }
    if sanitized_out.len() > 0 {
        return string_of(&sanitized_out);
    }
    let stem = chars_of(ctx.stem);
    let from_stem = sanitize_filename(&stem);
    proof {
        lemma_sanitized_safe(stem@);
    }
    if from_stem.len() > 0 {
        string_of(&from_stem)
    } else {
        let fallback = chars_of("image");
        proof {
            reveal_strlit("image");
        }
        assert(fallback@ =~= seq!['i', 'm', 'a', 'g', 'e']);
        string_of(&fallback)
    }
}

/// Index of the first `'}'` in `p` at or after `from`.
fn find_close_at(p: &Vec<char>, from: usize) -> (r: Option<usize>)
    ensures
        match r {
            Some(j) => find_close(p@, from as int) == Some(j as int),
            None => find_close(p@, from as int) is None,
        },
{
    let mut j = from;
    while j < p.len()
        invariant
            from <= j,
            find_close(p@, from as int) == find_close(p@, j as int),
        decreases p@.len() - j,
    {
        if p[j] == '}' {
            return Some(j);
        }
        j = j + 1;
    }
    None
}

/// The text a token becomes: its value, or the token kept literally with its braces.
fn token_chars(token: &Vec<char>, ctx: &NameContext) -> (r: Vec<char>)
    ensures
        r@ == token_text(token@, ctx.parts()),
{
    match expand_token(token, ctx) {
        Some(v) => v,
        None => {
            let mut r: Vec<char> = Vec::new();
            r.push('{');
            push_all(&mut r, token);
            r.push('}');
            assert(r@ =~= seq!['{'] + token@ + seq!['}']);
            r
        },
    }
}

/// Replacement for a single token, or `None` if the token is unrecognized.
fn expand_token(token: &Vec<char>, ctx: &NameContext) -> (r: Option<Vec<char>>)
    ensures
        match r {
            Some(v) => token_value(token@, ctx.parts()) == Some(v@),
            None => token_value(token@, ctx.parts()) is None,
        },
{
    let t = token.as_slice();
    if chars_eq(t, &['n', 'a', 'm', 'e']) {
        assert(token@ =~= seq!['n', 'a', 'm', 'e']);
        Some(chars_of(ctx.stem))
    } else if chars_eq(t, &['d', 'a', 't', 'e']) {
        assert(token@ =~= seq!['d', 'a', 't', 'e']);
        Some(chars_of(ctx.date))
    } else if token.len() == 1 && token[0] == 'w' {
        assert(token@ =~= seq!['w']);
        Some(decimal_chars(ctx.width as u64))
    } else if token.len() == 1 && token[0] == 'h' {
        assert(token@ =~= seq!['h']);
        Some(decimal_chars(ctx.height as u64))
    } else if chars_eq(t, &['s', 'e', 'q']) {
        assert(token@ =~= seq!['s', 'e', 'q']);
        Some(decimal_chars(ctx.seq as u64))
    } else {
        proof {
            assert(!(token@ =~= seq!['n', 'a', 'm', 'e']));
            assert(!(token@ =~= seq!['d', 'a', 't', 'e']));
            if token@.len() == 1 {
                assert(seq!['w'][0] == 'w');
                assert(seq!['h'][0] == 'h');
            }
            assert(!(token@ =~= seq!['s', 'e', 'q']));
        }
        if token.len() > 4 && token[0] == 's' && token[1] == 'e' && token[2] == 'q' && token[3]
            == ':' {
            assert(token@.take(4) =~= seq!['s', 'e', 'q', ':']);
            let mut k: usize = 4;
            while k < token.len()
                invariant
                    4 <= k <= token@.len(),
                    forall|m: int| 4 <= m < k ==> token@[m] == '0',
                decreases token@.len() - k,
            {
                if token[k] != '0' {
                    return None;
                }
                k = k + 1;
            }
            Some(padded_decimal(ctx.seq as u64, token.len() - 4))
        } else {
            proof {
                if token@.len() > 4 && token@.take(4) == seq!['s', 'e', 'q', ':'] {
                    assert(token@.take(4)[0] == 's');
                    assert(token@.take(4)[1] == 'e');
                    assert(token@.take(4)[2] == 'q');
                    assert(token@.take(4)[3] == ':');
                }
            }
            None
        }
    }
}

/// Make a string safe as a filename: replace path separators and Windows-illegal characters (and
/// control chars) with '_', then trim leading/trailing spaces and dots (invalid on Windows).
fn sanitize_filename(s: &Vec<char>) -> (r: Vec<char>)
    ensures
        r@ == sanitized(s@),
{
    let mut cleaned: Vec<char> = Vec::new();
    let mut i: usize = 0;
    while i < s.len()
        invariant
            i <= s@.len(),
            cleaned@ == replace_unsafe(s@.take(i as int)),
        decreases s@.len() - i,
    {
        let c = s[i];
        let unsafe_char = c == '/' || c == '\\' || c == ':' || c == '*' || c == '?' || c == '"'
            || c == '<' || c == '>' || c == '|' || (c as u32) < 0x20;
        if unsafe_char {
            cleaned.push('_');
        } else {
            cleaned.push(c);
        }
        i = i + 1;
        assert(cleaned@ =~= replace_unsafe(s@.take(i as int)));
    }
    assert(s@.take(s@.len() as int) =~= s@);
    let ghost full = cleaned@;
    assert(full.skip(0) =~= full);
    // Leading trim.
    let mut a: usize = 0;
    while a < cleaned.len() && (cleaned[a] == ' ' || cleaned[a] == '.')
        invariant
            a <= cleaned@.len(),
            trim_start(full) == trim_start(full.skip(a as int)),
            cleaned@ == full,
        decreases cleaned@.len() - a,
    {
        assert(full.skip(a as int).drop_first() =~= full.skip(a + 1));
        a = a + 1;
    }
    assert(trim_start(full) == full.skip(a as int));
    // Trailing trim.
    let mut b: usize = cleaned.len();
    while b > a && (cleaned[b - 1] == ' ' || cleaned[b - 1] == '.')
        invariant
            a <= b <= cleaned@.len(),
            cleaned@ == full,
            trim_end(full.skip(a as int)) == trim_end(full.subrange(a as int, b as int)),
        decreases b,
    {
        assert(full.subrange(a as int, b as int).drop_last() =~= full.subrange(
            a as int,
            b - 1,
        ));
        b = b - 1;
    }
    assert(full.subrange(a as int, full.len() as int) =~= full.skip(a as int));
    sub_chars(&cleaned, a, b)
}

proof fn lemma_trim_start_suffix(s: Seq<char>) -> (k: int)
    ensures
        0 <= k <= s.len(),
        trim_start(s) == s.skip(k),
        forall|m: int| 0 <= m < k ==> is_edge_trimmed(s[m]),
        k < s.len() ==> !is_edge_trimmed(s[k]),
    decreases s.len(),
{
    if s.len() > 0 && is_edge_trimmed(s[0]) {
        let k0 = lemma_trim_start_suffix(s.drop_first());
        assert(s.drop_first().skip(k0) =~= s.skip(k0 + 1));
        assert forall|m: int| 0 <= m < k0 + 1 implies is_edge_trimmed(s[m]) by {
            if m > 0 {
                assert(s[m] == s.drop_first()[m - 1]);
            }
        }
        if k0 + 1 < s.len() {
            assert(s[k0 + 1] == s.drop_first()[k0]);
        }
        k0 + 1
    } else {
        assert(s.skip(0) =~= s);
        0
    }
}

proof fn lemma_trim_end_prefix(s: Seq<char>) -> (k: int)
    ensures
        0 <= k <= s.len(),
        trim_end(s) == s.take(k),
        k > 0 ==> !is_edge_trimmed(s[k - 1]),
    decreases s.len(),
{
    if s.len() > 0 && is_edge_trimmed(s.last()) {
        let k0 = lemma_trim_end_prefix(s.drop_last());
        assert(s.drop_last().take(k0) =~= s.take(k0));
        k0
    } else {
        assert(s.take(s.len() as int) =~= s);
        s.len() as int
    }
}

/// Whatever it is given, sanitizing leaves no unsafe character and no space or dot at either end.
proof fn lemma_sanitized_safe(s: Seq<char>)
    ensures
        sanitized(s).len() > 0 ==> is_safe_filename(sanitized(s)),
{
    let c = replace_unsafe(s);
    let a = lemma_trim_start_suffix(c);
    let mid = c.skip(a);
    let b = lemma_trim_end_prefix(mid);
    let r = mid.take(b);
    assert(sanitized(s) == r);
    if r.len() > 0 {
        assert forall|k: int| 0 <= k < r.len() implies !is_unsafe_char(#[trigger] r[k]) by {
            assert(r[k] == c[a + k]);
        }
        assert(r[0] == mid[0]);
    }
}

/// The name a pattern gives a sample file (sequence number 1), for a live preview of the pattern.
pub fn preview_rename(pattern: &str, stem: &str, width: u32, height: u32, date: &str) -> (r: String)
    ensures
        r@ == expanded_name(
            pattern@,
            NameParts { stem: stem@, seq: 1, width, height, date: date@ },
        ),
        is_safe_filename(r@),
{
    let ctx = NameContext { stem, seq: 1, width, height, date };
    expand_name(pattern, &ctx)
}

} // verus!
