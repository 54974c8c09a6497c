//! Character-level helpers shared by the naming, rename, shell and CLI modules: turning strings
//! into character vectors and back, decimal formatting, zero padding and ASCII case folding.
use vstd::prelude::*;

verus! {

/// The characters of `s`, in order.
pub fn chars_of(s: &str) -> (v: Vec<char>)
    ensures
        v@ == s@,
{
    let mut v: Vec<char> = Vec::new();
    for c in it: s.chars()
        invariant
            v@ == it.seq().take(it.index()),
            it.seq() == s@,
    {
        v.push(c);
    }
    v
}

/// `String::push`: appends one character at the end of the string.
#[verifier::external_body]
fn string_push(s: &mut String, c: char)
    ensures
        final(s)@ == old(s)@.push(c),
{
    s.push(c);
}

/// A character with the Unicode `White_Space` property, which `char::is_whitespace` tests (and
/// `str::trim` removes): tab through carriage return, space, next line, no-break space, ogham
/// space mark, the spaces from en quad to hair space, line and paragraph separators, narrow
/// no-break space, medium mathematical space and ideographic space.
pub open spec fn is_white_space(c: char) -> bool {
    ||| '\u{9}' <= c <= '\u{d}'
    ||| c == ' '
    ||| c == '\u{85}'
    ||| c == '\u{a0}'
    ||| c == '\u{1680}'
    ||| '\u{2000}' <= c <= '\u{200a}'
    ||| c == '\u{2028}'
    ||| c == '\u{2029}'
    ||| c == '\u{202f}'
    ||| c == '\u{205f}'
    ||| c == '\u{3000}'
}

/// The string holds nothing but whitespace (trimming it leaves nothing).
pub open spec fn is_blank(s: Seq<char>) -> bool {
    forall|i: int| 0 <= i < s.len() ==> is_white_space(#[trigger] s[i])
}

fn white_space(c: char) -> (r: bool)
    ensures
        r == is_white_space(c),
{
    ('\u{9}' <= c && c <= '\u{d}') || c == ' ' || c == '\u{85}' || c == '\u{a0}' || c == '\u{1680}'
        || ('\u{2000}' <= c && c <= '\u{200a}') || c == '\u{2028}' || c == '\u{2029}' || c
        == '\u{202f}' || c == '\u{205f}' || c == '\u{3000}'
}

/// Whether `s` holds nothing but whitespace.
pub fn is_blank_str(s: &str) -> (r: bool)
    ensures
        r == is_blank(s@),
{
    let c = chars_of(s);
    let mut i: usize = 0;
    while i < c.len()
        invariant
            c@ == s@,
            i <= c@.len(),
            forall|k: int| 0 <= k < i ==> is_white_space(#[trigger] c@[k]),
        decreases c@.len() - i,
    {
        if !white_space(c[i]) {
            return false;
        }
        i = i + 1;
    }
    true
}

/// A `String` holding exactly the characters of `v`.
pub fn string_of(v: &[char]) -> (s: String)
    ensures
        s@ == v@,
{
    let mut s = String::new();
    let mut i: usize = 0;
    while i < v.len()
        invariant
            i <= v@.len(),
            s@ == v@.take(i as int),
        decreases v@.len() - i,
    {
        string_push(&mut s, v[i]);
        i = i + 1;
        assert(v@.take(i as int) == v@.take((i - 1) as int).push(v@[i - 1]));
    }
    assert(v@.take(v@.len() as int) == v@);
    s
}

/// Whether two strings hold the same characters.
pub fn str_eq(a: &str, b: &str) -> (r: bool)
    ensures
        r == (a@ == b@),
{
    let x = chars_of(a);
    let y = chars_of(b);
    chars_eq(&x, &y)
}

/// Whether two character slices are equal.
pub fn chars_eq(a: &[char], b: &[char]) -> (r: bool)
    ensures
        r == (a@ == b@),
{
    if a.len() != b.len() {
        return false;
    }
    let mut i: usize = 0;
    while i < a.len()
        invariant
            a@.len() == b@.len(),
            i <= a@.len(),
            forall|k: int| 0 <= k < i ==> a@[k] == b@[k],
        decreases a@.len() - i,
    {
        if a[i] != b[i] {
            return false;
        }
        i = i + 1;
    }
    assert(a@ =~= b@);
    true
}

/// A copy of `p[from..to]`.
pub fn sub_chars(p: &[char], from: usize, to: usize) -> (r: Vec<char>)
    requires
        from <= to <= p@.len(),
    ensures
        r@ == p@.subrange(from as int, to as int),
{
    let mut r: Vec<char> = Vec::new();
    let mut k = from;
    while k < to
        invariant
            from <= k <= to,
            to <= p@.len(),
            r@ == p@.subrange(from as int, k as int),
        decreases to - k,
    {
        r.push(p[k]);
        k = k + 1;
        assert(r@ =~= p@.subrange(from as int, k as int));
    }
    r
}

/// Appends all characters of `b` to `a`.
pub fn push_all(a: &mut Vec<char>, b: &[char])
    ensures
        final(a)@ == old(a)@ + b@,
{
    let mut i: usize = 0;
    while i < b.len()
        invariant
            i <= b@.len(),
            a@ == old(a)@ + b@.take(i as int),
        decreases b@.len() - i,
    {
        a.push(b[i]);
        i = i + 1;
        assert(b@.take(i as int) == b@.take((i - 1) as int).push(b@[i - 1]));
    }
    assert(b@.take(b@.len() as int) == b@);
}

/// Appends all characters of `b` to `a`.
pub fn push_str(a: &mut Vec<char>, b: &str)
    ensures
        final(a)@ == old(a)@ + b@,
{
    let v = chars_of(b);
    push_all(a, &v);
}

/// The ASCII digit of a number below ten.
pub open spec fn digit_char(d: nat) -> char {
    if d == 0 {
        '0'
    } else if d == 1 {
        '1'
    } else if d == 2 {
        '2'
    } else if d == 3 {
        '3'
    } else if d == 4 {
        '4'
    } else if d == 5 {
        '5'
    } else if d == 6 {
        '6'
    } else if d == 7 {
        '7'
    } else if d == 8 {
        '8'
    } else {
        '9'
    }
}

/// Base-ten representation of `n`, without sign or leading zeros (`"0"` for zero): what
/// `n.to_string()` gives for an unsigned integer.
pub open spec fn decimal(n: nat) -> Seq<char>
    decreases n,
{
    if n < 10 {
        seq![digit_char(n)]
    } else {
        decimal(n / 10).push(digit_char(n % 10))
    }
}

/// `s` left-padded with `'0'` to at least `width` characters (what `{:0width$}` does to an
/// unsigned integer's digits).
pub open spec fn pad_zeros(s: Seq<char>, width: nat) -> Seq<char> {
    if s.len() >= width {
        s
    } else {
        Seq::new((width - s.len()) as nat, |i: int| '0') + s
    }
}

fn digit_of(d: u64) -> (c: char)
    requires
        d < 10,
    ensures
        c == digit_char(d as nat),
{
    if d == 0 {
        '0'
    } else if d == 1 {
        '1'
    } else if d == 2 {
        '2'
    } else if d == 3 {
        '3'
    } else if d == 4 {
        '4'
    } else if d == 5 {
        '5'
    } else if d == 6 {
        '6'
    } else if d == 7 {
        '7'
    } else if d == 8 {
        '8'
    } else {
        '9'
    }
}

/// The decimal digits of `n`.
pub fn decimal_chars(n: u64) -> (v: Vec<char>)
    ensures
        v@ == decimal(n as nat),
    decreases n,
{
    if n < 10 {
        let mut v = Vec::new();
        v.push(digit_of(n));
        v
    } else {
        let mut v = decimal_chars(n / 10);
        v.push(digit_of(n % 10));
        v
    }
}

/// Appends the decimal digits of `n` to `out`.
pub fn push_decimal(out: &mut Vec<char>, n: u64)
    ensures
        final(out)@ == old(out)@ + decimal(n as nat),
{
    let d = decimal_chars(n);
    push_all(out, &d);
}

/// The decimal digits of `n`, left-padded with zeros to `width` characters.
pub fn padded_decimal(n: u64, width: usize) -> (v: Vec<char>)
    ensures
        v@ == pad_zeros(decimal(n as nat), width as nat),
{
    let d = decimal_chars(n);
    if d.len() >= width {
        return d;
    }
    let mut v: Vec<char> = Vec::new();
    let fill = width - d.len();
    let mut i: usize = 0;
    while i < fill
        invariant
            i <= fill,
            fill == width - d@.len(),
            v@ == Seq::new(i as nat, |k: int| '0'),
        decreases fill - i,
    {
        v.push('0');
        i = i + 1;
        assert(v@ =~= Seq::new(i as nat, |k: int| '0'));
    }
    push_all(&mut v, &d);
    v
}

/// ASCII lower-casing of one character (non-ASCII characters are unchanged).
pub open spec fn ascii_lower(c: char) -> char {
    if 'A' <= c && c <= 'Z' {
        ((c as u32) + 32) as char
    } else {
        c
    }
}

/// ASCII lower-casing of a whole string, as `str::to_ascii_lowercase` does.
pub open spec fn ascii_lower_seq(s: Seq<char>) -> Seq<char> {
    Seq::new(s.len(), |i: int| ascii_lower(s[i]))
}

fn lower_char(c: char) -> (r: char)
    ensures
        r == ascii_lower(c),
{
    if 'A' <= c && c <= 'Z' {
        let code: u8 = ((c as u32) + 32) as u8;
        code as char
    } else {
        c
    }
}

/// The ASCII lower-case form of `s`.
pub fn to_ascii_lower(s: &[char]) -> (v: Vec<char>)
    ensures
        v@ == ascii_lower_seq(s@),
{
    let mut v: Vec<char> = Vec::new();
    let mut i: usize = 0;
    while i < s.len()
        invariant
            i <= s@.len(),
            v@ == ascii_lower_seq(s@.take(i as int)),
        decreases s@.len() - i,
    {
        v.push(lower_char(s[i]));
        i = i + 1;
        assert(v@ =~= ascii_lower_seq(s@.take(i as int)));
    }
    assert(s@.take(s@.len() as int) == s@);
    v
}

} // verus!
