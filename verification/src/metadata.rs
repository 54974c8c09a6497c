//! EXIF orientation + ICC/sRGB colour handling. Read a source file's metadata once, bake its EXIF
//! orientation into the pixels so every output is visually upright, optionally convert pixels to
//! sRGB via the source ICC profile, and (for non-strip modes) re-embed the ICC profile in the
//! encoded output. The under-cap copy path strips metadata losslessly where it can. Every function
//! is best-effort and never panics on bad input.
use vstd::prelude::*;
use crate::codec::{apply_exif_orientation, icc_to_srgb, oriented_pixels};
use crate::model::{MetadataMode, Options};
use crate::raster::{Raster, RasterView};
use crate::text::{ascii_lower_seq, chars_of, str_eq, to_ascii_lower, chars_eq};
use img_parts::ImageICC;

verus! {

/// The EXIF orientation `kamadak-exif` reads from the primary image of a container.
pub uninterp spec fn exif_orientation_of(bytes: Seq<u8>) -> Option<u32>;

/// The ICC profile `img-parts` assembles from a JPEG's ICC segments, given their contents in file
/// order (it reads each piece's sequence number, orders the pieces by it and joins them).
pub uninterp spec fn icc_assembled(pieces: Seq<Seq<u8>>) -> Option<Seq<u8>>;

/// The ICC profile `img-parts` finds when parsing the bytes as a PNG.
pub uninterp spec fn png_icc_of(bytes: Seq<u8>) -> Option<Seq<u8>>;

/// The JPEG `img-parts` writes after replacing its ICC profile (`None` removes it).
pub uninterp spec fn jpeg_with_icc(bytes: Seq<u8>, icc: Option<Seq<u8>>) -> Option<Seq<u8>>;

/// The PNG `img-parts` writes after replacing its ICC profile (`None` removes it).
pub uninterp spec fn png_with_icc(bytes: Seq<u8>, icc: Option<Seq<u8>>) -> Option<Seq<u8>>;

/// The JPEG `img-parts` writes after removing every segment with one of the three markers.
pub uninterp spec fn jpeg_without_segments(bytes: Seq<u8>, m1: u8, m2: u8, m3: u8) -> Option<
    Seq<u8>,
>;

/// The JPEG `img-parts` writes after removing every segment with one of the three markers and
/// the ICC profile.
pub uninterp spec fn jpeg_without_segments_or_icc(bytes: Seq<u8>, m1: u8, m2: u8, m3: u8) -> Option<
    Seq<u8>,
>;

/// The segments `img-parts` parses from a JPEG (up to the start of scan) as (marker, contents), or
/// `None` when the bytes do not parse as a JPEG.
pub uninterp spec fn jpeg_segments_of(bytes: Seq<u8>) -> Option<Seq<(u8, Seq<u8>)>>;

/// The chunk types `img-parts` parses from a PNG, in order, or `None` when the bytes do not parse
/// as a PNG.
pub uninterp spec fn png_chunk_kinds_of(bytes: Seq<u8>) -> Option<Seq<[u8; 4]>>;

/// The contents of the first chunk of type `kind` that `img-parts` finds in a PNG (`Some(None)`
/// when it has none), or `None` when the bytes do not parse as a PNG.
pub uninterp spec fn png_chunk_of(bytes: Seq<u8>, kind: [u8; 4]) -> Option<Option<Seq<u8>>>;

/// `img-parts`: `Jpeg::from_bytes`, then each segment's `marker` and `contents`. Claims the result
/// is [`jpeg_segments_of`].
#[verifier::external_body]
fn jpeg_segment_list(bytes: &[u8]) -> (r: Option<Vec<(u8, Vec<u8>)>>)
    ensures
        match r {
            Some(v) => jpeg_segments_of(bytes@) == Some(
                v@.map_values(|s: (u8, Vec<u8>)| (s.0, s.1@)),
            ),
            None => jpeg_segments_of(bytes@) is None,
        },
{
    img_parts::jpeg::Jpeg::from_bytes(img_parts::Bytes::from(bytes.to_vec()))
        .ok()
        .map(|j| j.segments().iter().map(|s| (s.marker(), s.contents().to_vec())).collect())
}

/// `img-parts`: `Png::from_bytes`, then each chunk's `kind`. Claims the result is
/// [`png_chunk_kinds_of`].
#[verifier::external_body]
fn png_chunk_kinds(bytes: &[u8]) -> (r: Option<Vec<[u8; 4]>>)
    ensures
        match r {
            Some(v) => png_chunk_kinds_of(bytes@) == Some(v@),
            None => png_chunk_kinds_of(bytes@) is None,
        },
{
    img_parts::png::Png::from_bytes(img_parts::Bytes::from(bytes.to_vec()))
        .ok()
        .map(|p| p.chunks().iter().map(|c| c.kind()).collect())
}

/// `img-parts`: `Png::from_bytes`, then `chunk_by_type(kind)` and its `contents`. Claims the result
/// is [`png_chunk_of`].
#[verifier::external_body]
fn png_chunk_contents(bytes: &[u8], kind: [u8; 4]) -> (r: Option<Option<Vec<u8>>>)
    ensures
        match r {
            Some(Some(v)) => png_chunk_of(bytes@, kind) == Some(Some(v@)),
            Some(None) => png_chunk_of(bytes@, kind) == Some(None::<Seq<u8>>),
            None => png_chunk_of(bytes@, kind) is None,
        },
{
    img_parts::png::Png::from_bytes(img_parts::Bytes::from(bytes.to_vec()))
        .ok()
        .map(|p| p.chunk_by_type(kind).map(|c| c.contents().to_vec()))
}

/// The bytes `img-parts` recognises an ICC segment by: `ICC_PROFILE` and a NUL.
pub open spec fn icc_prefix() -> Seq<u8> {
    seq![73u8, 67u8, 67u8, 95u8, 80u8, 82u8, 79u8, 70u8, 73u8, 76u8, 69u8, 0u8]
}

/// An APP2 segment holding a piece of an ICC profile.
pub open spec fn is_icc_segment(s: (u8, Seq<u8>)) -> bool {
    s.0 == 0xE2u8 && s.1.len() >= 12 && s.1.take(12) == icc_prefix()
}

/// The contents of the ICC segments among `segs`, in order.
pub open spec fn icc_pieces(segs: Seq<(u8, Seq<u8>)>) -> Seq<Seq<u8>> {
    segs.filter(|s: (u8, Seq<u8>)| is_icc_segment(s)).map_values(|s: (u8, Seq<u8>)| s.1)
}

/// The ICC profile `img-parts` finds when parsing the bytes as a JPEG: what it assembles from the
/// ICC segments, or none when the bytes do not parse.
pub open spec fn jpeg_icc_of(bytes: Seq<u8>) -> Option<Seq<u8>> {
    match jpeg_segments_of(bytes) {
        Some(segs) => icc_assembled(icc_pieces(segs)),
        None => None,
    }
}

/// These bytes parse as a JPEG up to its scan: the last segment is the start of scan, with the
/// image data after it.
pub open spec fn ends_in_scan(bytes: Seq<u8>) -> bool {
    jpeg_segments_of(bytes) matches Some(segs) && segs.len() > 0 && segs.last().0 == 0xDAu8
}

/// How many segments are not ICC pieces.
pub open spec fn non_icc_count(segs: Seq<(u8, Seq<u8>)>) -> nat
    decreases segs.len(),
{
    if segs.len() == 0 {
        0
    } else {
        non_icc_count(segs.drop_last()) + if is_icc_segment(segs.last()) {
            0nat
        } else {
            1nat
        }
    }
}

/// A JPEG marker whose segment `img-parts` reads and writes with a two-byte length field: SOF0
/// to SOF15 (with DHT, JPG and DAC among them), RST0 to RST7, SOS, DQT, DRI, APP0 to APP15 and
/// COM. A segment with any other marker is written back two bytes longer than it was read.
pub open spec fn marker_has_length(m: u8) -> bool {
    ||| 0xC0u8 <= m <= 0xD7u8
    ||| 0xE0u8 <= m <= 0xEFu8
    ||| m == 0xDAu8
    ||| m == 0xDBu8
    ||| m == 0xDDu8
    ||| m == 0xFEu8
}

/// Every segment `img-parts` parses from these bytes carries a length field, so rewriting the
/// JPEG writes each of them back at its own size.
pub open spec fn segments_carry_lengths(bytes: Seq<u8>) -> bool {
    jpeg_segments_of(bytes) matches Some(segs) ==> forall|i: int|
        0 <= i < segs.len() ==> marker_has_length(#[trigger] segs[i].0)
}

/// A marker of the segments `image`'s JPEG encoder writes before the image data when it is given
/// no EXIF or ICC data: APP0 (JFIF), SOF0, DQT, DHT and SOS.
pub open spec fn encoder_marker(m: u8) -> bool {
    m == 0xE0u8 || m == 0xC0u8 || m == 0xDBu8 || m == 0xC4u8 || m == 0xDAu8
}

/// These bytes parse as a JPEG holding only the kinds of segment the encoder writes.
pub open spec fn encoder_jpeg(bytes: Seq<u8>) -> bool {
    jpeg_segments_of(bytes) matches Some(segs) && forall|i: int|
        0 <= i < segs.len() ==> encoder_marker(#[trigger] segs[i].0)
}

/// The largest piece of a profile that one ICC segment holds.
pub open spec fn icc_segment_max() -> nat {
    65519
}

/// What writing `icc` into a JPEG can add to it: the profile itself, and 18 bytes (marker, length,
/// `ICC_PROFILE` prefix, sequence number and count) for each segment it is split into.
pub open spec fn icc_growth(icc: Option<Seq<u8>>) -> nat {
    match icc {
        Some(p) => p.len() + 18 * (p.len() / icc_segment_max() + 1),
        None => 0,
    }
}

/// `img-parts` can read (and, with `inserting`, add) an ICC profile in this JPEG without
/// panicking: every ICC segment holds its sequence number and count after the prefix, and when a
/// profile is inserted, at least three other segments precede the insertion point.
pub open spec fn jpeg_icc_ok(bytes: Seq<u8>, inserting: bool) -> bool {
    match jpeg_segments_of(bytes) {
        None => true,
        Some(segs) => (forall|i: int|
            0 <= i < segs.len() && is_icc_segment(#[trigger] segs[i]) ==> segs[i].1.len() >= 14)
            && (inserting ==> non_icc_count(segs) >= 3),
    }
}

/// The `iCCP` chunk names its profile with a NUL-terminated string followed by a compression byte.
pub open spec fn iccp_readable(c: Seq<u8>) -> bool {
    exists|i: int| 0 <= i && i + 1 < c.len() && c[i] == 0
}

/// `img-parts` can read this PNG's ICC profile without panicking.
pub open spec fn png_icc_readable(bytes: Seq<u8>) -> bool {
    png_chunk_of(bytes, iccp_kind()) matches Some(Some(c)) ==> iccp_readable(c)
}

/// The `iCCP` chunk type.
pub open spec fn iccp_kind() -> [u8; 4] {
    [105u8, 67u8, 67u8, 80u8]
}

/// How many chunk types are not `iCCP`.
pub open spec fn non_iccp_count(kinds: Seq<[u8; 4]>) -> nat
    decreases kinds.len(),
{
    if kinds.len() == 0 {
        0
    } else {
        non_iccp_count(kinds.drop_last()) + if kinds.last() == iccp_kind() {
            0nat
        } else {
            1nat
        }
    }
}

/// `img-parts` can insert an ICC profile into this PNG without panicking: a chunk other than
/// `iCCP` precedes the insertion point.
pub open spec fn png_icc_insertable(bytes: Seq<u8>) -> bool {
    png_chunk_kinds_of(bytes) matches Some(kinds) ==> non_iccp_count(kinds) >= 1
}

fn is_icc_piece(marker: u8, contents: &Vec<u8>) -> (r: bool)
    ensures
        r == is_icc_segment((marker, contents@)),
{
    if marker != 0xE2 || contents.len() < 12 {
        return false;
    }
    let prefix: [u8; 12] = [73, 67, 67, 95, 80, 82, 79, 70, 73, 76, 69, 0];
    let mut k: usize = 0;
    while k < 12
        invariant
            k <= 12,
            contents@.len() >= 12,
            prefix@ == icc_prefix(),
            forall|j: int| 0 <= j < k ==> contents@[j] == icc_prefix()[j],
        decreases 12 - k,
    {
        if contents[k] != prefix[k] {
            assert(contents@.take(12)[k as int] != icc_prefix()[k as int]);
            return false;
        }
        k = k + 1;
    }
    assert(contents@.take(12) =~= icc_prefix());
    true
}

/// Whether `img-parts` can read (and, with `inserting`, add) an ICC profile in these bytes.
fn jpeg_icc_check(bytes: &[u8], inserting: bool) -> (r: bool)
    ensures
        r == jpeg_icc_ok(bytes@, inserting),
{
    let segs = match jpeg_segment_list(bytes) {
        Some(v) => v,
        None => {
            return true;
        },
    };
    let ghost view = segs@.map_values(|s: (u8, Vec<u8>)| (s.0, s.1@));
    let mut others: usize = 0;
    let mut i: usize = 0;
    while i < segs.len()
        invariant
            i <= segs@.len(),
            view == segs@.map_values(|s: (u8, Vec<u8>)| (s.0, s.1@)),
            jpeg_segments_of(bytes@) == Some(view),
            others <= i,
            others == non_icc_count(view.take(i as int)),
            forall|j: int| 0 <= j < i && is_icc_segment(#[trigger] view[j]) ==> view[j].1.len() >= 14,
        decreases segs@.len() - i,
    {
        let piece = is_icc_piece(segs[i].0, &segs[i].1);
        assert(view.take(i + 1).drop_last() =~= view.take(i as int));
        assert(view[i as int] == (segs@[i as int].0, segs@[i as int].1@));
        if piece {
            if segs[i].1.len() < 14 {
                proof {
                    let k = i as int;
                    assert(0 <= k < view.len() && is_icc_segment(view[k]) && view[k].1.len() < 14);
                    assert(!(forall|m: int|
                        0 <= m < view.len() && is_icc_segment(#[trigger] view[m]) ==> view[m].1.len()
                            >= 14));
                    assert(jpeg_segments_of(bytes@) == Some(view));
                    assert(jpeg_segments_of(bytes@).unwrap() == view);
                    assert(!jpeg_icc_ok(bytes@, inserting));
                }
                return false;
            }
        } else {
            others = others + 1;
        }
        i = i + 1;
    }
    assert(view.take(i as int) =~= view);
    !inserting || others >= 3
}

/// Whether `img-parts` can read the ICC profile of these bytes as a PNG.
fn png_read_check(bytes: &[u8]) -> (r: bool)
    ensures
        r == png_icc_readable(bytes@),
{
    let c = match png_chunk_contents(bytes, [105, 67, 67, 80]) {
        Some(Some(c)) => c,
        _ => {
            return true;
        },
    };
    assert([105u8, 67u8, 67u8, 80u8] =~= iccp_kind());
    let mut i: usize = 0;
    while i < c.len() && c.len() - i > 1
        invariant
            i <= c@.len(),
            png_chunk_of(bytes@, iccp_kind()) == Some(Some(c@)),
            forall|j: int| 0 <= j < i ==> c@[j] != 0,
        decreases c@.len() - i,
    {
        if c[i] == 0 {
            assert(0 <= i && i + 1 < c@.len() && c@[i as int] == 0);
            return true;
        }
        i = i + 1;
    }
    assert forall|j: int| 0 <= j && j + 1 < c@.len() implies c@[j] != 0 by {
        assert(j < i);
    }
    false
}

/// Whether `img-parts` can insert an ICC profile into these bytes as a PNG.
fn png_insert_check(bytes: &[u8]) -> (r: bool)
    ensures
        r == png_icc_insertable(bytes@),
{
    let kinds = match png_chunk_kinds(bytes) {
        Some(k) => k,
        None => {
            return true;
        },
    };
    let iccp: [u8; 4] = [105, 67, 67, 80];
    let mut others: usize = 0;
    let mut i: usize = 0;
    while i < kinds.len()
        invariant
            i <= kinds@.len(),
            iccp == iccp_kind(),
            png_chunk_kinds_of(bytes@) == Some(kinds@),
            others <= i,
            others == non_iccp_count(kinds@.take(i as int)),
        decreases kinds@.len() - i,
    {
        assert(kinds@.take(i + 1).drop_last() =~= kinds@.take(i as int));
        let k = kinds[i];
        if !(k[0] == iccp[0] && k[1] == iccp[1] && k[2] == iccp[2] && k[3] == iccp[3]) {
            assert(k != iccp_kind()) by {
                if k == iccp_kind() {
                    assert(k[0] == iccp[0]);
                }
            }
            others = others + 1;
        } else {
            assert(k =~= iccp_kind());
        }
        i = i + 1;
    }
    assert(kinds@.take(i as int) =~= kinds@);
    others >= 1
}

/// `kamadak-exif`: `Reader::read_from_container`, then the primary image's `Orientation` field
/// as an unsigned integer. Claims the result is [`exif_orientation_of`].
#[verifier::external_body]
fn read_exif_orientation(bytes: &[u8]) -> (r: Option<u32>)
    ensures
        r == exif_orientation_of(bytes@),
{
    exif::Reader::new()
        .read_from_container(&mut std::io::Cursor::new(bytes))
        .ok()
        .and_then(|e| e.get_field(exif::Tag::Orientation, exif::In::PRIMARY).and_then(|f| f.value.get_uint(0)))
}

/// `img-parts`: `Jpeg::from_bytes`, then `icc_profile`. Claims the result is [`jpeg_icc_of`]:
/// `None` when parsing fails, else [`icc_assembled`] of the ICC segments' contents (`icc_profile`
/// looks at no other segment).
#[verifier::external_body]
fn read_jpeg_icc(bytes: &[u8]) -> (r: Option<Vec<u8>>)
    requires
        jpeg_icc_ok(bytes@, false),
    ensures
        match r {
            Some(v) => jpeg_icc_of(bytes@) == Some(v@),
            None => jpeg_icc_of(bytes@) is None,
        },
        jpeg_segments_of(bytes@) matches Some(segs) ==> opt_seq(r) == icc_assembled(icc_pieces(segs)),
{
    img_parts::jpeg::Jpeg::from_bytes(img_parts::Bytes::from(bytes.to_vec())).ok().and_then(|j| j.icc_profile()).map(|b| b.to_vec())
}

/// `img-parts`: `Png::from_bytes`, then `icc_profile`. Claims the result is [`png_icc_of`].
#[verifier::external_body]
fn read_png_icc(bytes: &[u8]) -> (r: Option<Vec<u8>>)
    requires
        png_icc_readable(bytes@),
    ensures
        match r {
            Some(v) => png_icc_of(bytes@) == Some(v@),
            None => png_icc_of(bytes@) is None,
        },
{
    img_parts::png::Png::from_bytes(img_parts::Bytes::from(bytes.to_vec())).ok().and_then(|p| p.icc_profile()).map(|b| b.to_vec())
}

/// `img-parts`: parse a JPEG, `set_icc_profile`, and write it back. Claims the result is
/// [`jpeg_with_icc`] (`None` when parsing or writing fails); that fewer than two bytes never
/// parse; and, when every parsed segment carries a length field, that the result is at most
/// [`icc_growth`] longer than the input: parsing drops fill bytes and anything after the end
/// marker, the old ICC segments are removed, and each new one holds at most 65519 bytes of the
/// profile after 18 bytes of header.
#[verifier::external_body]
fn set_jpeg_icc(bytes: &[u8], icc: Option<Vec<u8>>) -> (r: Option<Vec<u8>>)
    requires
        jpeg_icc_ok(bytes@, icc is Some),
    ensures
        match r {
            Some(v) => jpeg_with_icc(bytes@, opt_seq(icc)) == Some(v@),
            None => jpeg_with_icc(bytes@, opt_seq(icc)) is None,
        },
        bytes@.len() < 2 ==> r is None,
        segments_carry_lengths(bytes@) ==> (r matches Some(v) ==> v@.len() <= bytes@.len()
            + icc_growth(opt_seq(icc))),
{
    let mut jpeg = img_parts::jpeg::Jpeg::from_bytes(img_parts::Bytes::from(bytes.to_vec())).ok()?;
    jpeg.set_icc_profile(icc.map(img_parts::Bytes::from));
    let mut out = Vec::new();
    jpeg.encoder().write_to(&mut out).ok()?;
    Some(out)
}

/// `img-parts`: parse a PNG, `set_icc_profile`, and write it back. Claims the result is
/// [`png_with_icc`] (`None` when parsing or writing fails), and that removing the profile never
/// makes the file longer (every chunk is written back at its own size, the `iCCP` chunks are
/// dropped, and anything after `IEND` is left out). What a compressed profile adds is left unsaid.
#[verifier::external_body]
fn set_png_icc(bytes: &[u8], icc: Option<Vec<u8>>) -> (r: Option<Vec<u8>>)
    requires
        icc is Some ==> png_icc_insertable(bytes@),
    ensures
        match r {
            Some(v) => png_with_icc(bytes@, opt_seq(icc)) == Some(v@),
            None => png_with_icc(bytes@, opt_seq(icc)) is None,
        },
        icc is None ==> (r matches Some(v) ==> v@.len() <= bytes@.len()),
{
    let mut png = img_parts::png::Png::from_bytes(img_parts::Bytes::from(bytes.to_vec())).ok()?;
    png.set_icc_profile(icc.map(img_parts::Bytes::from));
    let mut out = Vec::new();
    png.encoder().write_to(&mut out).ok()?;
    Some(out)
}

/// What a JPEG rewritten by `img-parts` without the segments `keep` rejects parses back to, when
/// its own segments were `segs`. A JPEG parsed up to its scan (a start-of-scan segment with the
/// image data after it) comes back as the kept segments, in order, as long as the scan is kept. One
/// that ended at an end marker without a scan, or that lost its scan, does not parse back: the
/// rewrite does not write the end marker.
pub open spec fn reparsed_after_removal(
    segs: Seq<(u8, Seq<u8>)>,
    keep: spec_fn((u8, Seq<u8>)) -> bool,
) -> Option<Seq<(u8, Seq<u8>)>> {
    if segs.len() > 0 && segs.last().0 == 0xDAu8 && keep(segs.last()) {
        Some(segs.filter(keep))
    } else {
        None
    }
}

/// `img-parts`: parse a JPEG, `remove_segments_by_marker` for each marker, and write it back.
/// Claims the result is [`jpeg_without_segments`], and that it parses back to the source's
/// segments without those markers (removal is a `retain` on the segment list, and the rest is
/// written back as it was read).
#[verifier::external_body]
fn strip_jpeg_segments(bytes: &[u8], m1: u8, m2: u8, m3: u8) -> (r: Option<Vec<u8>>)
    ensures
        match r {
            Some(v) => jpeg_without_segments(bytes@, m1, m2, m3) == Some(v@),
            None => jpeg_without_segments(bytes@, m1, m2, m3) is None,
        },
        r matches Some(v) ==> jpeg_segments_of(bytes@) matches Some(segs) && jpeg_segments_of(v@)
            == reparsed_after_removal(
            segs,
            |s: (u8, Seq<u8>)| s.0 != m1 && s.0 != m2 && s.0 != m3,
        ),
{
    let mut jpeg = img_parts::jpeg::Jpeg::from_bytes(img_parts::Bytes::from(bytes.to_vec())).ok()?;
    jpeg.remove_segments_by_marker(m1);
    jpeg.remove_segments_by_marker(m2);
    jpeg.remove_segments_by_marker(m3);
    let mut out = Vec::new();
    jpeg.encoder().write_to(&mut out).ok()?;
    Some(out)
}

/// `img-parts`: parse a JPEG, `remove_segments_by_marker` for each marker, `set_icc_profile(None)`,
/// and write it back. Claims the result is [`jpeg_without_segments_or_icc`], and that it parses
/// back to the source's segments without those markers and without ICC segments (both removals
/// are a `retain` on the segment list).
#[verifier::external_body]
fn strip_jpeg_segments_and_icc(bytes: &[u8], m1: u8, m2: u8, m3: u8) -> (r: Option<Vec<u8>>)
    requires
        jpeg_icc_ok(bytes@, false),
    ensures
        match r {
            Some(v) => jpeg_without_segments_or_icc(bytes@, m1, m2, m3) == Some(v@),
            None => jpeg_without_segments_or_icc(bytes@, m1, m2, m3) is None,
        },
        r matches Some(v) ==> jpeg_segments_of(bytes@) matches Some(segs) && jpeg_segments_of(v@)
            == reparsed_after_removal(
            segs,
            |s: (u8, Seq<u8>)| s.0 != m1 && s.0 != m2 && s.0 != m3 && !is_icc_segment(s),
        ),
{
    let mut jpeg = img_parts::jpeg::Jpeg::from_bytes(img_parts::Bytes::from(bytes.to_vec())).ok()?;
    jpeg.remove_segments_by_marker(m1);
    jpeg.remove_segments_by_marker(m2);
    jpeg.remove_segments_by_marker(m3);
    jpeg.set_icc_profile(None);
    let mut out = Vec::new();
    jpeg.encoder().write_to(&mut out).ok()?;
    Some(out)
}

/// The contents of an optional byte vector.
pub open spec fn opt_seq(o: Option<Vec<u8>>) -> Option<Seq<u8>> {
    match o {
        Some(v) => Some(v@),
        None => None,
    }
}

/// Metadata read once from a source file's own encoded bytes.
#[derive(Debug, Clone, Default)]
pub struct SourceMeta {
    /// EXIF orientation 1..=8, if present.
    pub orientation: Option<u32>,
    /// Raw ICC profile bytes, if the source carried one.
    pub icc: Option<Vec<u8>>,
}

/// The metadata of `bytes`: the EXIF orientation, and the ICC profile of the JPEG or, failing
/// that, of the PNG. A profile stored so that `img-parts` cannot read it without panicking (an ICC
/// segment cut short, an `iCCP` chunk without its name terminator or compression byte) counts as
/// no profile.
pub open spec fn source_meta_of(bytes: Seq<u8>) -> (Option<u32>, Option<Seq<u8>>) {
    (
        exif_orientation_of(bytes),
        match (if jpeg_icc_ok(bytes, false) {
            jpeg_icc_of(bytes)
        } else {
            None
        }) {
            Some(icc) => Some(icc),
            None => if png_icc_readable(bytes) {
                png_icc_of(bytes)
            } else {
                None
            },
        },
    )
}

/// Read EXIF orientation and the ICC profile from the source bytes. Missing/garbage metadata is
/// normal — every branch falls back to `None`.
pub fn read_source_meta(original_bytes: &[u8]) -> (r: SourceMeta)
    ensures
        (r.orientation, opt_seq(r.icc)) == source_meta_of(original_bytes@),
{
    let orientation = read_exif_orientation(original_bytes);
    let from_jpeg = if jpeg_icc_check(original_bytes, false) {
        read_jpeg_icc(original_bytes)
    } else {
        None
    };
    let icc = match from_jpeg {
        Some(icc) => Some(icc),
        None => {
            if png_read_check(original_bytes) {
                read_png_icc(original_bytes)
            } else {
                None
            }
        },
    };
    SourceMeta { orientation, icc }
}

/// The EXIF orientation to bake in, if `o` is one of the eight valid values.
pub open spec fn valid_orientation(o: Option<u32>) -> Option<u8> {
    match o {
        Some(v) => if 1 <= v <= 8 {
            Some(v as u8)
        } else {
            None
        },
        None => None,
    }
}

/// `img` with its orientation baked in.
pub open spec fn oriented(img: RasterView, orientation: Option<u32>) -> RasterView {
    match valid_orientation(orientation) {
        Some(o) => RasterView {
            width: if o >= 5 {
                img.height
            } else {
                img.width
            },
            height: if o >= 5 {
                img.width
            } else {
                img.height
            },
            has_alpha: img.has_alpha,
            pixels: oriented_pixels(img.pixels, img.width, img.height, img.has_alpha, o),
        },
        None => img,
    }
}

/// `r` is `img` with its pixel values possibly recoloured: the same dimensions, layout and buffer
/// length (what holds of an sRGB conversion, whose values depend on the CPU, and of a failed one,
/// which leaves the image unchanged).
pub open spec fn recoloured(img: RasterView, r: RasterView) -> bool {
    &&& r.width == img.width
    &&& r.height == img.height
    &&& r.has_alpha == img.has_alpha
    &&& r.pixels.len() == img.pixels.len()
}

/// `r` is what `apply_color_and_orientation` may make of `img`: the image with its orientation
/// baked in, then, when sRGB conversion is asked for and the source has a profile, recoloured;
/// otherwise exactly the oriented image.
pub open spec fn colored_and_oriented(
    img: RasterView,
    orientation: Option<u32>,
    icc: Option<Seq<u8>>,
    convert_srgb: bool,
    r: RasterView,
) -> bool {
    let o = oriented(img, orientation);
    if convert_srgb && icc is Some {
        recoloured(o, r)
    } else {
        r == o
    }
}

/// Bake EXIF orientation into the pixels (so output is upright in every mode) and, if requested,
/// convert pixels from the source ICC profile to sRGB. Pure pixel work — touches no encoded metadata.
pub fn apply_color_and_orientation(img: Raster, meta: &SourceMeta, opts: &Options) -> (r: Raster)
    requires
        img.wf(),
    ensures
        r.wf(),
        colored_and_oriented(img@, meta.orientation, opt_seq(meta.icc), opts.convert_srgb, r@),
{
    let mut img = img;
    match meta.orientation {
        Some(o) => {
            if 1 <= o && o <= 8 {
                img = apply_exif_orientation(img, o as u8);
            }
        },
        None => {},
    }
    if opts.convert_srgb {
        match &meta.icc {
            Some(icc) => {
                img = to_srgb(img, icc);
            },
            None => {},
        }
    }
    img
}

/// Transform `img` from the `icc` source profile to sRGB. Alpha is preserved (4-channel transform
/// when present). Any failure returns `img` unchanged.
fn to_srgb(img: Raster, icc: &Vec<u8>) -> (r: Raster)
    requires
        img.wf(),
    ensures
        r.wf(),
        recoloured(img@, r@),
{
    match icc_to_srgb(&img.pixels, img.has_alpha, icc) {
        Some(dst) => Raster { width: img.width, height: img.height, has_alpha: img.has_alpha, pixels: dst },
        None => img,
    }
}

/// The bytes `mux_metadata` emits: the encoded bytes unchanged for `StripAll`; otherwise the
/// JPEG or PNG rewritten to carry the source ICC profile (none when the pixels were converted to
/// sRGB), falling back to the encoded bytes when rewriting fails, when `img-parts` could not
/// rewrite the stream without panicking, or when the format is another.
pub open spec fn muxed(encoded: Seq<u8>, icc: Option<Seq<u8>>, opts: Options, ext: Seq<char>) -> Seq<
    u8,
> {
    if opts.metadata == MetadataMode::StripAll {
        encoded
    } else {
        let embed = if opts.convert_srgb {
            None
        } else {
            icc
        };
        if ext == "jpg"@ || ext == "jpeg"@ {
            if !jpeg_icc_ok(encoded, embed is Some) {
                encoded
            } else {
                match jpeg_with_icc(encoded, embed) {
                    Some(out) => out,
                    None => encoded,
                }
            }
        } else if ext == "png"@ {
            if embed is Some && !png_icc_insertable(encoded) {
                encoded
            } else {
                match png_with_icc(encoded, embed) {
                    Some(out) => out,
                    None => encoded,
                }
            }
        } else {
            encoded
        }
    }
}

/// The profile re-embedding writes in the keep modes: none once the pixels were converted to sRGB.
pub open spec fn embedded_icc(icc: Option<Seq<u8>>, opts: Options) -> Option<Seq<u8>> {
    if opts.convert_srgb {
        None
    } else {
        icc
    }
}

/// How many bytes re-embedding metadata can add to `encoded`, where that is known: nothing when
/// metadata is stripped, for a format other than JPEG or PNG, for a JPEG too short to parse, or
/// for a PNG that gets no profile; [`icc_growth`] for a JPEG whose segments all carry a length
/// field. Unknown for a PNG that gets a (compressed) profile and for other JPEGs.
pub open spec fn mux_growth(encoded: Seq<u8>, icc: Option<Seq<u8>>, opts: Options, ext: Seq<char>) -> Option<nat> {
    if opts.metadata == MetadataMode::StripAll {
        Some(0)
    } else if ext == "jpg"@ || ext == "jpeg"@ {
        if encoded.len() < 2 {
            Some(0)
        } else if segments_carry_lengths(encoded) {
            Some(icc_growth(embedded_icc(icc, opts)))
        } else {
            None
        }
    } else if ext == "png"@ {
        if embedded_icc(icc, opts) is None {
            Some(0)
        } else {
            None
        }
    } else {
        Some(0)
    }
}

/// Re-embed metadata into already-encoded output bytes per the mode. `StripAll` (the default) is a
/// passthrough — the freshly-encoded bytes carry no metadata. The keep modes re-embed the ICC profile
/// so color management survives (unless pixels were already converted to sRGB, in which case no ICC is
/// embedded). Best-effort: any failure returns `encoded`.
pub fn mux_metadata(encoded: Vec<u8>, meta: &SourceMeta, opts: &Options, fmt_ext: &str) -> (r: Vec<
    u8,
>)
    ensures
        r@ == muxed(encoded@, opt_seq(meta.icc), *opts, fmt_ext@),
        opts.metadata == MetadataMode::StripAll ==> r@ == encoded@,
        mux_growth(encoded@, opt_seq(meta.icc), *opts, fmt_ext@) matches Some(g) ==> r@.len()
            <= encoded@.len() + g,
{
    if opts.metadata == MetadataMode::StripAll {
        return encoded;
    }
    let icc_to_embed: Option<Vec<u8>> = if opts.convert_srgb {
        None
    } else {
        match &meta.icc {
            Some(icc) => Some(icc.clone()),
            None => None,
        }
    };
    if str_eq(fmt_ext, "jpg") || str_eq(fmt_ext, "jpeg") {
        let inserting = icc_to_embed.is_some();
        if !jpeg_icc_check(&encoded, inserting) {
            return encoded;
        }
        match set_jpeg_icc(&encoded, icc_to_embed) {
            Some(out) => out,
            None => encoded,
        }
    } else if str_eq(fmt_ext, "png") {
        if icc_to_embed.is_some() && !png_insert_check(&encoded) {
            return encoded;
        }
        match set_png_icc(&encoded, icc_to_embed) {
            Some(out) => out,
            None => encoded,
        }
    } else {
        encoded
    }
}

/// What is written for an encode found within `cap`: the encode with its metadata re-embedded, or,
/// when re-embedding would take it over `cap`, the encode alone (without the profile), which fits.
pub open spec fn muxed_within(
    encoded: Seq<u8>,
    icc: Option<Seq<u8>>,
    opts: Options,
    ext: Seq<char>,
    cap: u64,
) -> Seq<u8> {
    let full = muxed(encoded, icc, opts, ext);
    if full.len() <= cap {
        full
    } else {
        encoded
    }
}

/// Re-embed metadata as [`mux_metadata`] does, unless that would take the file over `cap`: then the
/// encode is written without its profile, so a file that fit the cap still does.
pub fn mux_metadata_within(
    encoded: Vec<u8>,
    meta: &SourceMeta,
    opts: &Options,
    fmt_ext: &str,
    cap: u64,
) -> (r: Vec<u8>)
    ensures
        r@ == muxed_within(encoded@, opt_seq(meta.icc), *opts, fmt_ext@, cap),
        encoded@.len() <= cap ==> r@.len() <= cap,
        mux_growth(encoded@, opt_seq(meta.icc), *opts, fmt_ext@) matches Some(g) ==> muxed(
            encoded@,
            opt_seq(meta.icc),
            *opts,
            fmt_ext@,
        ).len() <= encoded@.len() + g,
{
    let plain = encoded.clone();
    assert(plain@ =~= encoded@);
    let full = mux_metadata(encoded, meta, opts, fmt_ext);
    if full.len() as u64 <= cap {
        full
    } else {
        plain
    }
}

/// How the skip/copy path (an already-under-cap file) should emit its output so the result still
/// honors the metadata policy.
pub enum CopyPlan {
    /// Copy the source bytes through unchanged — `KeepAll`, where retaining everything is the intent.
    Verbatim,
    /// Write these rewritten bytes: identical pixels, metadata stripped per the mode (lossless).
    Stripped(Vec<u8>),
    /// A lossless copy can't honor the policy (a rotated JPEG whose orientation must be baked into
    /// the pixels, a non-JPEG container, or a parse failure). The caller should re-encode instead.
    Reencode,
}

/// The APP1 (EXIF incl. GPS, and XMP), APP13 (Photoshop / IPTC) and COM (comment) markers.
pub const APP1: u8 = 0xE1;
pub const APP13: u8 = 0xED;
pub const COM: u8 = 0xFE;

/// The JPEG with its privacy-bearing segments removed (and, for `StripAll`, its ICC profile).
pub open spec fn stripped_jpeg(original: Seq<u8>, mode: MetadataMode) -> Option<Seq<u8>> {
    if mode == MetadataMode::StripAll {
        if jpeg_icc_ok(original, false) {
            jpeg_without_segments_or_icc(original, APP1, APP13, COM)
        } else {
            None
        }
    } else {
        jpeg_without_segments(original, APP1, APP13, COM)
    }
}

/// Parsed as a JPEG, these bytes hold no APP1 (EXIF, GPS, XMP), APP13 (Photoshop, IPTC) or COM
/// segment, and, with `no_icc`, no ICC segment.
pub open spec fn holds_no_private_segments(bytes: Seq<u8>, no_icc: bool) -> bool {
    jpeg_segments_of(bytes) matches Some(segs) ==> forall|i: int|
        0 <= i < segs.len() ==> {
            let s = #[trigger] segs[i];
            &&& s.0 != APP1
            &&& s.0 != APP13
            &&& s.0 != COM
            &&& no_icc ==> !is_icc_segment(s)
        }
}

/// The plan for an under-cap copy, as plain values: `None` means re-encode, `Some(None)` a
/// verbatim copy, `Some(Some(bytes))` a stripped rewrite.
pub open spec fn copy_plan_of(original: Seq<u8>, mode: MetadataMode, ext: Seq<char>) -> Option<
    Option<Seq<u8>>,
> {
    if mode == MetadataMode::KeepAll {
        Some(None)
    } else if exif_orientation_of(original) matches Some(o) && 2 <= o <= 8 {
        None
    } else if ascii_lower_seq(ext) == "jpg"@ || ascii_lower_seq(ext) == "jpeg"@ {
        match stripped_jpeg(original, mode) {
            Some(b) => Some(Some(b)),
            None => None,
        }
    } else {
        None
    }
}

/// A copy is only ever made of a file that needs no turning: whenever the policy is not to keep
/// everything and the source's EXIF orientation is 2 to 8 (stored sideways or mirrored), the plan
/// is to re-encode, so the orientation gets baked into the pixels; a stripped copy is only made of
/// a source that is upright (no orientation, or 1), and only of a JPEG.
pub proof fn copies_are_only_made_of_upright_jpegs(original: Seq<u8>, mode: MetadataMode, ext: Seq<char>)
    ensures
        mode != MetadataMode::KeepAll && (exif_orientation_of(original) matches Some(o) && 2 <= o
            <= 8) ==> copy_plan_of(original, mode, ext) is None,
        copy_plan_of(original, mode, ext) matches Some(Some(_)) ==> {
            &&& mode != MetadataMode::KeepAll
            &&& !(exif_orientation_of(original) matches Some(o) && 2 <= o <= 8)
            &&& (ascii_lower_seq(ext) == "jpg"@ || ascii_lower_seq(ext) == "jpeg"@)
        },
{
}

/// The plan as plain values.
pub open spec fn plan_view(p: CopyPlan) -> Option<Option<Seq<u8>>> {
    match p {
        CopyPlan::Verbatim => Some(None),
        CopyPlan::Stripped(b) => Some(Some(b@)),
        CopyPlan::Reencode => None,
    }
}

/// Decide how the skip/copy path should write `original` so the output matches `mode`. An upright
/// JPEG (no EXIF orientation, or orientation 1) gets a lossless segment strip; everything else falls
/// back to a re-encode so no metadata can leak. `KeepAll` is always a verbatim copy.
pub fn plan_copy(original: &[u8], mode: MetadataMode, ext: &str) -> (r: CopyPlan)
    ensures
        plan_view(r) == copy_plan_of(original@, mode, ext@),
        mode == MetadataMode::KeepAll <==> r is Verbatim,
        r matches CopyPlan::Stripped(b) ==> holds_no_private_segments(b@, mode == MetadataMode::StripAll),
        mode != MetadataMode::KeepAll && jpeg_segments_of(original@) is None ==> r is Reencode,
        mode != MetadataMode::KeepAll && (exif_orientation_of(original@) matches Some(o) && 2 <= o
            <= 8) ==> r is Reencode,
        mode != MetadataMode::StripAll && ends_in_scan(original@) ==> (r matches CopyPlan::Stripped(b)
            ==> jpeg_icc_of(b@) == jpeg_icc_of(original@)),
{
    if mode == MetadataMode::KeepAll {
        return CopyPlan::Verbatim;
    }
    let meta = read_source_meta(original);
    match meta.orientation {
        Some(o) => {
            if 2 <= o && o <= 8 {
                return CopyPlan::Reencode;
            }
        },
        None => {},
    }
    let e = chars_of(ext);
    let lower = to_ascii_lower(&e);
    let jpg = chars_of("jpg");
    let jpeg = chars_of("jpeg");
    if chars_eq(&lower, &jpg) || chars_eq(&lower, &jpeg) {
        match strip_jpeg_metadata(original, mode) {
            Some(bytes) => CopyPlan::Stripped(bytes),
            None => CopyPlan::Reencode,
        }
    } else {
        CopyPlan::Reencode
    }
}

/// Dropping segments that `keep` rejects, when it keeps every segment `inner` accepts, leaves the
/// segments `inner` accepts as they were.
proof fn lemma_filter_absorbed(
    segs: Seq<(u8, Seq<u8>)>,
    keep: spec_fn((u8, Seq<u8>)) -> bool,
    inner: spec_fn((u8, Seq<u8>)) -> bool,
)
    requires
        forall|s: (u8, Seq<u8>)| #[trigger] inner(s) ==> keep(s),
    ensures
        segs.filter(keep).filter(inner) == segs.filter(inner),
    decreases segs.len(),
{
    if segs.len() == 0 {
        segs.lemma_filter_len(keep);
        segs.filter(keep).lemma_filter_len(inner);
        segs.lemma_filter_len(inner);
        assert(segs.filter(keep).filter(inner) =~= segs.filter(inner));
    } else {
        let init = segs.drop_last();
        let last = segs.last();
        assert(segs =~= init.push(last));
        lemma_filter_absorbed(init, keep, inner);
        init.lemma_filter_push(last, keep);
        init.lemma_filter_push(last, inner);
        if keep(last) {
            init.filter(keep).lemma_filter_push(last, inner);
        }
    }
}

/// Losslessly remove privacy-bearing metadata from an encoded JPEG without re-compressing the pixels:
/// every APP1 (EXIF incl. GPS, and XMP), APP13 (Photoshop/IPTC) and COM (comment) segment is dropped;
/// `StripAll` additionally drops the ICC profile, while the keep / strip-GPS modes retain it. Returns
/// `None` on any parse/encode failure (and on an ICC segment cut short, which `img-parts` cannot
/// drop without panicking) so the caller falls back to a full re-encode.
fn strip_jpeg_metadata(original: &[u8], mode: MetadataMode) -> (r: Option<Vec<u8>>)
    ensures
        opt_seq(r) == stripped_jpeg(original@, mode),
        r matches Some(b) ==> holds_no_private_segments(b@, mode == MetadataMode::StripAll),
        r is Some ==> jpeg_segments_of(original@) is Some,
        mode != MetadataMode::StripAll && ends_in_scan(original@) ==> (r matches Some(b)
            ==> jpeg_icc_of(b@) == jpeg_icc_of(original@)),
{
    if mode == MetadataMode::StripAll {
        if !jpeg_icc_check(original, false) {
            return None;
        }
        let r = strip_jpeg_segments_and_icc(original, APP1, APP13, COM);
        proof {
            if let Some(b) = opt_seq(r) {
                let segs = jpeg_segments_of(original@).unwrap();
                let keep = |s: (u8, Seq<u8>)| s.0 != APP1 && s.0 != APP13 && s.0 != COM && !is_icc_segment(s);
                if let Some(kept) = jpeg_segments_of(b) {
                    assert(kept == segs.filter(keep));
                    assert forall|i: int| 0 <= i < kept.len() implies keep(#[trigger] kept[i]) by {
                        segs.lemma_filter_pred(keep, i);
                    }
                }
            }
        }
        r
    } else {
        let r = strip_jpeg_segments(original, APP1, APP13, COM);
        proof {
            if let Some(b) = opt_seq(r) {
                let segs = jpeg_segments_of(original@).unwrap();
                let keep = |s: (u8, Seq<u8>)| s.0 != APP1 && s.0 != APP13 && s.0 != COM;
                if let Some(kept) = jpeg_segments_of(b) {
                    assert(kept == segs.filter(keep));
                    assert forall|i: int| 0 <= i < kept.len() implies keep(#[trigger] kept[i]) by {
                        segs.lemma_filter_pred(keep, i);
                    }
                }
                if ends_in_scan(original@) {
                    let icc = |s: (u8, Seq<u8>)| is_icc_segment(s);
                    lemma_filter_absorbed(segs, keep, icc);
                    assert(icc_pieces(segs.filter(keep)) == icc_pieces(segs));
                }
            }
        }
        r
    }
}

} // verus!
