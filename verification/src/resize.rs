//! Resampling. Every resize goes through one Lanczos3 path on RGBA8 pixels, so the result always
//! carries an alpha channel.
use vstd::prelude::*;
use crate::codec::{lanczos_resize, resized_rgba};
use crate::error::EngineError;
use crate::raster::{to_rgba8, Raster, RasterView};

verus! {

/// `a * num / den` rounded to the nearest integer, halves away from zero.
pub open spec fn rounded_ratio(a: nat, num: nat, den: nat) -> nat {
    ((2 * (a * num) + den) / (2 * den)) as nat
}

/// An RGBA8 buffer of `width` x `height` pixels can be addressed on this machine.
pub open spec fn addressable(width: u32, height: u32) -> bool {
    width * height * 4 <= usize::MAX
}

/// What resampling `img` to `new_width` x `new_height` gives (RGBA8), or `None` when the resampler
/// reports an error or the result would not fit in memory's address range.
pub open spec fn resized(img: RasterView, new_width: u32, new_height: u32) -> Option<RasterView> {
    if !addressable(new_width, new_height) {
        None
    } else {
        match resized_rgba(img.rgba_pixels(), img.width, img.height, new_width, new_height) {
            Some(px) => Some(
                RasterView { width: new_width, height: new_height, has_alpha: true, pixels: px },
            ),
            None => None,
        }
    }
}

/// High-quality Lanczos3 resample to exactly `new_width` x `new_height`. Everything is converted
/// to RGBA8 so a single code path covers all source pixel formats.
pub fn resize_exact(img: &Raster, new_width: u32, new_height: u32) -> (r: Result<
    Raster,
    EngineError,
>)
    requires
        img.wf(),
    ensures
        match r {
            Ok(out) => out.wf() && resized(img@, new_width, new_height) == Some(out@),
            Err(e) => resized(img@, new_width, new_height) is None && e is Resize,
        },
{
    proof {
        crate::crop::lemma_u32_product_fits(new_width, new_height);
    }
    let pixels: u64 = (new_width as u64) * (new_height as u64);
    if pixels > (usize::MAX / 4) as u64 {
        let m = crate::text::chars_of("target dimensions exceed the address space");
        return Err(EngineError::Resize(crate::text::string_of(&m)));
    }
    let rgba = to_rgba8(img);
    match lanczos_resize(&rgba, img.width, img.height, new_width, new_height) {
        Ok(pixels) => Ok(Raster { width: new_width, height: new_height, has_alpha: true, pixels }),
        Err(m) => Err(EngineError::Resize(m)),
    }
}

/// `a * num / den` rounded, for `den > 0`.
pub fn round_ratio(a: u32, num: u32, den: u32) -> (r: u64)
    requires
        den > 0,
    ensures
        r == rounded_ratio(a as nat, num as nat, den as nat),
{
    proof {
        assert((a as int) * (num as int) <= 0xffff_ffff * 0xffff_ffff) by (nonlinear_arith)
            requires
                0 <= a <= 0xffff_ffff,
                0 <= num <= 0xffff_ffff,
        ;
    }
    let prod: u128 = (a as u128) * (num as u128);
    let top: u128 = 2 * prod + den as u128;
    let d: u128 = 2 * den as u128;
    let q = top / d;
    proof {
        let ti = top as int;
        let di = d as int;
        assert(ti == 2 * ((a as int) * (num as int)) + den as int);
        assert(ti / di <= ti / 2) by (nonlinear_arith)
            requires
                di >= 2,
                ti >= 0,
        ;
        assert(q as int == ti / di);
    }
    q as u64
}

proof fn lemma_div_le(x: int, y: int, d: int)
    requires
        0 <= x <= y,
        d > 0,
    ensures
        x / d <= y / d,
{
    vstd::arithmetic::div_mod::lemma_div_is_ordered(x, y, d);
}

proof fn lemma_rounded_bounds(a: nat, num: nat, den: nat)
    requires
        den > 0,
        a <= den,
    ensures
        rounded_ratio(a, num, den) <= num,
        num <= den ==> rounded_ratio(a, num, den) <= a,
{
    let t = 2 * (a * num) + den;
    assert(t <= 2 * (den * num) + den) by (nonlinear_arith)
        requires
            a <= den,
            t == 2 * (a * num) + den,
    ;
    lemma_div_le(t as int, (2 * (den * num) + den) as int, (2 * den) as int);
    assert((2 * (den * num) + den) / (2 * den) == num) by (nonlinear_arith)
        requires
            den > 0,
    ;
    if num <= den {
        assert(t <= 2 * (a * den) + den) by (nonlinear_arith)
            requires
                num <= den,
                t == 2 * (a * num) + den,
        ;
        lemma_div_le(t as int, (2 * (a * den) + den) as int, (2 * den) as int);
        assert((2 * (a * den) + den) / (2 * den) == a) by (nonlinear_arith)
            requires
                den > 0,
        ;
    }
}

/// The dimensions `downscale_to_long_edge` targets: each edge scaled by `max / long`, rounded,
/// and never below one pixel.
pub open spec fn long_edge_target(img: RasterView, max_long_edge: u32) -> (u32, u32) {
    let long = img.long_edge();
    let nw = rounded_ratio(img.width as nat, max_long_edge as nat, long as nat);
    let nh = rounded_ratio(img.height as nat, max_long_edge as nat, long as nat);
    ((if nw < 1 { 1 } else { nw }) as u32, (if nh < 1 { 1 } else { nh }) as u32)
}

/// `n` is `a` scaled by `num / den` to the nearest whole number (halves up), or 1 where that
/// nearest number is 0: `n - 1/2 <= a * num / den < n + 1/2`.
pub open spec fn nearest_scaled(n: nat, a: nat, num: nat, den: nat) -> bool {
    let t = 2 * (a * num) + den;
    ||| 2 * den * n <= t && t < 2 * den * (n + 1)
    ||| n == 1 && t < 2 * den
}

proof fn lemma_rounded_is_nearest(a: nat, num: nat, den: nat)
    requires
        den > 0,
    ensures
        nearest_scaled(
            if rounded_ratio(a, num, den) < 1 { 1 } else { rounded_ratio(a, num, den) },
            a,
            num,
            den,
        ),
{
    let t = 2 * (a * num) + den;
    let d = 2 * den;
    let q = t / d;
    vstd::arithmetic::div_mod::lemma_fundamental_div_mod(t as int, d as int);
    vstd::arithmetic::div_mod::lemma_mod_pos_bound(t as int, d as int);
    assert(d * (q + 1) == d * q + d) by (nonlinear_arith);
    assert(rounded_ratio(a, num, den) == q);
    if q < 1 {
        assert(q == 0);
        assert(d * q == 0) by (nonlinear_arith)
            requires
                q == 0,
        ;
    }
}

/// A `long` x `long`-scaled edge: scaling the long edge itself by `max / long` gives `max`.
proof fn lemma_nearest_long_edge(n: nat, num: nat, den: nat)
    requires
        den > 0,
        num > 0,
        nearest_scaled(n, den, num, den),
    ensures
        n == num,
{
    let t = 2 * (den * num) + den;
    if 2 * den * n <= t && t < 2 * den * (n + 1) {
        assert(n == num) by (nonlinear_arith)
            requires
                den > 0,
                t == 2 * (den * num) + den,
                2 * den * n <= t,
                t < 2 * den * (n + 1),
        ;
    } else {
        assert(false) by (nonlinear_arith)
            requires
                den > 0,
                num > 0,
                t == 2 * (den * num) + den,
                t < 2 * den,
        ;
    }
}

/// Bounding the long edge keeps the aspect ratio: each edge of the result is the source's edge
/// scaled by `max / long edge`, to the nearest pixel (at least one), so the long edge becomes
/// exactly `max` and no edge exceeds it.
pub proof fn downscaling_keeps_the_aspect_ratio(img: RasterView, max: u32)
    requires
        max > 0,
        img.long_edge() > max,
    ensures
        ({
            let (nw, nh) = long_edge_target(img, max);
            &&& nearest_scaled(nw as nat, img.width as nat, max as nat, img.long_edge() as nat)
            &&& nearest_scaled(nh as nat, img.height as nat, max as nat, img.long_edge() as nat)
            &&& img.width >= img.height ==> nw == max
            &&& img.height >= img.width ==> nh == max
            &&& nw <= max && nh <= max
        }),
{
    let long = img.long_edge() as nat;
    lemma_rounded_bounds(img.width as nat, max as nat, long);
    lemma_rounded_bounds(img.height as nat, max as nat, long);
    lemma_rounded_is_nearest(img.width as nat, max as nat, long);
    lemma_rounded_is_nearest(img.height as nat, max as nat, long);
    let (nw, nh) = long_edge_target(img, max);
    if img.width >= img.height {
        lemma_nearest_long_edge(nw as nat, max as nat, long);
    }
    if img.height >= img.width {
        lemma_nearest_long_edge(nh as nat, max as nat, long);
    }
}

/// Downscale so the longest edge is at most `max_long_edge`. Never upscales; `0` means no bound.
/// The scale factor is `max_long_edge / long_edge`, applied to both edges and rounded.
pub fn downscale_to_long_edge(img: &Raster, max_long_edge: u32) -> (r: Result<
    Raster,
    EngineError,
>)
    requires
        img.wf(),
    ensures
        max_long_edge == 0 || img@.long_edge() <= max_long_edge ==> (r matches Ok(out) && out@
            == img@),
        max_long_edge > 0 && img@.long_edge() > max_long_edge ==> ({
            let (nw, nh) = long_edge_target(img@, max_long_edge);
            &&& (img.width >= 1 ==> nw <= img.width)
            &&& (img.height >= 1 ==> nh <= img.height)
            &&& nw <= max_long_edge && nh <= max_long_edge
            &&& nearest_scaled(nw as nat, img.width as nat, max_long_edge as nat, img@.long_edge() as nat)
            &&& nearest_scaled(nh as nat, img.height as nat, max_long_edge as nat, img@.long_edge() as nat)
            &&& (r matches Ok(out) ==> out.width == nw && out.height == nh && out@.long_edge() == max_long_edge)
            &&& match r {
                Ok(out) => out.wf() && resized(img@, nw, nh) == Some(out@),
                Err(e) => resized(img@, nw, nh) is None && e is Resize,
            }
        }),
{
    let long = if img.width >= img.height {
        img.width
    } else {
        img.height
    };
    if max_long_edge == 0 || long <= max_long_edge {
        return Ok(img.duplicate());
    }
    let w = round_ratio(img.width, max_long_edge, long);
    let h = round_ratio(img.height, max_long_edge, long);
    proof {
        lemma_rounded_bounds(img.width as nat, max_long_edge as nat, long as nat);
        lemma_rounded_bounds(img.height as nat, max_long_edge as nat, long as nat);
        downscaling_keeps_the_aspect_ratio(img@, max_long_edge);
    }
    let nw: u32 = if w < 1 {
        1
    } else {
        w as u32
    };
    let nh: u32 = if h < 1 {
        1
    } else {
        h as u32
    };
    resize_exact(img, nw, nh)
}

} // verus!
