//! Crop-to-fill ("cover") cropping: produce an image at EXACT target dimensions with no borders.
//! The crop is computed in source space (one integer rectangle), then a single Lanczos resample
//! lands the result on the requested size. The geometry lives in [`cover_crop_rect`] so the
//! offsets are checkable without touching pixels.
use vstd::prelude::*;
use crate::codec::{crop_image, cropped_pixels};
use crate::error::EngineError;
use crate::model::Anchor;
use crate::raster::{Raster, RasterView};
use crate::resize::{resize_exact, resized, round_ratio, rounded_ratio};
use crate::text::chars_of;

verus! {

/// A crop rectangle in source pixels.
#[derive(Debug, Clone, Copy, PartialEq, Eq, Structural)]
pub struct CropRect {
    /// Left edge of the crop.
    pub x: u32,
    /// Top edge of the crop.
    pub y: u32,
    /// Crop width.
    pub w: u32,
    /// Crop height.
    pub h: u32,
}

/// `v` clamped into `1..=hi`.
pub open spec fn clamp_edge(v: nat, hi: nat) -> nat {
    if v < 1 {
        1
    } else if v > hi {
        hi
    } else {
        v
    }
}

/// Offset of a `len`-long crop along an `full`-long axis, per the anchor.
pub open spec fn anchored_offset(full: nat, len: nat, anchor: Anchor) -> nat {
    match anchor {
        Anchor::Start => 0,
        Anchor::Center => ((full - len) / 2) as nat,
        Anchor::End => (full - len) as nat,
    }
}

/// Largest region of a `sw x sh` source that shares the aspect ratio of `tw x th` (the kept
/// edge scaled by the target ratio and rounded to the nearest pixel), positioned on the cropped
/// axis by `anchor`; the other axis is never cropped, so its offset is 0. A zero dimension
/// anywhere gives the whole source.
pub open spec fn cover_rect(sw: u32, sh: u32, tw: u32, th: u32, anchor: Anchor) -> CropRect {
    if sw == 0 || sh == 0 || tw == 0 || th == 0 {
        CropRect { x: 0, y: 0, w: sw, h: sh }
    } else {
        let wider = sw * th > tw * sh;
        let cw: nat = if wider {
            clamp_edge(rounded_ratio(sh as nat, tw as nat, th as nat), sw as nat)
        } else {
            sw as nat
        };
        let ch: nat = if wider {
            sh as nat
        } else {
            clamp_edge(rounded_ratio(sw as nat, th as nat, tw as nat), sh as nat)
        };
        CropRect {
            x: anchored_offset(sw as nat, cw, anchor) as u32,
            y: anchored_offset(sh as nat, ch, anchor) as u32,
            w: cw as u32,
            h: ch as u32,
        }
    }
}

pub(crate) proof fn lemma_u32_product_fits(a: u32, b: u32)
    ensures
        (a as int) * (b as int) <= u64::MAX,
{
    assert((a as int) * (b as int) <= 0xffff_ffff * 0xffff_ffff) by (nonlinear_arith)
        requires
            0 <= a <= 0xffff_ffff,
            0 <= b <= 0xffff_ffff,
    ;
}

fn clamp_to_edge(v: u64, hi: u32) -> (r: u32)
    requires
        hi >= 1,
    ensures
        r == clamp_edge(v as nat, hi as nat),
{
    if v < 1 {
        1
    } else if v > hi as u64 {
        hi
    } else {
        v as u32
    }
}

fn offset_for(full: u32, len: u32, anchor: Anchor) -> (r: u32)
    requires
        len <= full,
    ensures
        r == anchored_offset(full as nat, len as nat, anchor),
        r + len <= full,
{
    match anchor {
        Anchor::Start => 0,
        Anchor::Center => (full - len) / 2,
        Anchor::End => full - len,
    }
}

/// Largest region of a `sw x sh` source that shares the aspect ratio of `tw x th`, positioned on
/// the cropped axis by `anchor` (the other axis is never cropped, so its offset is 0). The centre
/// offset uses integer division (floor), matching the worked example `2560x1200 -> 1920x1080`
/// which trims 213 px from the left.
pub fn cover_crop_rect(sw: u32, sh: u32, tw: u32, th: u32, anchor: Anchor) -> (r: CropRect)
    ensures
        r == cover_rect(sw, sh, tw, th, anchor),
        r.x + r.w <= sw,
        r.y + r.h <= sh,
        sw > 0 && sh > 0 && tw > 0 && th > 0 ==> r.w >= 1 && r.h >= 1 && (r.w == sw || r.h == sh),
{
    if sw == 0 || sh == 0 || tw == 0 || th == 0 {
        return CropRect { x: 0, y: 0, w: sw, h: sh };
    }
    proof {
        lemma_u32_product_fits(sw, th);
        lemma_u32_product_fits(tw, sh);
    }
    let wider = (sw as u64) * (th as u64) > (tw as u64) * (sh as u64);
    let (crop_w, crop_h) = if wider {
        (clamp_to_edge(round_ratio(sh, tw, th), sw), sh)
    } else {
        (sw, clamp_to_edge(round_ratio(sw, th, tw), sh))
    };
    CropRect {
        x: offset_for(sw, crop_w, anchor),
        y: offset_for(sh, crop_h, anchor),
        w: crop_w,
        h: crop_h,
    }
}

/// The size `cover_crop_resize` resamples the crop to: the target, or without upscaling, the
/// target capped on each axis to the crop region.
pub open spec fn cover_output_size(rect: CropRect, tw: u32, th: u32, allow_upscale: bool) -> (
    u32,
    u32,
) {
    if allow_upscale {
        (tw, th)
    } else {
        (
            if tw <= rect.w {
                tw
            } else {
                rect.w
            },
            if th <= rect.h {
                th
            } else {
                rect.h
            },
        )
    }
}

/// The output of a crop-to-fill never exceeds the target and always reaches it when it can: with
/// upscaling it is the target exactly; without, each edge is the target's edge when the crop is at
/// least that large (so a downscale stays exact) and the crop's own edge otherwise, never more than
/// the crop.
pub proof fn cover_output_reaches_the_target(rect: CropRect, tw: u32, th: u32, allow_upscale: bool)
    ensures
        ({
            let (ow, oh) = cover_output_size(rect, tw, th, allow_upscale);
            &&& ow <= tw && oh <= th
            &&& allow_upscale ==> ow == tw && oh == th
            &&& tw <= rect.w ==> ow == tw
            &&& th <= rect.h ==> oh == th
            &&& !allow_upscale ==> ow <= rect.w && oh <= rect.h
        }),
{
}

/// What cropping `img` to `rect` gives (the rectangle lies inside the image).
pub open spec fn cropped(img: RasterView, rect: CropRect) -> RasterView {
    RasterView {
        width: rect.w,
        height: rect.h,
        has_alpha: img.has_alpha,
        pixels: cropped_pixels(
            img.pixels,
            img.width,
            img.height,
            img.has_alpha,
            rect.x,
            rect.y,
            rect.w,
            rect.h,
        ),
    }
}

/// Crop `img` to the aspect ratio of `tw x th` (anchored by `anchor`) and resample to exact pixels.
/// With `allow_upscale`, the output is exactly `tw x th`. Without it, the crop region is never
/// enlarged: the result is clamped to the largest same-aspect size the source supports (so a target
/// bigger than the source yields the crop region's own dimensions rather than an upscaled image).
pub fn cover_crop_resize(
    img: &Raster,
    tw: u32,
    th: u32,
    anchor: Anchor,
    allow_upscale: bool,
) -> (r: Result<Raster, EngineError>)
    requires
        img.wf(),
    ensures
        tw == 0 || th == 0 ==> (r matches Err(e) && e is Resize),
        tw > 0 && th > 0 ==> ({
            let rect = cover_rect(img.width, img.height, tw, th, anchor);
            let (ow, oh) = cover_output_size(rect, tw, th, allow_upscale);
            match r {
                Ok(out) => out.wf() && out.width == ow && out.height == oh && out.width <= tw
                    && out.height <= th && (allow_upscale || tw <= rect.w ==> out.width == tw) && (
                allow_upscale || th <= rect.h ==> out.height == th) && resized(
                    cropped(img@, rect),
                    ow,
                    oh,
                ) == Some(out@),
                Err(e) => resized(cropped(img@, rect), ow, oh) is None && e is Resize,
            }
        }),
{
    if tw == 0 || th == 0 {
        let msg = chars_of("exact target must be non-zero");
        return Err(EngineError::Resize(crate::text::string_of(&msg)));
    }
    let rect = cover_crop_rect(img.width, img.height, tw, th, anchor);
    let piece = crop_image(img, rect.x, rect.y, rect.w, rect.h);
    assert(piece@ == cropped(img@, rect));
    let (out_w, out_h) = if allow_upscale {
        (tw, th)
    } else {
        (
            if tw <= rect.w {
                tw
            } else {
                rect.w
            },
            if th <= rect.h {
                th
            } else {
                rect.h
            },
        )
    };
    resize_exact(&piece, out_w, out_h)
}

} // verus!
