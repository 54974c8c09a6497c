//! A decoded image as plain values: dimensions, whether it carries an alpha channel, and its
//! 8-bit pixels in row-major order (RGB, or RGBA when `has_alpha`).
use vstd::prelude::*;

verus! {

#[derive(Debug)]
pub struct Raster {
    pub width: u32,
    pub height: u32,
    pub has_alpha: bool,
    pub pixels: Vec<u8>,
}

/// Bytes per pixel: 4 with alpha, 3 without.
pub open spec fn channels(has_alpha: bool) -> nat {
    if has_alpha {
        4
    } else {
        3
    }
}

/// The plain content of a [`Raster`].
pub struct RasterView {
    pub width: u32,
    pub height: u32,
    pub has_alpha: bool,
    pub pixels: Seq<u8>,
}

impl View for Raster {
    type V = RasterView;

    open spec fn view(&self) -> RasterView {
        RasterView {
            width: self.width,
            height: self.height,
            has_alpha: self.has_alpha,
            pixels: self.pixels@,
        }
    }
}

impl RasterView {
    /// The pixel buffer holds exactly `width * height` pixels.
    pub open spec fn wf(self) -> bool {
        self.pixels.len() == self.width * self.height * channels(self.has_alpha)
    }

    /// The image's pixels as RGB8, with any alpha composited over `bg`.
    pub open spec fn rgb_pixels(self, bg: [u8; 3]) -> Seq<u8> {
        if self.has_alpha {
            flattened(self.pixels, bg)
        } else {
            self.pixels
        }
    }

    /// The image's pixels as RGBA8 (fully opaque when the image has no alpha).
    pub open spec fn rgba_pixels(self) -> Seq<u8> {
        if self.has_alpha {
            self.pixels
        } else {
            with_opaque_alpha(self.pixels)
        }
    }

    /// The longer of the two edges.
    pub open spec fn long_edge(self) -> u32 {
        if self.width >= self.height {
            self.width
        } else {
            self.height
        }
    }
}

impl Raster {
    /// The pixel buffer holds exactly `width * height` pixels.
    pub open spec fn wf(&self) -> bool {
        self@.wf()
    }

    /// A copy of this image.
    pub fn duplicate(&self) -> (r: Raster)
        ensures
            r@ == self@,
    {
        Raster {
            width: self.width,
            height: self.height,
            has_alpha: self.has_alpha,
            pixels: self.pixels.clone(),
        }
    }
}

/// Channel `c` of a pixel with alpha `a` composited over background `bg`.
pub open spec fn blend(c: u8, bg: u8, a: u8) -> u8 {
    ((c * a + bg * (255 - a)) / 255) as u8
}

/// RGBA pixels composited over `bg` into RGB pixels.
pub open spec fn flattened(px: Seq<u8>, bg: [u8; 3]) -> Seq<u8> {
    Seq::new(
        ((px.len() / 4) * 3) as nat,
        |i: int| blend(px[(i / 3) * 4 + i % 3], bg[i % 3], px[(i / 3) * 4 + 3]),
    )
}

/// RGB pixels with an opaque alpha channel added.
pub open spec fn with_opaque_alpha(px: Seq<u8>) -> Seq<u8> {
    Seq::new(
        ((px.len() / 3) * 4) as nat,
        |i: int|
            if i % 4 == 3 {
                255u8
            } else {
                px[(i / 4) * 3 + i % 4]
            },
    )
}

proof fn lemma_split(p: int, c: int, k: int)
    requires
        0 <= p,
        0 <= c < k,
        k > 0,
    ensures
        (p * k + c) / k == p,
        (p * k + c) % k == c,
{
    vstd::arithmetic::div_mod::lemma_fundamental_div_mod_converse(p * k + c, k, p, c);
}

fn blend_channel(c: u8, bg: u8, a: u8) -> (r: u8)
    ensures
        r == blend(c, bg, a),
{
    assert(c as u32 * a as u32 <= 255 * 255) by (nonlinear_arith)
        requires
            c <= 255,
            a <= 255,
    ;
    assert(bg as u32 * (255 - a as u32) <= 255 * 255) by (nonlinear_arith)
        requires
            bg <= 255,
            a <= 255,
    ;
    ((c as u32 * a as u32 + bg as u32 * (255 - a as u32)) / 255) as u8
}

/// Drop alpha by compositing over a solid `background`. JPEG has no alpha channel, so a
/// transparent source must be flattened or the transparent areas would render as black.
pub fn flatten_to_rgb(img: &Raster, background: [u8; 3]) -> (r: Vec<u8>)
    requires
        img.wf(),
    ensures
        r@ == img@.rgb_pixels(background),
        r@.len() == img.width * img.height * 3,
{
    if !img.has_alpha {
        return img.pixels.clone();
    }
    let n = img.pixels.len() / 4;
    proof {
        vstd::arithmetic::div_mod::lemma_fundamental_div_mod(img.pixels@.len() as int, 4);
        vstd::arithmetic::div_mod::lemma_div_multiples_vanish(
            (img.width * img.height) as int,
            4,
        );
        assert(img.pixels@.len() == (img.width * img.height) * 4) by (nonlinear_arith)
            requires
                img.pixels@.len() == img.width * img.height * 4,
        ;
    }
    let mut out: Vec<u8> = Vec::new();
    let mut p: usize = 0;
    while p < n
        invariant
            n == img.pixels@.len() / 4,
            4 * n <= img.pixels@.len(),
            img.pixels@.len() <= usize::MAX,
            p <= n,
            out@.len() == 3 * p,
            forall|i: int|
                0 <= i < 3 * p ==> out@[i] == #[trigger] flattened(img.pixels@, background)[i],
        decreases n - p,
    {
        let base = 4 * p;
        let a = img.pixels[base + 3];
        let ghost prev = out@;
        out.push(blend_channel(img.pixels[base], background[0], a));
        out.push(blend_channel(img.pixels[base + 1], background[1], a));
        out.push(blend_channel(img.pixels[base + 2], background[2], a));
        proof {
            assert forall|i: int|
                0 <= i < 3 * (p + 1) implies out@[i] == #[trigger] flattened(
                img.pixels@,
                background,
            )[i] by {
                if i >= 3 * p {
                    let c = i - 3 * p;
                    lemma_split(p as int, c, 3);
                    assert(i == p * 3 + c);
                }
            }
        }
        p = p + 1;
    }
    assert(out@ =~= flattened(img.pixels@, background));
    proof {
        assert(3 * n == img.width * img.height * 3) by (nonlinear_arith)
            requires
                n == img.pixels@.len() / 4,
                img.pixels@.len() == (img.width * img.height) * 4,
        ;
    }
    out
}

/// The image's pixels as RGBA8 (an opaque alpha channel is added to an RGB image).
pub fn to_rgba8(img: &Raster) -> (r: Vec<u8>)
    requires
        img.wf(),
    ensures
        r@ == img@.rgba_pixels(),
        r@.len() == img.width * img.height * 4,
{
    if img.has_alpha {
        return img.pixels.clone();
    }
    let n = img.pixels.len() / 3;
    proof {
        vstd::arithmetic::div_mod::lemma_fundamental_div_mod(img.pixels@.len() as int, 3);
        assert(n == img.width * img.height) by (nonlinear_arith)
            requires
                n == img.pixels@.len() / 3,
                img.pixels@.len() == img.width * img.height * 3,
        ;
    }
    let mut out: Vec<u8> = Vec::new();
    let mut p: usize = 0;
    while p < n
        invariant
            n == img.pixels@.len() / 3,
            3 * n <= img.pixels@.len(),
            img.pixels@.len() <= usize::MAX,
            p <= n,
            out@.len() == 4 * p,
            forall|i: int|
                0 <= i < 4 * p ==> out@[i] == #[trigger] with_opaque_alpha(img.pixels@)[i],
        decreases n - p,
    {
        let base = 3 * p;
        out.push(img.pixels[base]);
        out.push(img.pixels[base + 1]);
        out.push(img.pixels[base + 2]);
        out.push(255u8);
        proof {
            assert forall|i: int|
                0 <= i < 4 * (p + 1) implies out@[i] == #[trigger] with_opaque_alpha(
                img.pixels@,
            )[i] by {
                if i >= 4 * p {
                    let c = i - 4 * p;
                    lemma_split(p as int, c, 4);
                    assert(i == p * 4 + c);
                }
            }
        }
        p = p + 1;
    }
    assert(out@ =~= with_opaque_alpha(img.pixels@));
    out
}

} // verus!
