//! The pixel work only the imaging crates can do: decoding, encoding to JPEG / PNG / AVIF,
//! lossless PNG optimization, Lanczos resampling, cropping, EXIF orientation and ICC-to-sRGB
//! conversion. Each call sits behind a small trusted function; what each returns is named by a
//! spec function of its arguments, so the verified code above can state what it hands in and
//! what it does with the reply.
use vstd::prelude::*;
use crate::metadata::{encoder_jpeg, exif_orientation_of};
use crate::raster::{channels, Raster};
use image::ImageEncoder;
use rgb::FromSlice;

verus! {

/// What the `image` crate decodes `bytes` to (format guessed from the content): width, height,
/// whether it has alpha, and the 8-bit pixels (RGBA with alpha, RGB without). `None` when the
/// bytes are not a decodable image.
pub uninterp spec fn decoded_image(bytes: Seq<u8>) -> Option<(u32, u32, bool, Seq<u8>)>;

/// The JPEG stream `image`'s `JpegEncoder` writes for RGB8 pixels at `quality`.
pub uninterp spec fn jpeg_encoding(rgb: Seq<u8>, width: u32, height: u32, quality: u8) -> Option<
    Seq<u8>,
>;

/// The PNG stream `image`'s `PngEncoder` (best compression, adaptive filter) writes for 8-bit
/// RGB or RGBA pixels.
pub uninterp spec fn png_encoding(pixels: Seq<u8>, width: u32, height: u32, has_alpha: bool) -> Option<
    Seq<u8>,
>;

/// What `oxipng::optimize_from_memory` makes of a PNG stream with the given preset.
pub uninterp spec fn oxipng_optimized(png: Seq<u8>, preset: u8) -> Option<Seq<u8>>;

/// The AVIF file `ravif` encodes from RGBA8 pixels at `quality` and `speed` with `threads` encoder
/// threads (the thread count sets the tiling, so it is part of what decides the file).
pub uninterp spec fn avif_encoding(
    rgba: Seq<u8>,
    width: u32,
    height: u32,
    quality: u8,
    speed: u8,
    threads: usize,
) -> Option<Seq<u8>>;

/// The RGBA8 pixels `fast_image_resize` (Lanczos3 convolution) produces at the new size.
pub uninterp spec fn resized_rgba(
    rgba: Seq<u8>,
    width: u32,
    height: u32,
    new_width: u32,
    new_height: u32,
) -> Option<Seq<u8>>;

/// Channel `k` of pixel (`x`, `y`) in a row-major buffer `width` pixels wide with `c` channels.
pub open spec fn sample(pixels: Seq<u8>, width: int, c: int, x: int, y: int, k: int) -> u8 {
    pixels[(y * width + x) * c + k]
}

/// The pixels of the cut-out `image`'s `crop_imm` returns: the rectangle clamped to the image
/// (`x`, `y` to the edges, then `w`, `h` to what is left), copied row by row.
pub open spec fn cropped_pixels(
    pixels: Seq<u8>,
    width: u32,
    height: u32,
    has_alpha: bool,
    x: u32,
    y: u32,
    w: u32,
    h: u32,
) -> Seq<u8> {
    let c = channels(has_alpha) as int;
    let cx = vstd::math::min(x as int, width as int);
    let cy = vstd::math::min(y as int, height as int);
    let cw = vstd::math::min(w as int, width - cx);
    let ch = vstd::math::min(h as int, height - cy);
    Seq::new(
        (cw * ch * c) as nat,
        |i: int| sample(pixels, width as int, c, cx + (i / c) % cw, cy + (i / c) / cw, i % c),
    )
}

/// Where pixel (`ox`, `oy`) of an image turned per EXIF orientation `o` comes from in the
/// `width` x `height` source: 2 mirrors left to right, 3 turns half way, 4 mirrors top to bottom,
/// 6 turns a quarter clockwise, 8 a quarter counter-clockwise, and 5 and 7 turn a quarter
/// (clockwise, counter-clockwise) and then mirror left to right.
pub open spec fn oriented_source(o: u8, width: int, height: int, ox: int, oy: int) -> (int, int) {
    if o == 2 {
        (width - 1 - ox, oy)
    } else if o == 3 {
        (width - 1 - ox, height - 1 - oy)
    } else if o == 4 {
        (ox, height - 1 - oy)
    } else if o == 5 {
        (oy, ox)
    } else if o == 6 {
        (oy, height - 1 - ox)
    } else if o == 7 {
        (width - 1 - oy, height - 1 - ox)
    } else if o == 8 {
        (width - 1 - oy, ox)
    } else {
        (ox, oy)
    }
}

/// The pixels after `image`'s `apply_orientation` with the given EXIF orientation: each pixel of
/// the turned image (as wide as the source is high for 5 to 8) taken from [`oriented_source`].
pub open spec fn oriented_pixels(
    pixels: Seq<u8>,
    width: u32,
    height: u32,
    has_alpha: bool,
    orientation: u8,
) -> Seq<u8> {
    let c = channels(has_alpha) as int;
    let out_width = if orientation >= 5 { height as int } else { width as int };
    Seq::new(
        pixels.len(),
        |i: int|
            {
                let p = i / c;
                let src = oriented_source(orientation, width as int, height as int, p % out_width, p / out_width);
                sample(pixels, width as int, c, src.0, src.1, i % c)
            },
    )
}

/// `image::ImageReader` with a guessed format, then `decode`. Claims: on success the raster is
/// well formed and is what [`decoded_image`] names; on failure the name is `None`.
#[verifier::external_body]
pub(crate) fn image_decode(bytes: &[u8]) -> (r: Result<Raster, String>)
    ensures
        match r {
            Ok(img) => img.wf() && decoded_image(bytes@) == Some(
                (img.width, img.height, img.has_alpha, img.pixels@),
            ),
            Err(_) => decoded_image(bytes@) is None,
        },
{
    let reader = image::ImageReader::new(std::io::Cursor::new(bytes))
        .with_guessed_format()
        .map_err(|e| e.to_string())?;
    let img = reader.decode().map_err(|e| e.to_string())?;
    let has_alpha = img.color().has_alpha();
    let pixels = if has_alpha { img.to_rgba8().into_raw() } else { img.to_rgb8().into_raw() };
    Ok(Raster { width: img.width(), height: img.height(), has_alpha, pixels })
}

/// `image`'s `JpegEncoder::new_with_quality(..).encode(.., Rgb8)`. It panics on a buffer of the
/// wrong length, which `requires` rules out. Claims the result is [`jpeg_encoding`]; that it
/// parses as a JPEG of only APP0, SOF0, DQT, DHT and SOS segments (with no EXIF or ICC data set,
/// the encoder writes the start marker, then those segments, each with its length, then the
/// entropy-coded data and the end marker); and that `kamadak-exif` finds no EXIF in it (it walks
/// the same segments, finds no APP1, and in the data every `0xFF` is followed by a stuffed zero,
/// until the end marker ends the search).
#[verifier::external_body]
pub(crate) fn jpeg_encode(rgb: &[u8], width: u32, height: u32, quality: u8) -> (r: Result<
    Vec<u8>,
    String,
>)
    requires
        rgb@.len() == width * height * 3,
    ensures
        match r {
            Ok(v) => jpeg_encoding(rgb@, width, height, quality) == Some(v@),
            Err(_) => jpeg_encoding(rgb@, width, height, quality) is None,
        },
        r matches Ok(v) ==> encoder_jpeg(v@) && exif_orientation_of(v@) is None,
{
    let mut buf = Vec::new();
    image::codecs::jpeg::JpegEncoder::new_with_quality(&mut buf, quality)
        .encode(rgb, width, height, image::ExtendedColorType::Rgb8)
        .map_err(|e| e.to_string())?;
    Ok(buf)
}

/// `image`'s `PngEncoder::new_with_quality(.., Best, Adaptive).write_image(..)` with RGBA8 or
/// RGB8 pixels. It panics on a buffer of the wrong length, which `requires` rules out. Claims
/// the result is [`png_encoding`].
#[verifier::external_body]
pub(crate) fn png_encode(pixels: &[u8], width: u32, height: u32, has_alpha: bool) -> (r: Result<
    Vec<u8>,
    String,
>)
    requires
        pixels@.len() == width * height * channels(has_alpha),
    ensures
        match r {
            Ok(v) => png_encoding(pixels@, width, height, has_alpha) == Some(v@),
            Err(_) => png_encoding(pixels@, width, height, has_alpha) is None,
        },
{
    let mut buf = Vec::new();
    let color = if has_alpha { image::ExtendedColorType::Rgba8 } else { image::ExtendedColorType::Rgb8 };
    image::codecs::png::PngEncoder::new_with_quality(&mut buf, image::codecs::png::CompressionType::Best, image::codecs::png::FilterType::Adaptive)
        .write_image(pixels, width, height, color)
        .map_err(|e| e.to_string())?;
    Ok(buf)
}

/// `oxipng::optimize_from_memory` with `Options::from_preset(preset)`. Claims the result is
/// [`oxipng_optimized`] (`None` when oxipng reports an error).
#[verifier::external_body]
pub(crate) fn oxipng_optimize(png: &[u8], preset: u8) -> (r: Option<Vec<u8>>)
    ensures
        match r {
            Some(v) => oxipng_optimized(png@, preset) == Some(v@),
            None => oxipng_optimized(png@, preset) is None,
        },
{
    oxipng::optimize_from_memory(png, &oxipng::Options::from_preset(preset)).ok()
}

/// `ravif::Encoder::new().with_quality(q).with_speed(s).with_num_threads(Some(t)).encode_rgba(..)`,
/// keeping `avif_file`. With the thread count given, the tiling no longer follows the machine's
/// core count. `with_quality`, `with_speed` and `with_num_threads` panic outside 1..=100, 1..=10
/// and on zero threads, and the pixel view panics on a zero width; `requires` rules these out.
/// Claims the result is [`avif_encoding`].
#[verifier::external_body]
pub(crate) fn avif_encode(
    rgba: &[u8],
    width: u32,
    height: u32,
    quality: u8,
    speed: u8,
    threads: usize,
) -> (r: Result<Vec<u8>, String>)
    requires
        rgba@.len() == width * height * 4,
        width >= 1,
        1 <= quality <= 100,
        1 <= speed <= 10,
        threads >= 1,
    ensures
        match r {
            Ok(v) => avif_encoding(rgba@, width, height, quality, speed, threads) == Some(v@),
            Err(_) => avif_encoding(rgba@, width, height, quality, speed, threads) is None,
        },
{
    let img = ravif::Img::new(rgba.as_rgba(), width as usize, height as usize);
    ravif::Encoder::new()
        .with_quality(quality.into())
        .with_speed(speed)
        .with_num_threads(Some(threads))
        .encode_rgba(img)
        .map(|e| e.avif_file)
        .map_err(|e| e.to_string())
}

/// Lanczos3 resample of RGBA8 pixels with `fast_image_resize`. Claims the result is
/// [`resized_rgba`] and holds `new_width * new_height` pixels (the destination buffer it fills).
/// The destination's byte count is computed in `usize`, so it must not overflow.
#[verifier::external_body]
pub(crate) fn lanczos_resize(
    rgba: &[u8],
    width: u32,
    height: u32,
    new_width: u32,
    new_height: u32,
) -> (r: Result<Vec<u8>, String>)
    requires
        rgba@.len() == width * height * 4,
        new_width * new_height * 4 <= usize::MAX,
    ensures
        match r {
            Ok(v) => resized_rgba(rgba@, width, height, new_width, new_height) == Some(v@) && v@.len()
                == new_width * new_height * 4,
            Err(_) => resized_rgba(rgba@, width, height, new_width, new_height) is None,
        },
{
    let src = fast_image_resize::images::Image::from_vec_u8(width, height, rgba.to_vec(), fast_image_resize::PixelType::U8x4)
        .map_err(|e| e.to_string())?;
    let mut dst = fast_image_resize::images::Image::new(new_width, new_height, fast_image_resize::PixelType::U8x4);
    let options = fast_image_resize::ResizeOptions::new().resize_alg(fast_image_resize::ResizeAlg::Convolution(fast_image_resize::FilterType::Lanczos3));
    fast_image_resize::Resizer::new().resize(&src, &mut dst, &options).map_err(|e| e.to_string())?;
    Ok(dst.into_vec())
}

/// `image`'s `DynamicImage::crop_imm`. Claims, as its source shows, that the rectangle is first
/// clamped to the image (`x`, `y` to the edges, then `w`, `h` to what is left), that the pixel
/// layout is kept, and that the pixels are the clamped rectangle's, [`cropped_pixels`].
#[verifier::external_body]
pub(crate) fn crop_image(img: &Raster, x: u32, y: u32, w: u32, h: u32) -> (r: Raster)
    requires
        img.wf(),
    ensures
        r.wf(),
        r.has_alpha == img.has_alpha,
        r.width == vstd::math::min(
            w as int,
            img.width - vstd::math::min(x as int, img.width as int),
        ),
        r.height == vstd::math::min(
            h as int,
            img.height - vstd::math::min(y as int, img.height as int),
        ),
        r.pixels@ == cropped_pixels(img.pixels@, img.width, img.height, img.has_alpha, x, y, w, h),
{
    let src = if img.has_alpha {
        image::DynamicImage::ImageRgba8(image::RgbaImage::from_raw(img.width, img.height, img.pixels.clone()).unwrap())
    } else {
        image::DynamicImage::ImageRgb8(image::RgbImage::from_raw(img.width, img.height, img.pixels.clone()).unwrap())
    };
    let out = src.crop_imm(x, y, w, h);
    let pixels = if img.has_alpha { out.to_rgba8().into_raw() } else { out.to_rgb8().into_raw() };
    Raster { width: out.width(), height: out.height(), has_alpha: img.has_alpha, pixels }
}

/// `image`'s `Orientation::from_exif(o)` applied with `DynamicImage::apply_orientation`. Claims,
/// as its source shows: orientation 1 changes nothing, 5 to 8 (the quarter turns) swap width and
/// height, 2 to 4 keep them; the pixel layout is kept and the pixels are moved as
/// [`oriented_pixels`] states (the quarter turns write pixel (x, y) of an `h`-row source to
/// (h - 1 - y, x) or (y, w - 1 - x); the flips swap mirrored pixels).
#[verifier::external_body]
pub(crate) fn apply_exif_orientation(img: Raster, orientation: u8) -> (r: Raster)
    requires
        img.wf(),
        1 <= orientation <= 8,
    ensures
        r.wf(),
        r.has_alpha == img.has_alpha,
        orientation >= 5 ==> r.width == img.height && r.height == img.width,
        orientation < 5 ==> r.width == img.width && r.height == img.height,
        orientation == 1 ==> r.pixels@ == img.pixels@,
        r.pixels@ == oriented_pixels(img.pixels@, img.width, img.height, img.has_alpha, orientation),
{
    let mut dynamic = if img.has_alpha {
        image::DynamicImage::ImageRgba8(image::RgbaImage::from_raw(img.width, img.height, img.pixels).unwrap())
    } else {
        image::DynamicImage::ImageRgb8(image::RgbImage::from_raw(img.width, img.height, img.pixels).unwrap())
    };
    if let Some(o) = image::metadata::Orientation::from_exif(orientation) {
        dynamic.apply_orientation(o);
    }
    let pixels = if img.has_alpha { dynamic.to_rgba8().into_raw() } else { dynamic.to_rgb8().into_raw() };
    Raster { width: dynamic.width(), height: dynamic.height(), has_alpha: img.has_alpha, pixels }
}

/// An 8-bit `moxcms` transform from the `icc` profile to sRGB (RGB or RGBA layout), into a buffer
/// of the same length (`None` when the profile does not parse, no transform can be built, or the
/// transform fails). Claims only that a converted buffer has the input's length: moxcms picks a
/// SIMD or scalar transform for the running CPU, and nothing in it says those round alike, so the
/// converted values themselves are left unsaid.
#[verifier::external_body]
pub(crate) fn icc_to_srgb(pixels: &[u8], has_alpha: bool, icc: &[u8]) -> (r: Option<Vec<u8>>)
    ensures
        r matches Some(v) ==> v@.len() == pixels@.len(),
{
    let source = moxcms::ColorProfile::new_from_slice(icc).ok()?;
    let layout = if has_alpha { moxcms::Layout::Rgba } else { moxcms::Layout::Rgb };
    let transform = source
        .create_transform_8bit(layout, &moxcms::ColorProfile::new_srgb(), layout, moxcms::TransformOptions::default())
        .ok()?;
    let mut dst = vec![0u8; pixels.len()];
    transform.transform(pixels, &mut dst).ok()?;
    Some(dst)
}

} // verus!
