use engine::encode::{encode, EncodeFormat};
use engine::Raster;

fn detailed(w: u32, h: u32) -> Raster {
    let mut pixels = Vec::with_capacity((w * h * 3) as usize);
    for y in 0..h {
        for x in 0..w {
            pixels.push(((x ^ y) & 0xff) as u8);
            pixels.push((y & 0xff) as u8);
            pixels.push((x & 0xff) as u8);
        }
    }
    Raster {
        width: w,
        height: h,
        has_alpha: false,
        pixels,
    }
}

#[test]
fn avif_encodes_and_quality_affects_size() {
    let img = detailed(128, 128);
    let lo = encode(&img, EncodeFormat::Avif, Some(15)).unwrap();
    let hi = encode(&img, EncodeFormat::Avif, Some(90)).unwrap();
    assert!(
        !lo.is_empty() && !hi.is_empty(),
        "AVIF output should be produced"
    );
    assert!(
        hi.len() > lo.len(),
        "higher quality should be larger: {} vs {}",
        hi.len(),
        lo.len()
    );
    // An AVIF file is an ISO-BMFF container: bytes 4..8 are the 'ftyp' box type.
    assert_eq!(&hi[4..8], b"ftyp");
}
