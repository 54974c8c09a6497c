//! Decoding an image from an in-memory byte buffer.
use vstd::prelude::*;
use crate::codec::{decoded_image, image_decode};
use crate::error::EngineError;
use crate::raster::Raster;

verus! {

/// Decode an image from an in-memory byte buffer, guessing the format from its content
/// (not the file extension). A corrupt or unsupported buffer returns a typed error rather
/// than panicking.
pub fn decode(bytes: &[u8]) -> (r: Result<Raster, EngineError>)
    ensures
        match r {
            Ok(img) => img.wf() && decoded_image(bytes@) == Some(
                (img.width, img.height, img.has_alpha, img.pixels@),
            ),
            Err(e) => decoded_image(bytes@) is None && e is Decode,
        },
{
    match image_decode(bytes) {
        Ok(img) => Ok(img),
        Err(m) => Err(EngineError::Decode(m)),
    }
}

} // verus!
