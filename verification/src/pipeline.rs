//! The byte-to-byte image commands: decode the attached bytes, apply one of
//! the verified transforms, and re-encode the result as PNG. Each contract
//! pins the output bytes down as the PNG encoding of the transformed pixels
//! of the decoded input.

use vstd::prelude::*;
use crate::bitmap::{Bitmap, rotate90, invert, rotated_pixels, inverted_pixels, blended_pixels};
use crate::codec::{
    decoded_of, png_of, resize_nearest, load_bitmap, vec_image, overlay_with_asset, is_black,
    fits_decode_limit,
};
use crate::error::{ErrorKind, ZimiriError};

verus! {

/// Rotates the attached image 90 degrees clockwise and re-encodes it as PNG.
/// Fails with a `Decode` error exactly when the bytes are not a readable
/// image; on a decodable image of nonzero dimensions success is owed, and
/// only an empty decoded raster gives an `Encoding` error.
pub fn rotate_image(vec: &Vec<u8>) -> (r: Result<Vec<u8>, ZimiriError>)
    ensures
        match decoded_of(vec@) {
            Some(d) => ({
                &&& match r {
                    Ok(out) => out@ == png_of(
                        d.1, d.0, rotated_pixels(d.0 as int, d.1 as int, d.2))
                        && (fits_decode_limit(d.1, d.0) ==> decoded_of(out@)
                            == Some((d.1, d.0, rotated_pixels(d.0 as int, d.1 as int, d.2)))),
                    Err(e) => e.kind == ErrorKind::Encoding,
                }
                &&& d.0 > 0 && d.1 > 0 ==> r is Ok
            }),
            None => r matches Err(e) && e.kind == ErrorKind::Decode,
        },
{
    let img = match load_bitmap(vec) {
        Ok(bm) => bm,
        Err(e) => {
            return Err(e);
        },
    };
    let rotated = rotate90(&img);
    vec_image(&rotated)
}

/// Replaces every pixel's red, green and blue channels by `255 - channel`
/// (alpha untouched) and re-encodes the result as PNG. Fails with a `Decode`
/// error exactly when the bytes are not a readable image; on a decodable
/// image of nonzero dimensions success is owed.
pub fn invert_image(vec: &Vec<u8>) -> (r: Result<Vec<u8>, ZimiriError>)
    ensures
        match decoded_of(vec@) {
            Some(d) => ({
                &&& match r {
                    Ok(out) => out@ == png_of(d.0, d.1, inverted_pixels(d.2))
                        && (fits_decode_limit(d.0, d.1) ==> decoded_of(out@)
                            == Some((d.0, d.1, inverted_pixels(d.2)))),
                    Err(e) => e.kind == ErrorKind::Encoding,
                }
                &&& d.0 > 0 && d.1 > 0 ==> r is Ok
            }),
            None => r matches Err(e) && e.kind == ErrorKind::Decode,
        },
{
    let img = match load_bitmap(vec) {
        Ok(bm) => bm,
        Err(e) => {
            return Err(e);
        },
    };
    let inverted = invert(&img);
    vec_image(&inverted)
}

/// Blends the overlay asset onto the attached image: the asset is resized to
/// the input's dimensions with nearest-neighbour sampling, each colour
/// channel becomes the floor average of the two, the input's alpha survives
/// at every coordinate whatever the asset holds, and the result is re-encoded
/// as PNG; for an input within the decoder's allocation limit, decoding the
/// result yields exactly the blended raster, and an all-black asset halves
/// (flooring) every colour channel of the input. When
/// the asset bytes cannot be decoded (or describe an empty raster) the input
/// bytes are returned unchanged: a documented degraded-mode fallback, not an
/// error. Fails with a `Decode` error exactly when the input bytes are not a
/// readable image; on a decodable input of nonzero dimensions success is
/// owed.
pub fn overlay_bi_flag(vec: &Vec<u8>, asset_bytes: &Vec<u8>) -> (r: Result<Vec<u8>, ZimiriError>)
    ensures
        match decoded_of(vec@) {
            Some(d) => match decoded_of(asset_bytes@) {
                Some(a) => if a.0 == 0 || a.1 == 0 {
                    r matches Ok(out) && out@ == vec@
                } else {
                    ({
                        let blended = blended_pixels(
                            d.2, resize_nearest(a.0, a.1, a.2, d.0, d.1));
                        &&& match r {
                            Ok(out) => out@ == png_of(d.0, d.1, blended)
                                && (fits_decode_limit(d.0, d.1)
                                    ==> decoded_of(out@) == Some((d.0, d.1, blended))),
                            Err(e) => e.kind == ErrorKind::Encoding,
                        }
                        &&& d.0 > 0 && d.1 > 0 ==> r is Ok
                        &&& forall|i: int| 0 <= i < blended.len()
                            ==> blended[i].a == d.2[i].a
                        &&& (forall|j: int| 0 <= j < a.2.len() ==> is_black(a.2[j]))
                            ==> forall|i: int| 0 <= i < blended.len()
                                ==> blended[i].r == d.2[i].r / 2
                                    && blended[i].g == d.2[i].g / 2
                                    && blended[i].b == d.2[i].b / 2
                    })
                },
                None => r matches Ok(out) && out@ == vec@,
            },
            None => r matches Err(e) && e.kind == ErrorKind::Decode,
        },
{
    let img = match load_bitmap(vec) {
        Ok(bm) => bm,
        Err(e) => {
            return Err(e);
        },
    };
    let asset = match load_bitmap(asset_bytes) {
        Ok(bm) => bm,
        Err(_) => {
            return Ok(vec.clone());
        },
    };
    if asset.width == 0 || asset.height == 0 {
        return Ok(vec.clone());
    }
    let blended = overlay_with_asset(&img, &asset);
    vec_image(&blended)
}

} // verus!
