//! The boundary to the `image` crate: decoding bytes to a `Bitmap`, encoding
//! a `Bitmap` to PNG bytes, and the nearest-neighbour resize used by the
//! overlay blend. Each outside call sits behind one trusted wrapper; the
//! results of decode, encode and resize are pure functions of their arguments
//! and are given names that the verified contracts speak of.

use vstd::prelude::*;
use crate::bitmap::{Bitmap, Pixel, blended_pixel, blended_pixels, average_bitmaps};
use crate::error::{ErrorKind, ZimiriError};

verus! {

#[verifier::external_type_specification]
#[verifier::external_body]
pub struct ExImageError(image::ImageError);

/// What decoding a byte sequence yields: `None` when the bytes are not a
/// readable image — or when decoding them would exceed the decoder's default
/// allocation limit — otherwise the width, height and RGBA pixels of the
/// decoded raster.
pub uninterp spec fn decoded_of(bytes: Seq<u8>) -> Option<(nat, nat, Seq<Pixel>)>;

/// A raster small enough that decoding its own PNG stream stays within the
/// image crate's default decoding budget of 512 MiB of reserved allocations.
/// Decoding reserves the raw RGBA buffer (four bytes per pixel) and, beyond
/// it, at most a buffered compressed stream of about the raw size plus one
/// row; a pixel count of at most 40 * 1024 * 1024 keeps the total under the
/// budget even on that most pessimistic accounting, so the bound is
/// deliberately conservative.
pub open spec fn fits_decode_limit(width: nat, height: nat) -> bool {
    width * height <= 40 * 1024 * 1024
}

/// The PNG serialization of a raster with the given dimensions and pixels.
pub uninterp spec fn png_of(width: nat, height: nat, pixels: Seq<Pixel>) -> Seq<u8>;

/// The nearest-neighbour resampling of a source raster to the target
/// dimensions.
pub uninterp spec fn resize_nearest(
    src_width: nat,
    src_height: nat,
    src_pixels: Seq<Pixel>,
    width: nat,
    height: nat,
) -> Seq<Pixel>;

/// Relies on image::load_from_memory (and the conversion of the decoded
/// raster to RGBA8): decoding is a pure function of the input bytes, and a
/// decoded raster holds exactly width * height pixels of four bytes each.
/// Decoding fails not only on unreadable bytes but also on an image whose
/// buffers would exceed the crate's default allocation limit of 512 MiB.
#[verifier::external_body]
fn decode_raw(bytes: &Vec<u8>) -> (r: Result<Bitmap, image::ImageError>)
    ensures
        match r {
            Ok(bm) => bm.wf()
                && decoded_of(bytes@)
                    == Some((bm.width as nat, bm.height as nat, bm.pixels@)),
            Err(_) => decoded_of(bytes@) is None,
        },
{
    let img = image::load_from_memory(bytes)?.to_rgba8();
    let (width, height) = img.dimensions();
    let pixels = img.pixels().map(|p| Pixel { r: p[0], g: p[1], b: p[2], a: p[3] }).collect();
    Ok(Bitmap { width, height, pixels })
}

/// Relies on DynamicImage::write_to with the PNG output format: the encoding
/// is a pure function of the pixel data and dimensions; the PNG writer fails
/// exactly on a zero dimension (the format cannot represent an empty raster,
/// and the in-memory sink cannot fail); a produced stream starts with the PNG
/// signature, so it is never empty; and PNG is lossless for 8-bit RGBA, so
/// decoding a produced stream yields back exactly the written raster — for a
/// raster within `fits_decode_limit`, since the decoder enforces a fixed
/// allocation limit and refuses larger images.
#[verifier::external_body]
fn encode_png_raw(img: &Bitmap) -> (r: Result<Vec<u8>, image::ImageError>)
    requires
        img.wf(),
    ensures
        r is Err <==> img.width == 0 || img.height == 0,
        r matches Ok(v) ==> v@ == png_of(img.width as nat, img.height as nat, img.pixels@)
            && v@.len() > 0
            && (fits_decode_limit(img.width as nat, img.height as nat)
                ==> decoded_of(v@) == Some((img.width as nat, img.height as nat, img.pixels@))),
{
    let raw: Vec<u8> = img.pixels.iter().flat_map(|p| [p.r, p.g, p.b, p.a]).collect();
    let buffer = image::RgbaImage::from_raw(img.width, img.height, raw).unwrap();
    let mut cursor = std::io::Cursor::new(Vec::new());
    image::DynamicImage::ImageRgba8(buffer).write_to(&mut cursor, image::ImageOutputFormat::Png)?;
    Ok(cursor.into_inner())
}

/// Relies on image::imageops::resize with FilterType::Nearest: the result is
/// a pure function of the source raster and the target dimensions, and every
/// output pixel is a copy of some source pixel (nearest-neighbour sampling
/// selects; it never interpolates).
#[verifier::external_body]
fn resize_nearest_raw(src: &Bitmap, width: u32, height: u32) -> (out: Bitmap)
    requires
        src.wf(),
        src.width > 0,
        src.height > 0,
        4 * (width as int) * (height as int) <= usize::MAX,
    ensures
        out.wf(),
        out.width == width,
        out.height == height,
        out.pixels@ == resize_nearest(
            src.width as nat, src.height as nat, src.pixels@,
            width as nat, height as nat),
        forall|i: int| 0 <= i < out.pixels@.len() ==> src.pixels@.contains(out.pixels@[i]),
{
    let raw: Vec<u8> = src.pixels.iter().flat_map(|p| [p.r, p.g, p.b, p.a]).collect();
    let buffer = image::RgbaImage::from_raw(src.width, src.height, raw).unwrap();
    let resized = image::imageops::resize(
        &buffer, width, height, image::imageops::FilterType::Nearest);
    let pixels = resized.pixels().map(|p| Pixel { r: p[0], g: p[1], b: p[2], a: p[3] }).collect();
    Bitmap { width, height, pixels }
}

/// Relies on ImageError's Display implementation for a human-readable
/// message; nothing is claimed of the text.
#[verifier::external_body]
fn image_error_text(e: &image::ImageError) -> String {
    e.to_string()
}

/// Wraps a decoding failure of the image crate as this library's error.
pub(crate) fn decode_error(e: &image::ImageError) -> (z: ZimiriError)
    ensures
        z.kind == ErrorKind::Decode,
{
    let text = image_error_text(e);
    ZimiriError::new(ErrorKind::Decode, text.as_str())
}

/// Wraps an encoding failure of the image crate as this library's error.
pub(crate) fn encode_error(e: &image::ImageError) -> (z: ZimiriError)
    ensures
        z.kind == ErrorKind::Encoding,
{
    let text = image_error_text(e);
    ZimiriError::new(ErrorKind::Encoding, text.as_str())
}

/// Decodes a byte sequence into a bitmap; fails with a `Decode` error exactly
/// when the bytes are not a readable image.
pub fn load_bitmap(bytes: &Vec<u8>) -> (r: Result<Bitmap, ZimiriError>)
    ensures
        match r {
            Ok(bm) => bm.wf()
                && decoded_of(bytes@)
                    == Some((bm.width as nat, bm.height as nat, bm.pixels@)),
            Err(e) => e.kind == ErrorKind::Decode && decoded_of(bytes@) is None,
        },
{
    match decode_raw(bytes) {
        Ok(bm) => Ok(bm),
        Err(e) => Err(decode_error(&e)),
    }
}

/// Serializes a bitmap to PNG bytes. It fails, with an `Encoding` error,
/// exactly when the codec cannot represent the bitmap — a zero dimension;
/// otherwise the result is the non-empty PNG stream of the pixels, and, for
/// a bitmap within the decoder's allocation limit, decoding it yields the
/// bitmap back pixel-identical.
pub fn vec_image(img: &Bitmap) -> (r: Result<Vec<u8>, ZimiriError>)
    requires
        img.wf(),
    ensures
        r is Err <==> img.width == 0 || img.height == 0,
        match r {
            Ok(v) => v@ == png_of(img.width as nat, img.height as nat, img.pixels@)
                && v@.len() > 0
                && (fits_decode_limit(img.width as nat, img.height as nat)
                    ==> decoded_of(v@)
                        == Some((img.width as nat, img.height as nat, img.pixels@))),
            Err(e) => e.kind == ErrorKind::Encoding,
        },
{
    match encode_png_raw(img) {
        Ok(v) => Ok(v),
        Err(e) => Err(encode_error(&e)),
    }
}

/// A pixel whose colour channels are all zero.
pub open spec fn is_black(p: Pixel) -> bool {
    p.r == 0 && p.g == 0 && p.b == 0
}

/// Resizes the overlay asset to the input's exact dimensions with
/// nearest-neighbour sampling, then floor-averages the colour channels of the
/// two rasters pointwise. The output keeps the input's alpha channel at every
/// coordinate, whatever the asset holds; and an asset of pure black pixels
/// halves (flooring) every colour channel of the input.
pub fn overlay_with_asset(input: &Bitmap, asset: &Bitmap) -> (out: Bitmap)
    requires
        input.wf(),
        asset.wf(),
        asset.width > 0,
        asset.height > 0,
    ensures
        out.wf(),
        out.width == input.width,
        out.height == input.height,
        out.pixels@ == blended_pixels(
            input.pixels@,
            resize_nearest(
                asset.width as nat, asset.height as nat, asset.pixels@,
                input.width as nat, input.height as nat)),
        forall|i: int| 0 <= i < out.pixels@.len()
            ==> out.pixels@[i].a == input.pixels@[i].a,
        (forall|j: int| 0 <= j < asset.pixels@.len() ==> is_black(asset.pixels@[j]))
            ==> forall|i: int| 0 <= i < out.pixels@.len()
                ==> out.pixels@[i].r == input.pixels@[i].r / 2
                    && out.pixels@[i].g == input.pixels@[i].g / 2
                    && out.pixels@[i].b == input.pixels@[i].b / 2,
{
    let resized = resize_nearest_raw(asset, input.width, input.height);
    let out = average_bitmaps(input, &resized);
    proof {
        assert forall|i: int| 0 <= i < out.pixels@.len()
            implies out.pixels@[i].a == input.pixels@[i].a by {
            assert(out.pixels@[i] == blended_pixel(input.pixels@[i], resized.pixels@[i]));
        }
        if forall|j: int| 0 <= j < asset.pixels@.len() ==> is_black(asset.pixels@[j]) {
            assert forall|i: int| 0 <= i < out.pixels@.len()
                implies out.pixels@[i].r == input.pixels@[i].r / 2
                    && out.pixels@[i].g == input.pixels@[i].g / 2
                    && out.pixels@[i].b == input.pixels@[i].b / 2 by {
                assert(asset.pixels@.contains(resized.pixels@[i]));
                let j = choose|j: int|
                    0 <= j < asset.pixels@.len() && asset.pixels@[j] == resized.pixels@[i];
                assert(is_black(asset.pixels@[j]));
                assert(out.pixels@[i] == blended_pixel(input.pixels@[i], resized.pixels@[i]));
            }
        }
    }
    out
}

} // verus!
