//! Decoded raster images and the per-pixel transforms on them: 90-degree
//! rotation, RGB inversion, and the floor-averaging blend used by the overlay
//! command.

use vstd::prelude::*;
use vstd::arithmetic::div_mod::{lemma_fundamental_div_mod, lemma_fundamental_div_mod_converse};

verus! {

/// One raster pixel: red, green, blue and alpha, each an 8-bit channel.
#[derive(Clone, Copy, PartialEq, Eq, Structural, Debug)]
pub struct Pixel {
    pub r: u8,
    pub g: u8,
    pub b: u8,
    pub a: u8,
}

/// A decoded raster image. Pixels are stored row-major: the pixel at
/// coordinate (x, y) sits at index `y * width + x`.
#[derive(Debug)]
pub struct Bitmap {
    pub width: u32,
    pub height: u32,
    pub pixels: Vec<Pixel>,
}

impl Bitmap {
    /// The buffer holds exactly one pixel per coordinate, and the total byte
    /// count (four bytes per pixel) fits a `usize`.
    pub open spec fn wf(&self) -> bool {
        &&& self.pixels@.len() == self.width * self.height
        &&& 4 * (self.width as int) * (self.height as int) <= usize::MAX
    }

    /// The pixel at coordinate (x, y).
    pub open spec fn pix(&self, x: int, y: int) -> Pixel {
        self.pixels@[y * self.width + x]
    }
}

/// A pixel with red, green and blue replaced by their complement in 255;
/// alpha is untouched.
pub open spec fn inverted_pixel(p: Pixel) -> Pixel {
    Pixel { r: (255 - p.r) as u8, g: (255 - p.g) as u8, b: (255 - p.b) as u8, a: p.a }
}

/// Every pixel of the buffer inverted.
pub open spec fn inverted_pixels(px: Seq<Pixel>) -> Seq<Pixel> {
    px.map_values(|p: Pixel| inverted_pixel(p))
}

/// The buffer of a source image of dimensions `w` x `h`, rotated 90 degrees
/// clockwise. The rotated image has dimensions `h` x `w`, and its pixel at
/// (x, y) is the source pixel at (y, h - 1 - x).
pub open spec fn rotated_pixels(w: int, h: int, px: Seq<Pixel>) -> Seq<Pixel> {
    Seq::new(px.len(), |k: int| px[(h - 1 - (k % h)) * w + (k / h)])
}

/// The floor average of two pixels, channel by channel, keeping the alpha of
/// `block` (the base image) so that its transparency survives the blend.
pub open spec fn blended_pixel(block: Pixel, input: Pixel) -> Pixel {
    Pixel {
        r: (block.r / 2 + input.r / 2) as u8,
        g: (block.g / 2 + input.g / 2) as u8,
        b: (block.b / 2 + input.b / 2) as u8,
        a: block.a,
    }
}

/// The two buffers blended pointwise with `blended_pixel`.
pub open spec fn blended_pixels(base: Seq<Pixel>, top: Seq<Pixel>) -> Seq<Pixel> {
    Seq::new(base.len(), |i: int| blended_pixel(base[i], top[i]))
}

/// Floor-averages the channels of two pixels; the alpha of `block` wins.
pub fn average_pixel(block: Pixel, input: Pixel) -> (out: Pixel)
    ensures
        out == blended_pixel(block, input),
{
    Pixel {
        r: block.r / 2 + input.r / 2,
        g: block.g / 2 + input.g / 2,
        b: block.b / 2 + input.b / 2,
        a: block.a,
    }
}

/// Returns a new bitmap with every pixel's red, green and blue channels
/// replaced by `255 - channel`; the alpha channel is copied unchanged.
pub fn invert(img: &Bitmap) -> (out: Bitmap)
    requires
        img.wf(),
    ensures
        out.wf(),
        out.width == img.width,
        out.height == img.height,
        out.pixels@ == inverted_pixels(img.pixels@),
{
    let mut pixels: Vec<Pixel> = Vec::new();
    let mut i: usize = 0;
    while i < img.pixels.len()
        invariant
            i <= img.pixels.len(),
            pixels@.len() == i,
            forall|j: int| 0 <= j < i ==> pixels@[j] == inverted_pixel(img.pixels@[j]),
        decreases img.pixels.len() - i,
    {
        let p = img.pixels[i];
        pixels.push(Pixel { r: 255 - p.r, g: 255 - p.g, b: 255 - p.b, a: p.a });
        i = i + 1;
    }
    proof {
        assert(pixels@ =~= inverted_pixels(img.pixels@));
    }
    Bitmap { width: img.width, height: img.height, pixels }
}

/// Returns the bitmap rotated 90 degrees clockwise: the result has width and
/// height swapped, and is the exact pixel permutation `rotated_pixels`; its
/// pixel at (x, y) is the source pixel at (y, height - 1 - x).
pub fn rotate90(img: &Bitmap) -> (out: Bitmap)
    requires
        img.wf(),
    ensures
        out.wf(),
        out.width == img.height,
        out.height == img.width,
        out.pixels@ == rotated_pixels(img.width as int, img.height as int, img.pixels@),
        forall|x: int, y: int| 0 <= x < out.width && 0 <= y < out.height
            ==> out.pix(x, y) == img.pix(y, img.height - 1 - x),
{
    let w = img.width;
    let h = img.height;
    let ghost target = rotated_pixels(w as int, h as int, img.pixels@);
    let mut pixels: Vec<Pixel> = Vec::new();
    let mut oy: u32 = 0;
    while oy < w
        invariant
            img.wf(),
            w == img.width,
            h == img.height,
            target == rotated_pixels(w as int, h as int, img.pixels@),
            oy <= w,
            pixels@.len() == oy * h,
            forall|k: int| 0 <= k < pixels@.len() ==> pixels@[k] == target[k],
        decreases w - oy,
    {
        let mut ox: u32 = 0;
        while ox < h
            invariant
                img.wf(),
                w == img.width,
                h == img.height,
                target == rotated_pixels(w as int, h as int, img.pixels@),
                oy < w,
                ox <= h,
                pixels@.len() == oy * h + ox,
                forall|k: int| 0 <= k < pixels@.len() ==> pixels@[k] == target[k],
            decreases h - ox,
        {
            proof {
                assert((h - 1 - ox) * (w as int) + oy < (w as int) * (h as int)
                    && 0 <= (h - 1 - ox) * (w as int) + oy
                    && oy * h + ox < (w as int) * (h as int)
                    && (w as int) * (h as int) <= usize::MAX) by (nonlinear_arith)
                    requires
                        0 <= oy < w,
                        0 <= ox < h,
                        4 * (w as int) * (h as int) <= usize::MAX,
                ;
                lemma_fundamental_div_mod_converse(
                    oy * h + ox, h as int, oy as int, ox as int);
            }
            let idx: usize = (h - 1 - ox) as usize * w as usize + oy as usize;
            pixels.push(img.pixels[idx]);
            ox = ox + 1;
        }
        oy = oy + 1;
        proof {
            assert((oy - 1) * h + h == oy * h) by (nonlinear_arith);
        }
    }
    proof {
        assert(w * h == h * w && 4 * (h as int) * (w as int) == 4 * (w as int) * (h as int))
            by (nonlinear_arith);
        assert(pixels@ =~= target);
    }
    let out = Bitmap { width: h, height: w, pixels };
    proof {
        assert forall|x: int, y: int| 0 <= x < out.width && 0 <= y < out.height
            implies out.pix(x, y) == img.pix(y, img.height - 1 - x) by {
            lemma_rotated_index(w as int, h as int, img.pixels@, x, y);
        }
    }
    out
}

/// Blends two bitmaps of equal dimensions pointwise: each output channel is
/// the floor average of the two inputs' channels, and the alpha channel is the
/// base bitmap's alpha.
pub fn average_bitmaps(base: &Bitmap, top: &Bitmap) -> (out: Bitmap)
    requires
        base.wf(),
        top.wf(),
        base.width == top.width,
        base.height == top.height,
    ensures
        out.wf(),
        out.width == base.width,
        out.height == base.height,
        out.pixels@ == blended_pixels(base.pixels@, top.pixels@),
{
    let mut pixels: Vec<Pixel> = Vec::new();
    let mut i: usize = 0;
    while i < base.pixels.len()
        invariant
            base.wf(),
            top.wf(),
            base.width == top.width,
            base.height == top.height,
            i <= base.pixels.len(),
            pixels@.len() == i,
            forall|j: int| 0 <= j < i ==>
                pixels@[j] == blended_pixel(base.pixels@[j], top.pixels@[j]),
        decreases base.pixels.len() - i,
    {
        let p = average_pixel(base.pixels[i], top.pixels[i]);
        pixels.push(p);
        i = i + 1;
    }
    proof {
        assert(pixels@ =~= blended_pixels(base.pixels@, top.pixels@));
    }
    Bitmap { width: base.width, height: base.height, pixels }
}

/// Rotating a pixel buffer places the source pixel (y, h - 1 - x) at the
/// rotated coordinate (x, y).
proof fn lemma_rotated_index(w: int, h: int, px: Seq<Pixel>, x: int, y: int)
    requires
        px.len() == w * h,
        0 <= x < h,
        0 <= y < w,
    ensures
        0 <= y * h + x < w * h,
        0 <= (h - 1 - x) * w + y < w * h,
        rotated_pixels(w, h, px)[y * h + x] == px[(h - 1 - x) * w + y],
{
    assert(0 <= y * h + x < w * h && 0 <= (h - 1 - x) * w + y < w * h) by (nonlinear_arith)
        requires
            0 <= x < h,
            0 <= y < w,
    ;
    lemma_fundamental_div_mod_converse(y * h + x, h, y, x);
}

/// Law: rotating a bitmap 90 degrees four times in a row returns the original
/// pixel buffer exactly. Each call swaps the dimensions, so the first and
/// third act on a `w` x `h` buffer and the second and fourth on an `h` x `w`
/// one.
pub proof fn lemma_rotate_four_identity(w: int, h: int, px: Seq<Pixel>)
    requires
        0 <= w,
        0 <= h,
        px.len() == w * h,
    ensures
        rotated_pixels(h, w,
            rotated_pixels(w, h,
                rotated_pixels(h, w,
                    rotated_pixels(w, h, px)))) == px,
{
    let r1 = rotated_pixels(w, h, px);
    let r2 = rotated_pixels(h, w, r1);
    let r3 = rotated_pixels(w, h, r2);
    let r4 = rotated_pixels(h, w, r3);
    assert(w * h == h * w) by (nonlinear_arith);
    assert forall|i: int| 0 <= i < px.len() implies r4[i] == px[i] by {
        assert(w > 0 && h > 0) by (nonlinear_arith)
            requires
                0 <= w,
                0 <= h,
                0 < w * h,
        ;
        let x = i % w;
        let y = i / w;
        lemma_fundamental_div_mod(i, w);
        assert(0 <= x < w && 0 <= y < h) by (nonlinear_arith)
            requires
                0 <= i < w * h,
                x == i % w,
                y == i / w,
                w > 0,
        ;
        lemma_rotated_index(h, w, r3, x, y);
        lemma_rotated_index(w, h, r2, y, w - 1 - x);
        lemma_rotated_index(h, w, r1, w - 1 - x, h - 1 - y);
        lemma_rotated_index(w, h, px, h - 1 - y, x);
    };
    assert(r4 =~= px);
}

/// Law: inverting a pixel buffer twice returns it exactly; the alpha channel
/// is untouched by both passes.
pub proof fn lemma_invert_involution(px: Seq<Pixel>)
    ensures
        inverted_pixels(inverted_pixels(px)) == px,
        forall|i: int| 0 <= i < px.len() ==> inverted_pixels(px)[i].a == px[i].a,
{
    assert(inverted_pixels(inverted_pixels(px)) =~= px);
}

} // verus!
