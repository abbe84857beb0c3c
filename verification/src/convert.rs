//! Pixel-format conversion and thumbnailing.
//!
//! The compositor hands captured frames over in a four-byte-per-pixel layout
//! whose red and blue channels are swapped relative to canonical RGBA order
//! (alpha last in both). Conversion swaps the two channels per pixel and
//! leaves green and alpha untouched.

use crate::WaylandImage;
use vstd::prelude::*;

verus! {

/// The pixel bytes that a quality downscale of the `width x height` RGBA
/// buffer `src` to `new_width x new_height` produces. The filter's output is
/// a function of the input pixels and the dimensions alone; its exact values
/// are not restated here.
pub uninterp spec fn resampled(
    src: Seq<u8>,
    width: u32,
    height: u32,
    new_width: u32,
    new_height: u32,
) -> Seq<u8>;

/// Relies on image::imageops::resize: it resamples the buffer to exactly
/// `new_width x new_height` RGBA pixels, and its output depends only on the
/// input pixels, the dimensions and the (fixed) filter.
#[verifier::external_body]
fn resample_rgba(src: &Vec<u8>, width: u32, height: u32, new_width: u32, new_height: u32) -> (r:
    Vec<u8>)
    requires
        src@.len() == width * height * 4,
        new_width <= width,
        new_height <= height,
    ensures
        r@.len() == new_width * new_height * 4,
        r@ == resampled(src@, width, height, new_width, new_height),
{
    let buf = image::RgbaImage::from_raw(width, height, src.clone()).unwrap();
    let out = image::imageops::resize(
        &buf,
        new_width,
        new_height,
        image::imageops::FilterType::Lanczos3,
    );
    out.into_raw()
}

/// A dimension `d` rescaled by `bound / m` and rounded to the nearest
/// integer (half away from zero), computed entirely in integers.
pub open spec fn round_scaled(d: int, bound: int, m: int) -> int {
    (d * bound + m / 2) / m
}

/// The longer side of a `w x h` image.
pub open spec fn longer_side(w: int, h: int) -> int {
    if w >= h {
        w
    } else {
        h
    }
}

/// Width of the thumbnail of a `w x h` image under `bound`: unchanged when
/// the image is within the bound, else rescaled by `bound / longer_side` and
/// rounded.
pub open spec fn thumb_width(w: u32, h: u32, bound: u32) -> int {
    if w <= bound && h <= bound {
        w as int
    } else {
        round_scaled(w as int, bound as int, longer_side(w as int, h as int))
    }
}

/// Height of the thumbnail, as [`thumb_width`].
pub open spec fn thumb_height(w: u32, h: u32, bound: u32) -> int {
    if w <= bound && h <= bound {
        h as int
    } else {
        round_scaled(h as int, bound as int, longer_side(w as int, h as int))
    }
}

/// Pixel bytes of the thumbnail: the input itself when within the bound,
/// else the resampled buffer.
pub open spec fn thumbnail_bytes(src: Seq<u8>, w: u32, h: u32, bound: u32) -> Seq<u8> {
    if w <= bound && h <= bound {
        src
    } else {
        resampled(src, w, h, thumb_width(w, h, bound) as u32, thumb_height(w, h, bound) as u32)
    }
}

/// Canonical byte of pixel `i` at channel offset `c` after reordering a
/// reversed-channel source buffer: red and blue trade places, green and
/// alpha stay.
pub open spec fn reordered_byte(src: Seq<u8>, i: int, c: int) -> u8 {
    if c == 0 {
        src[4 * i + 2]
    } else if c == 2 {
        src[4 * i]
    } else {
        src[4 * i + c]
    }
}

/// The whole buffer after channel reordering, as a sequence.
pub open spec fn reordered(src: Seq<u8>, width: u32, height: u32) -> Seq<u8> {
    Seq::new((width * height * 4) as nat, |k: int| reordered_byte(src, k / 4, k % 4))
}

/// Convert a reversed-channel buffer of `width x height` pixels to canonical
/// RGBA byte order. Output red is the input's byte at the blue offset, output
/// blue is the input's byte at the red offset, green and alpha are unchanged.
pub fn convert_reversed_to_rgba(src: &Vec<u8>, width: u32, height: u32) -> (out: Vec<u8>)
    requires
        src@.len() == width * height * 4,
    ensures
        out@.len() == src@.len(),
        out@ == reordered(src@, width, height),
        forall|i: int, c: int|
            0 <= i < width * height && 0 <= c < 4 ==> out@[4 * i + c] == reordered_byte(
                src@,
                i,
                c,
            ),
{
    let n: usize = src.len() / 4;
    let mut out: Vec<u8> = Vec::new();
    let mut i: usize = 0;
    while i < n
        invariant
            n == width * height,
            src@.len() == 4 * n,
            4 * n <= usize::MAX,
            out@.len() == 4 * i,
            i <= n,
            forall|j: int, c: int|
                0 <= j < i && 0 <= c < 4 ==> out@[4 * j + c] == reordered_byte(src@, j, c),
        decreases n - i,
    {
        let base: usize = i * 4;
        out.push(src[base + 2]);
        out.push(src[base + 1]);
        out.push(src[base]);
        out.push(src[base + 3]);
        i = i + 1;
    }
    proof {
        assert forall|k: int| 0 <= k < out@.len() implies out@[k] == reordered_byte(
            src@,
            k / 4,
            k % 4,
        ) by {
            let j = k / 4;
            let c = k % 4;
            assert(k == 4 * j + c);
            assert(out@[4 * j + c] == reordered_byte(src@, j, c));
        }
        assert(out@ =~= reordered(src@, width, height));
    }
    out
}

/// Channel reordering is its own inverse: reordering a reordered buffer
/// gives back the original, byte for byte, at every pixel position.
pub proof fn lemma_reorder_round_trip(src: Seq<u8>, width: u32, height: u32)
    requires
        src.len() == width * height * 4,
    ensures
        reordered(reordered(src, width, height), width, height) == src,
{
    let once = reordered(src, width, height);
    let twice = reordered(once, width, height);
    assert forall|k: int| 0 <= k < src.len() implies twice[k] == src[k] by {
        let i = k / 4;
        let c = k % 4;
        assert(k == 4 * i + c);
        assert(once[4 * i + 2] == src[4 * i]);
        assert(once[4 * i + 1] == src[4 * i + 1]);
        assert(once[4 * i] == src[4 * i + 2]);
        assert(once[4 * i + 3] == src[4 * i + 3]);
    }
    assert(twice =~= src);
}

/// Thumbnail dimensions for an oversized `w x h` image under `bound`: both
/// sides are rescaled by `bound / longer_side` and rounded, so the longer
/// side lands exactly on `bound`.
pub fn thumbnail_dims(w: u32, h: u32, bound: u32) -> (r: (u32, u32))
    requires
        bound >= 1,
        w > bound || h > bound,
    ensures
        r.0 == round_scaled(w as int, bound as int, longer_side(w as int, h as int)),
        r.1 == round_scaled(h as int, bound as int, longer_side(w as int, h as int)),
        r.0 <= bound,
        r.1 <= bound,
        r.0 <= w,
        r.1 <= h,
        if w >= h {
            r.0 == bound
        } else {
            r.1 == bound
        },
{
    let m: u32 = if w >= h {
        w
    } else {
        h
    };
    let mw: u64 = m as u64;
    proof {
        vstd::arithmetic::mul::lemma_mul_upper_bound(
            w as int,
            u32::MAX as int,
            bound as int,
            u32::MAX as int,
        );
        vstd::arithmetic::mul::lemma_mul_upper_bound(
            h as int,
            u32::MAX as int,
            bound as int,
            u32::MAX as int,
        );
    }
    let nw: u64 = (w as u64 * bound as u64 + mw / 2) / mw;
    let nh: u64 = (h as u64 * bound as u64 + mw / 2) / mw;
    proof {
        lemma_round_scaled_le(w as int, bound as int, m as int);
        lemma_round_scaled_le(h as int, bound as int, m as int);
        lemma_round_scaled_exact(bound as int, m as int);
    }
    (nw as u32, nh as u32)
}

/// Rounded rescaling never overshoots: the result is at most `bound`
/// (because `d <= m`) and at most `d` (because `bound <= m`).
proof fn lemma_round_scaled_le(d: int, bound: int, m: int)
    requires
        0 <= d <= m,
        1 <= bound <= m,
    ensures
        0 <= round_scaled(d, bound, m) <= bound,
        round_scaled(d, bound, m) <= d,
{
    let x = d * bound + m / 2;
    vstd::arithmetic::mul::lemma_mul_nonnegative(d, bound);
    vstd::arithmetic::div_mod::lemma_div_pos_is_pos(x, m);
    vstd::arithmetic::mul::lemma_mul_inequality(d, m, bound);
    vstd::arithmetic::div_mod::lemma_div_is_ordered(x, m * bound + m / 2, m);
    vstd::arithmetic::div_mod::lemma_div_multiples_vanish_fancy(bound, m / 2, m);
    vstd::arithmetic::mul::lemma_mul_inequality(bound, m, d);
    assert(bound * d == d * bound && d * m == m * d) by (nonlinear_arith);
    vstd::arithmetic::div_mod::lemma_div_is_ordered(x, m * d + m / 2, m);
    vstd::arithmetic::div_mod::lemma_div_multiples_vanish_fancy(d, m / 2, m);
}

/// The side equal to the longer side rescales to exactly `bound`.
proof fn lemma_round_scaled_exact(bound: int, m: int)
    requires
        m >= 1,
        bound >= 1,
    ensures
        round_scaled(m, bound, m) == bound,
{
    assert(m * bound == bound * m) by (nonlinear_arith);
    vstd::arithmetic::div_mod::lemma_div_multiples_vanish_fancy(bound, m / 2, m);
}

/// Aspect-ratio preservation: for any oversized `w x h` image and bound, the
/// thumbnail dimensions put the longer side exactly on the bound, and the
/// cross products `nw * h` and `w * nh` (the two rescaled aspect ratios with
/// denominators cleared) differ by at most half of `w + h`, the worst the
/// two roundings can introduce.
pub proof fn lemma_thumbnail_aspect(w: int, h: int, bound: int)
    requires
        0 <= w,
        0 <= h,
        1 <= bound,
        w > bound || h > bound,
    ensures
        ({
            let m = longer_side(w, h);
            let nw = round_scaled(w, bound, m);
            let nh = round_scaled(h, bound, m);
            &&& (if w >= h {
                nw == bound
            } else {
                nh == bound
            })
            &&& -(w + h) <= 2 * (nw * h - w * nh) <= w + h
        }),
{
    let m = longer_side(w, h);
    let nw = round_scaled(w, bound, m);
    let nh = round_scaled(h, bound, m);
    lemma_round_scaled_exact(bound, m);
    let xw = w * bound + m / 2;
    let xh = h * bound + m / 2;
    vstd::arithmetic::div_mod::lemma_fundamental_div_mod(xw, m);
    vstd::arithmetic::div_mod::lemma_mod_bound(xw, m);
    vstd::arithmetic::div_mod::lemma_fundamental_div_mod(xh, m);
    vstd::arithmetic::div_mod::lemma_mod_bound(xh, m);
    let a = m * nw - w * bound;
    let b = m * nh - h * bound;
    assert(-m <= 2 * a <= m);
    assert(-m <= 2 * b <= m);
    assert(2 * ((nw * h - w * nh) * m) == (2 * a) * h - (2 * b) * w) by (nonlinear_arith)
        requires
            a == m * nw - w * bound,
            b == m * nh - h * bound,
    ;
    vstd::arithmetic::mul::lemma_mul_inequality(2 * a, m, h);
    vstd::arithmetic::mul::lemma_mul_inequality(-m, 2 * a, h);
    vstd::arithmetic::mul::lemma_mul_inequality(2 * b, m, w);
    vstd::arithmetic::mul::lemma_mul_inequality(-m, 2 * b, w);
    assert((2 * (nw * h - w * nh)) * m == 2 * ((nw * h - w * nh) * m)) by (nonlinear_arith);
    assert((w + h) * m == m * h + m * w) by (nonlinear_arith);
    assert((-(w + h)) * m == -(m * h) - (m * w)) by (nonlinear_arith);
    assert((-m) * h == -(m * h)) by (nonlinear_arith);
    assert((-m) * w == -(m * w)) by (nonlinear_arith);
    vstd::arithmetic::mul::lemma_mul_inequality_converse(2 * (nw * h - w * nh), w + h, m);
    vstd::arithmetic::mul::lemma_mul_inequality_converse(-(w + h), 2 * (nw * h - w * nh), m);
}

/// Downscale a captured image so that its longer side is at most `bound`.
/// An image already within the bound comes back unchanged, byte for byte;
/// an oversized one is resampled to the rounded rescaled dimensions.
pub fn thumbnail(img: WaylandImage, bound: u32) -> (r: WaylandImage)
    requires
        img.wf(),
        bound >= 1,
    ensures
        r.wf(),
        img.width <= bound && img.height <= bound ==> r == img,
        r.width == thumb_width(img.width, img.height, bound),
        r.height == thumb_height(img.width, img.height, bound),
        r.img@ == thumbnail_bytes(img.img@, img.width, img.height, bound),
        img.width > bound || img.height > bound ==> (if img.width >= img.height {
            r.width == bound
        } else {
            r.height == bound
        }),
{
    if img.width <= bound && img.height <= bound {
        img
    } else {
        let (nw, nh) = thumbnail_dims(img.width, img.height, bound);
        let data = resample_rgba(&img.img, img.width, img.height, nw, nh);
        WaylandImage { img: data, width: nw, height: nh }
    }
}

} // verus!
