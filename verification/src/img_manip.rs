//! The pixel-crop engine: stride-aware copying of a rectangular region out
//! of a flat RGBA pixel buffer (4 bytes per pixel, row-major).

use vstd::prelude::*;
use vstd::arithmetic::div_mod::lemma_fundamental_div_mod;
use vstd::arithmetic::div_mod::lemma_fundamental_div_mod_converse;
use vstd::arithmetic::mul::lemma_mul_is_commutative;
use vstd::pervasive::VecAdditionalExecFns;
use crate::geom::SrcRect;
use crate::image::ImgData;

verus! {

/// The bytes of the sub-image that `rect` selects out of a flat RGBA buffer
/// `src` whose rows are `stride` pixels wide: pixel `(dx, dy)` of the result
/// is pixel `(rect.x + dx, rect.y + dy)` of the source, copied byte for
/// byte, rows top to bottom.
pub open spec fn cropped_bytes(src: Seq<u8>, stride: int, rect: SrcRect) -> Seq<u8> {
    Seq::new(
        (4 * (rect.w as int * rect.h as int)) as nat,
        |i: int|
            {
                let dy = (i / 4) / rect.w as int;
                let dx = (i / 4) % rect.w as int;
                src[4 * ((rect.y + dy) * stride + rect.x + dx) + i % 4]
            },
    )
}

/// Byte `j` of the cropped pixel at local offset `(dx, dy)` is byte `j` of
/// the source pixel at `(rect.x + dx, rect.y + dy)`.
pub proof fn lemma_cropped_byte(src: Seq<u8>, stride: int, rect: SrcRect, dx: int, dy: int, j: int)
    requires
        0 <= dx < rect.w as int,
        0 <= dy < rect.h as int,
        0 <= j < 4,
    ensures
        0 <= 4 * (dy * rect.w as int + dx) + j < cropped_bytes(src, stride, rect).len(),
        cropped_bytes(src, stride, rect)[4 * (dy * rect.w as int + dx) + j] == src[4 * ((rect.y
            + dy) * stride + rect.x + dx) + j],
{
    let w = rect.w as int;
    let h = rect.h as int;
    let p = dy * w + dx;
    let i = 4 * p + j;
    assert(0 <= 4 * (dy * w + dx) + j && 4 * (dy * w + dx) + j < 4 * (w * h)) by (nonlinear_arith)
        requires
            0 <= dx < w,
            0 <= dy < h,
            0 <= j < 4,
    ;
    lemma_fundamental_div_mod_converse(i, 4, p, j);
    lemma_fundamental_div_mod_converse(p, w, dy, dx);
    assert(cropped_bytes(src, stride, rect)[i] == src[4 * ((rect.y + dy) * stride + rect.x + dx)
        + j]);
}

/// Cropping with the whole image as the rectangle gives back the input
/// bytes unchanged.
pub proof fn lemma_crop_full_is_identity(src: Seq<u8>, w: u16, h: u16)
    requires
        src.len() == 4 * (w as int * h as int),
    ensures
        cropped_bytes(src, w as int, SrcRect { x: 0, y: 0, w, h }) == src,
{
    let rect = SrcRect { x: 0, y: 0, w, h };
    let c = cropped_bytes(src, w as int, rect);
    assert forall|i: int| 0 <= i < src.len() implies c[i] == src[i] by {
        lemma_fundamental_div_mod(i, 4);
        let q = i / 4;
        assert(0 < w as int && 0 < h as int) by (nonlinear_arith)
            requires
                0 < w as int * h as int,
                0 <= w as int,
                0 <= h as int,
        ;
        lemma_fundamental_div_mod(q, w as int);
        lemma_mul_is_commutative(w as int, q / w as int);
    }
    assert(c =~= src);
}

/// A rectangle of zero width or zero height selects no bytes at all.
pub proof fn lemma_crop_degenerate_is_empty(src: Seq<u8>, stride: int, rect: SrcRect)
    requires
        rect.w == 0 || rect.h == 0,
    ensures
        cropped_bytes(src, stride, rect).len() == 0,
{
}

/// Reads the 4 bytes of the pixel at `(x, y)` in a flat RGBA buffer whose
/// rows are `stride` pixels wide.
pub fn index_img(src: &[u8], x: u16, y: u16, stride: u16) -> (rgba: [u8; 4])
    requires
        4 * (y as int * stride as int + x as int) + 4 <= src@.len(),
    ensures
        forall|j: int|
            0 <= j < 4 ==> rgba@[j] == src@[4 * (y as int * stride as int + x as int) + j],
{
    proof {
        assert(src.len() == src@.len());
    }
    let flat_pos: usize = y as usize * stride as usize + x as usize;
    let base: usize = 4 * flat_pos;
    [src[base], src[base + 1], src[base + 2], src[base + 3]]
}

/// Copies pixels row by row from `src` into `dst`, taking the rectangle
/// `rect` out of a source image whose rows are `stride` pixels wide. `dst`
/// must already have the exact size of the cropped image. A rectangle with
/// zero width or height reads nothing, so only a rectangle with area is
/// held to the image's bounds.
pub fn copy_pixels(src: &[u8], dst: &mut Vec<u8>, rect: &SrcRect, stride: u16)
    requires
        rect.w > 0 && rect.h > 0 ==> rect.x + rect.w <= stride && rect.y + rect.h <= u16::MAX && 4
            * (stride as int * (rect.y + rect.h)) <= src@.len(),
        old(dst)@.len() == 4 * (rect.w as int * rect.h as int),
    ensures
        final(dst)@ == cropped_bytes(src@, stride as int, *rect),
{
    let w = rect.w;
    let h = rect.h;
    let ghost target = cropped_bytes(src@, stride as int, *rect);
    proof {
        assert(0 <= rect.w as int * rect.h as int) by (nonlinear_arith);
        assert(target.len() == dst@.len());
    }
    if w == 0 || h == 0 {
        proof {
            assert(rect.w as int * rect.h as int == 0) by (nonlinear_arith)
                requires
                    rect.w as int == 0 || rect.h as int == 0,
            ;
            assert(dst@ =~= target);
        }
        return ;
    }
    let mut dy: u16 = 0;
    while dy < h
        invariant
            dy <= h,
            rect.x + rect.w <= stride,
            rect.y + rect.h <= u16::MAX,
            4 * (stride as int * (rect.y + rect.h)) <= src@.len(),
            w == rect.w,
            h == rect.h,
            target == cropped_bytes(src@, stride as int, *rect),
            dst@.len() == target.len(),
            dst@.len() == 4 * (rect.w as int * rect.h as int),
            forall|i: int| 0 <= i < 4 * (dy as int * w as int) ==> dst@[i] == target[i],
        decreases h - dy,
    {
        let mut dx: u16 = 0;
        while dx < w
            invariant
                dx <= w,
                dy < h,
                rect.x + rect.w <= stride,
                rect.y + rect.h <= u16::MAX,
                4 * (stride as int * (rect.y + rect.h)) <= src@.len(),
                w == rect.w,
                h == rect.h,
                target == cropped_bytes(src@, stride as int, *rect),
                dst@.len() == target.len(),
                dst@.len() == 4 * (rect.w as int * rect.h as int),
                forall|i: int|
                    0 <= i < 4 * (dy as int * w as int) + 4 * dx as int ==> dst@[i] == target[i],
            decreases w - dx,
        {
            proof {
                assert(dst.len() == dst@.len());
                assert(4 * (dy as int * w as int + dx as int) + 4 <= 4 * (rect.w as int * rect.h
                    as int) && 4 * (dy as int * w as int) + 4 * dx as int == 4 * (dy as int * w
                    as int + dx as int)) by (nonlinear_arith)
                    requires
                        0 <= dx as int,
                        0 <= dy as int,
                        (dx as int) < (w as int),
                        (dy as int) < (h as int),
                        w == rect.w,
                        h == rect.h,
                ;
                assert(4 * ((rect.y + dy as int) * stride as int + (rect.x + dx as int)) + 4 <= 4 * (
                stride as int * (rect.y + rect.h))) by (nonlinear_arith)
                    requires
                        0 <= dx as int,
                        0 <= dy as int,
                        (dx as int) < (rect.w as int),
                        (dy as int) < (rect.h as int),
                        rect.x + rect.w <= stride as int,
                ;
            }
            let rgba = index_img(src, rect.x + dx, rect.y + dy, stride);
            let pos: usize = 4 * (dy as usize * w as usize + dx as usize);
            dst.set(pos, rgba[0]);
            dst.set(pos + 1, rgba[1]);
            dst.set(pos + 2, rgba[2]);
            dst.set(pos + 3, rgba[3]);
            proof {
                let p = dy as int * w as int + dx as int;
                assert(dst@[4 * p] == rgba@[0]);
                assert(dst@[4 * p + 1] == rgba@[1]);
                assert(dst@[4 * p + 2] == rgba@[2]);
                assert(dst@[4 * p + 3] == rgba@[3]);
                assert forall|i: int| 4 * p <= i < 4 * p + 4 implies dst@[i] == target[i] by {
                    let j = i - 4 * p;
                    lemma_cropped_byte(src@, stride as int, *rect, dx as int, dy as int, j);
                }
                assert(forall|i: int| 0 <= i < 4 * p + 4 ==> dst@[i] == target[i]);
            }
            dx = dx + 1;
        }
        proof {
            assert(4 * ((dy as int + 1) * w as int) == 4 * (dy as int * w as int) + 4 * w as int)
                by (nonlinear_arith);
        }
        dy = dy + 1;
    }
    proof {
        assert(4 * (dy as int * w as int) == 4 * (rect.w as int * rect.h as int))
            by (nonlinear_arith)
            requires
                dy == h,
                w == rect.w,
                h == rect.h,
        ;
        assert(dst@ =~= target);
    }
}

/// Returns a cropped version of `input`, defined by `rect`: a freshly
/// allocated buffer of `rect.w × rect.h` pixels where the pixel at local
/// offset `(dx, dy)` is the source pixel at `(rect.x + dx, rect.y + dy)`,
/// copied byte for byte. A rectangle of zero width or height yields an
/// empty buffer and never fails, wherever it sits; one with area must lie
/// inside the image.
pub fn crop_image_data(input: &ImgData, rect: &SrcRect) -> (out: ImgData)
    requires
        input.wf(),
        rect.w > 0 && rect.h > 0 ==> rect.x + rect.w <= input.width && rect.y + rect.h
            <= input.height,
    ensures
        out.wf(),
        out.width == rect.w,
        out.height == rect.h,
        out.bytes@ == cropped_bytes(input.bytes@, input.width as int, *rect),
        forall|dx: int, dy: int, j: int|
            0 <= dx < rect.w as int && 0 <= dy < rect.h as int && 0 <= j < 4
                ==> #[trigger] out.bytes@[4 * (dy * rect.w as int + dx) + j] == input.bytes@[4 * ((
            rect.y + dy) * input.width as int + rect.x + dx) + j],
{
    if rect.w == 0 || rect.h == 0 {
        let out = ImgData { width: rect.w, height: rect.h, bytes: Vec::new() };
        proof {
            assert(rect.w as int * rect.h as int == 0) by (nonlinear_arith)
                requires
                    rect.w as int == 0 || rect.h as int == 0,
            ;
            assert(out.bytes@ =~= cropped_bytes(input.bytes@, input.width as int, *rect));
        }
        return out;
    }
    proof {
        assert(input.bytes.len() == input.bytes@.len());
        assert(rect.w as int * rect.h as int <= input.width as int * input.height as int)
            by (nonlinear_arith)
            requires
                0 <= rect.w as int <= input.width as int,
                0 <= rect.h as int <= input.height as int,
        ;
        assert(input.width as int * (rect.y + rect.h) <= input.width as int * input.height as int)
            by (nonlinear_arith)
            requires
                0 <= rect.y + rect.h <= input.height as int,
                0 <= input.width as int,
        ;
    }
    let len: usize = 4 * (rect.w as usize * rect.h as usize);
    let mut pixels: Vec<u8> = Vec::new();
    while pixels.len() < len
        invariant
            pixels@.len() <= len,
        decreases len - pixels@.len(),
    {
        pixels.push(0);
    }
    copy_pixels(input.bytes.as_slice(), &mut pixels, rect, input.width);
    let out = ImgData { width: rect.w, height: rect.h, bytes: pixels };
    proof {
        assert forall|dx: int, dy: int, j: int|
            0 <= dx < rect.w as int && 0 <= dy < rect.h as int && 0 <= j
                < 4 implies #[trigger] out.bytes@[4 * (dy * rect.w as int + dx) + j]
            == input.bytes@[4 * ((rect.y + dy) * input.width as int + rect.x + dx) + j] by {
            lemma_cropped_byte(input.bytes@, input.width as int, *rect, dx, dy, j);
        }
    }
    out
}

} // verus!
