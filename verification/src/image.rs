//! The owned image: a flat RGBA pixel buffer with its dimensions, and the
//! bundle that pairs the buffer with its renderable handle.

use vstd::prelude::*;
use crate::geom::SrcRect;
use crate::img_manip::crop_image_data;
use crate::img_manip::cropped_bytes;

verus! {

/// A decoded image: an owned, flat buffer of RGBA bytes, 4 per pixel,
/// row-major. Dimensions are 16-bit, like every coordinate in this crate.
pub struct ImgData {
    pub width: u16,
    pub height: u16,
    pub bytes: Vec<u8>,
}

impl ImgData {
    /// The buffer holds exactly `width × height` pixels of 4 bytes each.
    pub open spec fn wf(&self) -> bool {
        self.bytes@.len() == 4 * (self.width as int * self.height as int)
    }
}

/// The error the crop engine reports when the rectangle escapes the image:
/// an internal invariant failure of the caller, kept apart from clipboard
/// errors.
#[derive(Clone, Copy, PartialEq, Eq, Structural, Debug)]
pub enum CropError {
    /// `rect.x + rect.w` exceeds the image width, or `rect.y + rect.h` its
    /// height.
    OutOfBounds,
}

/// The render-handle generation that follows `g`: a fresh value, so that a
/// handle derived from the previous buffer is never mistaken for one
/// derived from the current buffer.
pub open spec fn next_gen(g: u64) -> u64 {
    if g == u64::MAX {
        0
    } else {
        (g + 1) as u64
    }
}

/// An image together with its renderable handle. The handle itself lives in
/// the display backend and is opaque; the bundle records its generation:
/// the display layer uploads the buffer anew whenever the generation
/// changes, so the handle is regenerated exactly when the buffer is
/// replaced.
pub struct ImageBundle {
    /// The owned RGBA pixel buffer.
    pub img: ImgData,
    /// Generation of the render handle derived from `img`.
    pub tex_gen: u64,
}

impl ImageBundle {
    pub open spec fn wf(&self) -> bool {
        self.img.wf()
    }

    /// Whether `rect` lies inside this bundle's image.
    pub open spec fn rect_in_bounds(&self, rect: SrcRect) -> bool {
        rect.x + rect.w <= self.img.width && rect.y + rect.h <= self.img.height
    }

    /// Wraps a freshly decoded image, with the first render-handle
    /// generation.
    pub fn new(img: ImgData) -> (b: ImageBundle)
        ensures
            b.img == img,
            b.tex_gen == 0,
    {
        ImageBundle { img, tex_gen: 0 }
    }

    /// Replaces the pixel buffer with the part `rect` selects and steps the
    /// render-handle generation; the only mutating operation. A rectangle
    /// that escapes the image aborts the cut and leaves the bundle
    /// unchanged.
    pub fn cut(&mut self, rect: &SrcRect) -> (r: Result<(), CropError>)
        requires
            old(self).wf(),
        ensures
            final(self).wf(),
            old(self).rect_in_bounds(*rect) ==> r is Ok && final(self).img.width == rect.w
                && final(self).img.height == rect.h && final(self).img.bytes@ == cropped_bytes(
                old(self).img.bytes@,
                old(self).img.width as int,
                *rect,
            ) && final(self).tex_gen == next_gen(old(self).tex_gen),
            !old(self).rect_in_bounds(*rect) ==> r == Result::<(), CropError>::Err(
                CropError::OutOfBounds,
            ) && *final(self) == *old(self),
    {
        if rect.x as usize + rect.w as usize <= self.img.width as usize && rect.y as usize
            + rect.h as usize <= self.img.height as usize {
            self.img = crop_image_data(&self.img, rect);
            self.tex_gen = if self.tex_gen == u64::MAX {
                0
            } else {
                self.tex_gen + 1
            };
            Ok(())
        } else {
            Err(CropError::OutOfBounds)
        }
    }
}

} // verus!
