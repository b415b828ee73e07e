//! The application core: the per-frame UI state, the clipboard error kinds,
//! and the decisions the frame loop takes. All outside work — the window,
//! the clipboard service, the worker thread that reads it — lives in the
//! display layer, which feeds plain values in and carries actions out.

use vstd::prelude::*;
use vstd::string::StringExecFns;
use crate::geom::SrcPos;
use crate::geom::SrcRect;
use crate::gesture::candidate_rect;
use crate::gesture::next_cut_rect;
use crate::gesture::next_origin;
use crate::image::CropError;
use crate::image::ImageBundle;
use crate::image::ImgData;
use crate::image::next_gen;
use crate::img_manip::cropped_bytes;

verus! {

/// Why a clipboard read or write failed. Every kind is surfaced to the user
/// as a message and never ends the application.
#[derive(Clone, Copy, PartialEq, Eq, Structural, Debug)]
pub enum ClipboardError {
    /// No clipboard service exists on this platform.
    Unavailable,
    /// The clipboard holds no image data.
    Empty,
    /// The clipboard content is not an image format the service can decode.
    UnsupportedFormat,
    /// The clipboard service refused access.
    AccessDenied,
}

impl ClipboardError {
    /// The user-visible message for this error kind.
    pub open spec fn message_spec(&self) -> Seq<char> {
        match self {
            ClipboardError::Unavailable => "clipboard is not available on this platform"@,
            ClipboardError::Empty => "clipboard does not hold an image"@,
            ClipboardError::UnsupportedFormat => "clipboard image format is not supported"@,
            ClipboardError::AccessDenied => "clipboard access was denied"@,
        }
    }

    /// Renders the user-visible message.
    pub fn message(&self) -> (s: String)
        ensures
            s@ == self.message_spec(),
    {
        match self {
            ClipboardError::Unavailable => String::from_str(
                "clipboard is not available on this platform",
            ),
            ClipboardError::Empty => String::from_str("clipboard does not hold an image"),
            ClipboardError::UnsupportedFormat => String::from_str(
                "clipboard image format is not supported",
            ),
            ClipboardError::AccessDenied => String::from_str("clipboard access was denied"),
        }
    }
}

/// The transient state behind the panels: one owned struct handed by
/// reference into each frame, never ambient.
pub struct UiState {
    /// Scale the displayed image to the window instead of showing it 1:1.
    pub fit: bool,
    /// Last known pointer position, translated to source coordinates.
    pub img_cursor_pos: Option<SrcPos>,
    /// Candidate rectangle for the next cut, in source coordinates.
    pub cut_rect: Option<SrcRect>,
    /// Origin of the drag gesture under way, if any.
    pub click_origin: Option<SrcPos>,
    /// User-visible message of the last clipboard failure.
    pub err: Option<String>,
    /// A paste of the clipboard image was requested and not yet issued.
    pub try_paste: bool,
}

impl UiState {
    /// Fresh state: fit display on, nothing tracked, no error, no request.
    pub open spec fn is_initial(&self) -> bool {
        &&& self.fit == true
        &&& self.img_cursor_pos is None
        &&& self.cut_rect is None
        &&& self.click_origin is None
        &&& self.err is None
        &&& self.try_paste == false
    }

    /// One frame of pointer input with the pointer at `pos` in source
    /// coordinates: records the cursor position, starts or ends the drag
    /// gesture, and while one is under way re-derives the candidate
    /// rectangle from the gesture's origin and `pos`.
    pub fn observe_pointer(&mut self, pos: SrcPos, over_image: bool, any_down: bool, any_released: bool)
        ensures
            final(self).img_cursor_pos == Some(pos),
            final(self).click_origin == next_origin(
                old(self).click_origin,
                pos,
                over_image,
                any_down,
                any_released,
            ),
            final(self).cut_rect == next_cut_rect(old(self).cut_rect, final(self).click_origin, pos),
            final(self).fit == old(self).fit,
            final(self).err == old(self).err,
            final(self).try_paste == old(self).try_paste,
    {
        self.img_cursor_pos = Some(pos);
        if over_image && any_down && self.click_origin.is_none() {
            self.click_origin = Some(pos);
        }
        if any_released {
            self.click_origin = None;
        }
        if let Some(orig) = &self.click_origin {
            self.cut_rect = Some(candidate_rect(*orig, pos));
        }
    }
}

impl Default for UiState {
    /// The state a freshly started application shows.
    fn default() -> (s: Self)
        ensures
            s.is_initial(),
    {
        UiState {
            fit: true,
            img_cursor_pos: None,
            cut_rect: None,
            click_origin: None,
            err: None,
            try_paste: false,
        }
    }
}

/// The application: the image under edit, whether a clipboard read is in
/// flight, and the per-frame UI state.
pub struct EcutApp {
    /// The pasted image with its render handle, if one was loaded.
    pub img: Option<ImageBundle>,
    /// Whether a clipboard read is in flight. The display layer holds the
    /// worker's channel; the core tracks only its presence, which keeps at
    /// most one request outstanding.
    pub read_in_flight: bool,
    /// Transient state behind the panels.
    pub ui_state: UiState,
}

impl EcutApp {
    /// Any loaded image has a buffer of exactly its stated dimensions.
    pub open spec fn wf(&self) -> bool {
        self.img matches Some(b) ==> b.wf()
    }

    /// Start-of-frame paste handling. A pending paste request is consumed:
    /// the error display is cleared and, when no read is already in flight,
    /// the caller is told to issue one. Otherwise the paste key only arms a
    /// request for the next frame.
    pub fn begin_frame(&mut self, paste_key_pressed: bool) -> (start_read: bool)
        ensures
            start_read == (old(self).ui_state.try_paste && !old(self).read_in_flight),
            final(self).img == old(self).img,
            final(self).read_in_flight == old(self).read_in_flight,
            final(self).ui_state.fit == old(self).ui_state.fit,
            final(self).ui_state.img_cursor_pos == old(self).ui_state.img_cursor_pos,
            final(self).ui_state.cut_rect == old(self).ui_state.cut_rect,
            final(self).ui_state.click_origin == old(self).ui_state.click_origin,
            old(self).ui_state.try_paste ==> final(self).ui_state.try_paste == false
                && final(self).ui_state.err is None,
            !old(self).ui_state.try_paste ==> final(self).ui_state.try_paste == paste_key_pressed
                && final(self).ui_state.err == old(self).ui_state.err,
    {
        if self.ui_state.try_paste {
            self.ui_state.try_paste = false;
            self.ui_state.err = None;
            !self.read_in_flight
        } else {
            if paste_key_pressed {
                self.ui_state.try_paste = true;
            }
            false
        }
    }

    /// Records that the clipboard read was handed to a worker; from here to
    /// the worker's answer, no further request is issued.
    pub fn read_issued(&mut self)
        ensures
            final(self).read_in_flight == true,
            final(self).img == old(self).img,
            final(self).ui_state == old(self).ui_state,
    {
        self.read_in_flight = true;
    }

    /// Takes the outcome of a clipboard read. An image becomes the new
    /// bundle, with a fresh render-handle generation, replacing any
    /// previous one; a failure keeps the previous image and shows the error
    /// message. Either way no request is in flight afterwards.
    pub fn on_read_result(&mut self, result: Result<ImgData, ClipboardError>)
        requires
            result matches Ok(img) ==> img.wf(),
        ensures
            final(self).read_in_flight == false,
            final(self).ui_state.fit == old(self).ui_state.fit,
            final(self).ui_state.img_cursor_pos == old(self).ui_state.img_cursor_pos,
            final(self).ui_state.cut_rect == old(self).ui_state.cut_rect,
            final(self).ui_state.click_origin == old(self).ui_state.click_origin,
            final(self).ui_state.try_paste == old(self).ui_state.try_paste,
            match result {
                Ok(img) => final(self).img matches Some(b) && b.img == img && b.tex_gen == 0
                    && final(self).ui_state.err == old(self).ui_state.err,
                Err(e) => ({
                    let post = *final(self);
                    post.img == old(self).img && (post.ui_state.err matches Some(m) && m@
                        == e.message_spec())
                }),
            },
            old(self).wf() ==> final(self).wf(),
    {
        self.read_in_flight = false;
        match result {
            Ok(img) => {
                self.img = Some(ImageBundle::new(img));
            },
            Err(e) => {
                self.ui_state.err = Some(e.message());
            },
        }
    }

    /// Applies the candidate rectangle to the loaded image: the bundle's
    /// buffer is replaced by the cropped one, its render handle is
    /// regenerated, and the now-stale candidate is cleared. A rectangle
    /// that escapes the image aborts the cut and changes nothing, surfacing
    /// the internal bound violation to the caller.
    pub fn apply_cut(&mut self) -> (r: Result<(), CropError>)
        requires
            old(self).wf(),
            old(self).img is Some,
            old(self).ui_state.cut_rect is Some,
        ensures
            final(self).wf(),
            ({
                let bundle = old(self).img->Some_0;
                let rect = old(self).ui_state.cut_rect->Some_0;
                if bundle.rect_in_bounds(rect) {
                    &&& r is Ok
                    &&& final(self).img matches Some(nb) && nb.img.width == rect.w
                        && nb.img.height == rect.h && nb.img.bytes@ == cropped_bytes(
                        bundle.img.bytes@,
                        bundle.img.width as int,
                        rect,
                    ) && nb.tex_gen == next_gen(bundle.tex_gen)
                    &&& final(self).ui_state.cut_rect is None
                    &&& final(self).read_in_flight == old(self).read_in_flight
                    &&& final(self).ui_state.fit == old(self).ui_state.fit
                    &&& final(self).ui_state.img_cursor_pos == old(self).ui_state.img_cursor_pos
                    &&& final(self).ui_state.click_origin == old(self).ui_state.click_origin
                    &&& final(self).ui_state.err == old(self).ui_state.err
                    &&& final(self).ui_state.try_paste == old(self).ui_state.try_paste
                } else {
                    &&& r == Result::<(), CropError>::Err(CropError::OutOfBounds)
                    &&& *final(self) == *old(self)
                }
            }),
    {
        let rect: SrcRect = match self.ui_state.cut_rect {
            Some(r) => r,
            None => vstd::pervasive::unreached(),
        };
        match &mut self.img {
            Some(bundle) => {
                let res = bundle.cut(&rect);
                if res.is_ok() {
                    self.ui_state.cut_rect = None;
                }
                res
            },
            None => vstd::pervasive::unreached(),
        }
    }
}

impl Default for EcutApp {
    /// A freshly started application: no image, no read in flight, initial
    /// UI state.
    fn default() -> (a: Self)
        ensures
            a.img is None,
            a.read_in_flight == false,
            a.ui_state.is_initial(),
            a.wf(),
    {
        EcutApp { img: None, read_in_flight: false, ui_state: Default::default() }
    }
}

} // verus!
