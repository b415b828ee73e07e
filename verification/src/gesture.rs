//! The gesture-to-rectangle tracker: turns a pointer drag over the
//! displayed image into a candidate rectangle in source-pixel coordinates.
//! The tracker's state is the drag origin, or nothing while idle.

use vstd::prelude::*;
use crate::geom::SrcPos;
use crate::geom::SrcRect;

verus! {

/// The rectangle a drag from `origin` to `current` selects: anchored at the
/// origin, extending right and down to the current position. On an axis
/// where the pointer sits left of or above the origin the extent is 0 —
/// never a wrapped-around difference.
pub open spec fn candidate_rect_spec(origin: SrcPos, current: SrcPos) -> SrcRect {
    SrcRect {
        x: origin.x,
        y: origin.y,
        w: if origin.x <= current.x {
            (current.x - origin.x) as u16
        } else {
            0
        },
        h: if origin.y <= current.y {
            (current.y - origin.y) as u16
        } else {
            0
        },
    }
}

/// Derives the candidate rectangle of a drag from `origin` to `current`,
/// guarding each axis against underflow: dragging up or left of the origin
/// gives extent 0 on that axis.
pub fn candidate_rect(origin: SrcPos, current: SrcPos) -> (r: SrcRect)
    ensures
        r == candidate_rect_spec(origin, current),
{
    let w: u16 = if origin.x <= current.x {
        current.x - origin.x
    } else {
        0
    };
    let h: u16 = if origin.y <= current.y {
        current.y - origin.y
    } else {
        0
    };
    SrcRect { x: origin.x, y: origin.y, w, h }
}

/// The drag origin after one frame of pointer input at `pos`: a
/// pointer-down over the image starts a gesture when none is under way, and
/// a release ends the gesture, wherever the pointer is.
pub open spec fn next_origin(
    origin: Option<SrcPos>,
    pos: SrcPos,
    over_image: bool,
    any_down: bool,
    any_released: bool,
) -> Option<SrcPos> {
    let started = if over_image && any_down && origin is None {
        Some(pos)
    } else {
        origin
    };
    if any_released {
        None
    } else {
        started
    }
}

/// The candidate rectangle after one frame with the pointer at `pos`: while
/// a gesture is under way it is re-derived from the gesture's origin; an
/// idle frame leaves the last candidate in place.
pub open spec fn next_cut_rect(prev: Option<SrcRect>, origin: Option<SrcPos>, pos: SrcPos) -> Option<
    SrcRect,
> {
    match origin {
        Some(o) => Some(candidate_rect_spec(o, pos)),
        None => prev,
    }
}

/// Releasing the pointer ends the gesture, whatever else the frame reports
/// and wherever the pointer is: no origin is recorded afterwards.
pub proof fn lemma_release_clears_origin(
    origin: Option<SrcPos>,
    pos: SrcPos,
    over_image: bool,
    any_down: bool,
)
    ensures
        next_origin(origin, pos, over_image, any_down, true) is None,
{
}

/// After a release, the next pointer-down over the image starts a fresh
/// gesture at the new position, whatever gesture came before: the candidate
/// rectangle it derives is anchored there, with zero extent until the
/// pointer moves.
pub proof fn lemma_press_after_release_starts_fresh(
    origin: Option<SrcPos>,
    prev_rect: Option<SrcRect>,
    release_pos: SrcPos,
    release_over: bool,
    release_down: bool,
    press_pos: SrcPos,
)
    ensures
        ({
            let cleared = next_origin(origin, release_pos, release_over, release_down, true);
            let fresh = next_origin(cleared, press_pos, true, true, false);
            fresh == Some(press_pos) && next_cut_rect(prev_rect, fresh, press_pos) == Some(
                SrcRect { x: press_pos.x, y: press_pos.y, w: 0, h: 0 },
            )
        }),
{
}

} // verus!
