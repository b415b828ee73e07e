use ecut::SrcPos;
use ecut::SrcRect;
use ecut::UiState;
use ecut::candidate_rect;

#[test]
fn candidate_rect_down_right() {
    let r = candidate_rect(SrcPos { x: 10, y: 10 }, SrcPos { x: 50, y: 40 });
    assert_eq!(r, SrcRect { x: 10, y: 10, w: 40, h: 30 });
}

#[test]
fn candidate_rect_up_left_is_zero() {
    let r = candidate_rect(SrcPos { x: 50, y: 40 }, SrcPos { x: 10, y: 10 });
    assert_eq!(r, SrcRect { x: 50, y: 40, w: 0, h: 0 });
}

#[test]
fn candidate_rect_mixed_axes() {
    // right of the origin but above it: only the width grows
    let r = candidate_rect(SrcPos { x: 5, y: 9 }, SrcPos { x: 8, y: 3 });
    assert_eq!(r, SrcRect { x: 5, y: 9, w: 3, h: 0 });
    // left of the origin but below it: only the height grows
    let r = candidate_rect(SrcPos { x: 5, y: 3 }, SrcPos { x: 2, y: 9 });
    assert_eq!(r, SrcRect { x: 5, y: 3, w: 0, h: 6 });
}

#[test]
fn drag_down_right_yields_rect() {
    let mut s = UiState::default();
    s.observe_pointer(SrcPos { x: 10, y: 10 }, true, true, false);
    s.observe_pointer(SrcPos { x: 50, y: 40 }, true, true, false);
    assert_eq!(s.cut_rect, Some(SrcRect { x: 10, y: 10, w: 40, h: 30 }));
}

#[test]
fn drag_up_left_yields_zero_rect() {
    let mut s = UiState::default();
    s.observe_pointer(SrcPos { x: 50, y: 40 }, true, true, false);
    s.observe_pointer(SrcPos { x: 10, y: 10 }, true, true, false);
    assert_eq!(s.cut_rect, Some(SrcRect { x: 50, y: 40, w: 0, h: 0 }));
}

#[test]
fn release_clears_origin() {
    let mut s = UiState::default();
    s.observe_pointer(SrcPos { x: 10, y: 10 }, true, true, false);
    assert_eq!(s.click_origin, Some(SrcPos { x: 10, y: 10 }));
    s.observe_pointer(SrcPos { x: 123, y: 7 }, false, false, true);
    assert_eq!(s.click_origin, None);
}

#[test]
fn press_after_release_starts_fresh() {
    let mut s = UiState::default();
    s.observe_pointer(SrcPos { x: 10, y: 10 }, true, true, false);
    s.observe_pointer(SrcPos { x: 20, y: 20 }, true, true, false);
    s.observe_pointer(SrcPos { x: 20, y: 20 }, true, false, true);
    // next pointer-down starts a fresh rectangle at the new position
    s.observe_pointer(SrcPos { x: 30, y: 5 }, true, true, false);
    assert_eq!(s.click_origin, Some(SrcPos { x: 30, y: 5 }));
    assert_eq!(s.cut_rect, Some(SrcRect { x: 30, y: 5, w: 0, h: 0 }));
}

#[test]
fn idle_frames_keep_last_candidate() {
    let mut s = UiState::default();
    s.observe_pointer(SrcPos { x: 1, y: 2 }, true, true, false);
    s.observe_pointer(SrcPos { x: 9, y: 8 }, true, true, false);
    s.observe_pointer(SrcPos { x: 9, y: 8 }, false, false, true);
    // the last candidate persists after release, wherever the pointer goes
    s.observe_pointer(SrcPos { x: 200, y: 300 }, false, false, false);
    assert_eq!(s.cut_rect, Some(SrcRect { x: 1, y: 2, w: 8, h: 6 }));
    assert_eq!(s.img_cursor_pos, Some(SrcPos { x: 200, y: 300 }));
}

#[test]
fn pointer_down_while_dragging_keeps_origin() {
    let mut s = UiState::default();
    s.observe_pointer(SrcPos { x: 4, y: 4 }, true, true, false);
    // still down on a later frame: the origin is not recaptured
    s.observe_pointer(SrcPos { x: 6, y: 9 }, true, true, false);
    assert_eq!(s.click_origin, Some(SrcPos { x: 4, y: 4 }));
    assert_eq!(s.cut_rect, Some(SrcRect { x: 4, y: 4, w: 2, h: 5 }));
}
