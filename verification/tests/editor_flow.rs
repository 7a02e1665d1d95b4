//! End-to-end scenarios through the editor facade: crop creation,
//! drawing, selection with handles, moving, undo/redo, corner
//! retyping and the text-input sub-mode.

use annotate::editor::{DrawingState, Editor, Press, Release, TextKey};
use annotate::element::DrawingElement;
use annotate::geom::Point;
use annotate::selection::HandleKind;

fn pt(x: i64, y: i64) -> Point {
    Point { x, y }
}

/// Sets up a 300 x 200 viewport with the crop region spanning
/// `(0,0)-(300,200)`.
fn editor_with_region() -> Editor {
    let mut ed = Editor::new(300, 200);
    assert_eq!(ed.pointer_pressed(pt(0, 0), 0), Press::CropPressed);
    ed.pointer_moved(pt(300, 200));
    assert_eq!(ed.pointer_released(), Release::CropReleased(true));
    let r = ed.crop.region.unwrap();
    assert_eq!((r.min.x, r.min.y, r.max.x, r.max.y), (0, 0, 300, 200));
    ed
}

/// Draws a rectangle from `(50,50)` to `(150,120)` and releases.
fn draw_rect(ed: &mut Editor) {
    ed.set_tool(annotate::element::Tool::Rectangle);
    assert_eq!(ed.pointer_pressed(pt(50, 50), 10), Press::DrawStarted);
    ed.pointer_moved(pt(150, 120));
    assert_eq!(ed.pointer_released(), Release::DrawFinished(Some(0)));
}

#[test]
fn scenario_create_and_select() {
    let mut ed = editor_with_region();
    draw_rect(&mut ed);
    assert_eq!(ed.store.committed.len(), 1);
    let sel = ed.selected.as_ref().expect("the new element is selected");
    assert_eq!(sel.index, 0);
    assert_eq!(sel.handles.len(), 8);
    let expect = [
        (HandleKind::TopLeft, 50, 50),
        (HandleKind::TopCenter, 100, 50),
        (HandleKind::TopRight, 150, 50),
        (HandleKind::MiddleLeft, 50, 85),
        (HandleKind::MiddleRight, 150, 85),
        (HandleKind::BottomLeft, 50, 120),
        (HandleKind::BottomCenter, 100, 120),
        (HandleKind::BottomRight, 150, 120),
    ];
    for (i, (kind, x, y)) in expect.iter().enumerate() {
        assert_eq!(ed.selected.as_ref().unwrap().handles[i].kind, *kind);
        assert_eq!(ed.selected.as_ref().unwrap().handles[i].position.x, *x);
        assert_eq!(ed.selected.as_ref().unwrap().handles[i].position.y, *y);
    }
    assert_eq!(ed.state, DrawingState::Editing);
}

fn rect_coords(e: &DrawingElement) -> (i64, i64, i64, i64) {
    match e {
        DrawingElement::Rectangle { start, end, .. } => (start.x, start.y, end.x, end.y),
        _ => panic!("expected a rectangle"),
    }
}

#[test]
fn scenario_undo_after_move() {
    let mut ed = editor_with_region();
    draw_rect(&mut ed);
    assert_eq!(ed.pointer_pressed(pt(100, 100), 20), Press::ElementGrabbed(0));
    ed.pointer_moved(pt(120, 110));
    assert_eq!(ed.pointer_released(), Release::MoveEnded);
    assert_eq!(rect_coords(&ed.store.committed[0]), (70, 60, 170, 130));
    assert!(ed.undo());
    assert_eq!(rect_coords(&ed.store.committed[0]), (50, 50, 150, 120));
    assert!(ed.redo());
    assert_eq!(rect_coords(&ed.store.committed[0]), (70, 60, 170, 130));
}

#[test]
fn scenario_discard_tiny_ellipse() {
    let mut ed = editor_with_region();
    ed.set_tool(annotate::element::Tool::Ellipse);
    assert_eq!(ed.pointer_pressed(pt(10, 10), 0), Press::DrawStarted);
    ed.pointer_moved(pt(12, 11));
    assert_eq!(ed.pointer_released(), Release::DrawFinished(None));
    assert_eq!(ed.store.committed.len(), 0);
}

#[test]
fn scenario_corner_retype() {
    let mut ed = editor_with_region();
    draw_rect(&mut ed);
    assert_eq!(ed.pointer_pressed(pt(50, 50), 30), Press::HandleDragStarted(0));
    assert_eq!(ed.dragging.as_ref().unwrap().kind, HandleKind::TopLeft);
    ed.pointer_moved(pt(200, 200));
    assert_eq!(ed.dragging.as_ref().unwrap().kind, HandleKind::BottomRight);
    assert_eq!(rect_coords(&ed.store.committed[0]), (50, 50, 200, 200));
    assert_eq!(ed.pointer_released(), Release::DragEnded);
    assert!(ed.dragging.is_none());
}

#[test]
fn ellipse_drag_keeps_radii_positive() {
    let mut ed = editor_with_region();
    ed.set_tool(annotate::element::Tool::Ellipse);
    assert_eq!(ed.pointer_pressed(pt(100, 100), 0), Press::DrawStarted);
    ed.pointer_moved(pt(140, 130));
    assert_eq!(ed.pointer_released(), Release::DrawFinished(Some(0)));
    // Grab the middle-right handle and drag onto the center line.
    assert_eq!(ed.pointer_pressed(pt(140, 100), 10), Press::HandleDragStarted(4));
    ed.pointer_moved(pt(100, 100));
    match &ed.store.committed[0] {
        DrawingElement::Ellipse { radius_x, radius_y, .. } => {
            assert_eq!(*radius_x, 5);
            assert_eq!(*radius_y, 30);
        }
        _ => panic!("expected an ellipse"),
    }
}

#[test]
fn rectangle_never_collapses_under_drags() {
    let mut ed = editor_with_region();
    draw_rect(&mut ed);
    // Dragging the right edge past the left one floors the width.
    assert_eq!(ed.pointer_pressed(pt(150, 85), 40), Press::HandleDragStarted(4));
    ed.pointer_moved(pt(51, 85));
    let (sx, sy, ex, ey) = rect_coords(&ed.store.committed[0]);
    assert!(sx + 5 <= ex && sy + 5 <= ey);
    assert_eq!((sx, sy, ex, ey), (50, 50, 55, 120));
    // Crossing over swaps the edges.
    ed.pointer_moved(pt(40, 85));
    let (sx, sy, ex, ey) = rect_coords(&ed.store.committed[0]);
    assert_eq!((sx, sy, ex, ey), (40, 50, 50, 120));
}

#[test]
fn text_input_commit_and_reedit() {
    let mut ed = editor_with_region();
    ed.set_tool(annotate::element::Tool::Text);
    assert_eq!(ed.pointer_pressed(pt(20, 20), 0), Press::DrawStarted);
    assert!(ed.text.is_some());
    assert_eq!(ed.on_text_key(TextKey::Char('h')), None);
    assert_eq!(ed.on_text_key(TextKey::Char('i')), None);
    assert_eq!(ed.on_text_key(TextKey::Finish), Some(0));
    assert!(ed.text.is_none());
    match &ed.store.committed[0] {
        DrawingElement::Text { content, is_editing, .. } => {
            assert_eq!(content.as_slice(), &['h', 'i']);
            assert!(!is_editing);
        }
        _ => panic!("expected a text"),
    }
    // A single click selects; a double click within the thresholds
    // re-opens the element for editing.
    assert_eq!(ed.pointer_pressed(pt(25, 30), 1000), Press::ElementGrabbed(0));
    assert_eq!(ed.pointer_released(), Release::MoveEnded);
    assert_eq!(ed.pointer_pressed(pt(25, 30), 1200), Press::TextEditStarted(0));
    assert_eq!(ed.store.committed.len(), 0);
    assert_eq!(ed.text.as_ref().unwrap().buffer.as_slice(), &['h', 'i']);
    assert_eq!(ed.on_text_key(TextKey::Char('!')), None);
    assert_eq!(ed.on_text_key(TextKey::Finish), Some(0));
    match &ed.store.committed[0] {
        DrawingElement::Text { content, .. } => {
            assert_eq!(content.as_slice(), &['h', 'i', '!']);
        }
        _ => panic!("expected a text"),
    }
}

#[test]
fn text_cancel_discards() {
    let mut ed = editor_with_region();
    ed.set_tool(annotate::element::Tool::Text);
    assert_eq!(ed.pointer_pressed(pt(20, 20), 0), Press::DrawStarted);
    assert_eq!(ed.on_text_key(TextKey::Char('x')), None);
    assert_eq!(ed.on_text_key(TextKey::Cancel), None);
    assert!(ed.text.is_none());
    assert_eq!(ed.store.committed.len(), 0);
    assert_eq!(ed.state, DrawingState::Idle);
}

#[test]
fn blank_text_release_is_discarded() {
    let mut ed = editor_with_region();
    ed.set_tool(annotate::element::Tool::Text);
    assert_eq!(ed.pointer_pressed(pt(20, 20), 0), Press::DrawStarted);
    assert_eq!(ed.on_text_key(TextKey::Char(' ')), None);
    assert_eq!(ed.on_text_key(TextKey::Finish), None);
    assert_eq!(ed.store.committed.len(), 0);
}

#[test]
fn text_newline_and_cursor_lines() {
    let mut ed = editor_with_region();
    ed.set_tool(annotate::element::Tool::Text);
    assert_eq!(ed.pointer_pressed(pt(20, 20), 0), Press::DrawStarted);
    for c in ['a', 'b'] {
        ed.on_text_key(TextKey::Char(c));
    }
    ed.on_text_key(TextKey::Newline);
    for c in ['c', 'd', 'e'] {
        ed.on_text_key(TextKey::Char(c));
    }
    assert_eq!(ed.text.as_ref().unwrap().cursor, 6);
    ed.on_text_key(TextKey::Up);
    assert_eq!(ed.text.as_ref().unwrap().cursor, 2);
    ed.on_text_key(TextKey::Down);
    assert_eq!(ed.text.as_ref().unwrap().cursor, 5);
    ed.on_text_key(TextKey::Left);
    assert_eq!(ed.text.as_ref().unwrap().cursor, 4);
    ed.on_text_key(TextKey::Backspace);
    assert_eq!(ed.text.as_ref().unwrap().buffer.as_slice(), &['a', 'b', '\n', 'd', 'e']);
    ed.on_text_key(TextKey::Right);
    assert_eq!(ed.text.as_ref().unwrap().cursor, 4);
}

#[test]
fn undo_redo_empty_are_noops() {
    let mut ed = Editor::new(300, 200);
    assert!(!ed.undo());
    assert!(!ed.redo());
    assert!(!ed.can_undo());
    assert!(!ed.can_redo());
}

#[test]
fn draw_blocked_outside_region() {
    let mut ed = editor_with_region();
    ed.set_tool(annotate::element::Tool::Rectangle);
    assert_eq!(ed.pointer_pressed(pt(400, 100), 0), Press::DrawBlocked);
    assert_eq!(ed.store.committed.len(), 0);
    assert!(ed.store.current.is_none());
}

#[test]
fn move_selected_translates_and_snapshots() {
    let mut ed = editor_with_region();
    draw_rect(&mut ed);
    assert!(ed.move_selected(7, -3));
    assert_eq!(rect_coords(&ed.store.committed[0]), (57, 47, 157, 117));
    let sel = ed.selected.as_ref().unwrap();
    assert_eq!((sel.handles[0].position.x, sel.handles[0].position.y), (57, 47));
    assert!(ed.undo());
    assert_eq!(rect_coords(&ed.store.committed[0]), (50, 50, 150, 120));
    let mut empty = Editor::new(300, 200);
    assert!(!empty.move_selected(5, 5));
}

#[test]
fn remove_element_snapshots() {
    let mut ed = editor_with_region();
    draw_rect(&mut ed);
    assert!(!ed.remove_element(5));
    assert!(ed.remove_element(0));
    assert_eq!(ed.store.committed.len(), 0);
    assert!(ed.undo());
    assert_eq!(ed.store.committed.len(), 1);
}

#[test]
fn reset_region_clears_crop() {
    let mut ed = editor_with_region();
    draw_rect(&mut ed);
    ed.reset_region();
    assert!(ed.crop.region.is_none());
    assert!(!ed.crop.finalized);
    assert!(ed.selected.is_none());
    // The committed drawings survive a region reset.
    assert_eq!(ed.store.committed.len(), 1);
}

#[test]
fn editor_vertices_served() {
    let mut ed = editor_with_region();
    draw_rect(&mut ed);
    let segs = ed.vertices_for(0).expect("cached segments");
    assert_eq!(segs.len(), 4);
    assert_eq!((segs[0].a.x, segs[0].a.y), (50, 50));
    assert!(ed.vertices_for(7).is_none());
    assert!(ed.take_redraw());
    assert!(!ed.take_redraw());
}

#[test]
fn persistence_threshold_via_editor() {
    let mut ed = editor_with_region();
    ed.set_tool(annotate::element::Tool::Rectangle);
    assert_eq!(ed.pointer_pressed(pt(50, 50), 0), Press::DrawStarted);
    ed.pointer_moved(pt(60, 60));
    assert_eq!(ed.pointer_released(), Release::DrawFinished(None));
    assert_eq!(ed.store.committed.len(), 0);
    assert_eq!(ed.pointer_pressed(pt(50, 50), 5), Press::DrawStarted);
    ed.pointer_moved(pt(80, 80));
    assert_eq!(ed.pointer_released(), Release::DrawFinished(Some(0)));
    assert_eq!(ed.store.committed.len(), 1);
}
