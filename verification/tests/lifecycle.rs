//! Tests for the element store lifecycle, the history cap, the crop
//! region controller, the tessellation and the cache.

use annotate::cache::{segments_for, GeometryCache};
use annotate::crop::{CropHandle, CropMode, CropRegionController};
use annotate::element::{Color, DrawingElement, Tool};
use annotate::geom::{Point, Rect};
use annotate::history::HistoryManager;
use annotate::store::ElementStore;

fn pt(x: i64, y: i64) -> Point {
    Point { x, y }
}

fn red() -> Color {
    Color { r: 255, g: 0, b: 0 }
}

fn region() -> Option<Rect> {
    Some(Rect { min: pt(0, 0), max: pt(300, 200) })
}

#[test]
fn rectangle_persistence_threshold() {
    let mut store = ElementStore::new();
    assert!(store.start(Tool::Rectangle, pt(50, 50), region()));
    store.update_current(pt(60, 55), region());
    assert_eq!(store.commit(), None);
    assert_eq!(store.committed.len(), 0);

    assert!(store.start(Tool::Rectangle, pt(50, 50), region()));
    store.update_current(pt(90, 90), region());
    assert_eq!(store.commit(), Some(0));
    assert_eq!(store.committed.len(), 1);
    match &store.committed[0] {
        DrawingElement::Rectangle { start, end, .. } => {
            assert_eq!((start.x, start.y), (50, 50));
            assert_eq!((end.x, end.y), (90, 90));
        }
        _ => panic!("expected a rectangle"),
    }
}

#[test]
fn rectangle_commit_normalizes() {
    let mut store = ElementStore::new();
    assert!(store.start(Tool::Rectangle, pt(90, 90), region()));
    store.update_current(pt(50, 50), region());
    assert_eq!(store.commit(), Some(0));
    match &store.committed[0] {
        DrawingElement::Rectangle { start, end, .. } => {
            assert!(start.x <= end.x && start.y <= end.y);
            assert_eq!((start.x, start.y), (50, 50));
            assert_eq!((end.x, end.y), (90, 90));
        }
        _ => panic!("expected a rectangle"),
    }
}

#[test]
fn tiny_ellipse_discarded() {
    let mut store = ElementStore::new();
    assert!(store.start(Tool::Ellipse, pt(10, 10), region()));
    store.update_current(pt(12, 11), region());
    assert_eq!(store.commit(), None);
    assert_eq!(store.committed.len(), 0);
}

#[test]
fn arrow_persistence_threshold() {
    let mut store = ElementStore::new();
    assert!(store.start(Tool::Arrow, pt(10, 10), region()));
    store.update_current(pt(30, 10), region());
    assert_eq!(store.commit(), None);

    assert!(store.start(Tool::Arrow, pt(10, 10), region()));
    store.update_current(pt(45, 10), region());
    assert_eq!(store.commit(), Some(0));
}

#[test]
fn freehand_keeps_every_sample() {
    let mut store = ElementStore::new();
    assert!(store.start(Tool::Freehand, pt(30, 30), region()));
    store.update_current(pt(31, 31), region());
    store.update_current(pt(31, 31), region());
    store.update_current(pt(32, 30), region());
    assert_eq!(store.commit(), Some(0));
    match &store.committed[0] {
        DrawingElement::Freehand { points, .. } => {
            assert_eq!(points.len(), 4);
            assert_eq!((points[1].x, points[1].y), (31, 31));
            assert_eq!((points[2].x, points[2].y), (31, 31));
        }
        _ => panic!("expected a freehand stroke"),
    }
}

#[test]
fn drawing_outside_region_is_ignored() {
    let mut store = ElementStore::new();
    assert!(!store.start(Tool::Rectangle, pt(400, 50), region()));
    assert!(!store.start(Tool::Rectangle, pt(50, 50), None));
    assert!(store.start(Tool::Rectangle, pt(50, 50), region()));
    store.update_current(pt(400, 400), region());
    assert_eq!(store.commit(), None);
    assert_eq!(store.committed.len(), 0);
}

#[test]
fn blank_text_not_persisted() {
    let mut store = ElementStore::new();
    assert!(store.start(Tool::Text, pt(20, 20), region()));
    let blanks = vec![' ', '\n', '\t'];
    store.set_text_content(&blanks);
    assert_eq!(store.commit(), None);

    assert!(store.start(Tool::Text, pt(20, 20), region()));
    let hi = vec![' ', 'h', 'i'];
    store.set_text_content(&hi);
    assert_eq!(store.commit(), Some(0));
    match &store.committed[0] {
        DrawingElement::Text { content, is_editing, .. } => {
            assert_eq!(content.len(), 3);
            assert!(!is_editing);
        }
        _ => panic!("expected a text"),
    }
}

#[test]
fn history_cap_holds() {
    let mut h = HistoryManager::new();
    let live: Vec<DrawingElement> = Vec::new();
    for _ in 0..55 {
        h.snapshot(&live);
    }
    assert_eq!(h.undo_stack.len(), 50);
    assert_eq!(h.redo_stack.len(), 0);
}

#[test]
fn history_undo_redo_restores() {
    let mut h = HistoryManager::new();
    let mut live: Vec<DrawingElement> = Vec::new();
    h.snapshot(&live);
    live.push(DrawingElement::Rectangle {
        start: pt(50, 50),
        end: pt(90, 90),
        color: red(),
        thickness: 2,
    });
    assert!(h.undo(&mut live));
    assert_eq!(live.len(), 0);
    assert!(h.redo(&mut live));
    assert_eq!(live.len(), 1);
    match &live[0] {
        DrawingElement::Rectangle { start, .. } => assert_eq!((start.x, start.y), (50, 50)),
        _ => panic!("expected a rectangle"),
    }
    assert!(!h.redo(&mut live));
}

#[test]
fn crop_creation_and_clamping() {
    let mut c = CropRegionController::new(300, 200);
    c.begin(pt(0, 0));
    assert_eq!(c.mode, CropMode::Creating);
    c.update(pt(300, 250));
    let r = c.region.unwrap();
    assert_eq!((r.min.x, r.min.y, r.max.x, r.max.y), (0, 0, 300, 200));
    assert!(c.release());
    assert!(c.finalized);
}

#[test]
fn crop_tiny_drag_not_kept() {
    let mut c = CropRegionController::new(300, 200);
    c.begin(pt(10, 10));
    c.update(pt(15, 15));
    assert!(c.region.is_none());
    assert!(!c.release());
    assert!(!c.finalized);
}

#[test]
fn crop_move_slides_along_boundary() {
    let mut c = CropRegionController::new(300, 200);
    c.begin(pt(10, 10));
    c.update(pt(110, 110));
    assert!(c.release());
    c.move_by(1000, 0);
    let r = c.region.unwrap();
    assert_eq!((r.min.x, r.min.y, r.max.x, r.max.y), (200, 10, 300, 110));
    c.move_by(-20, -1000);
    let r = c.region.unwrap();
    assert_eq!((r.min.x, r.min.y, r.max.x, r.max.y), (180, 0, 280, 100));
}

#[test]
fn crop_resize_keeps_minimum() {
    let mut c = CropRegionController::new(300, 200);
    c.begin(pt(0, 0));
    c.update(pt(100, 100));
    assert!(c.release());
    c.resize(CropHandle::MiddleRight, pt(4, 50));
    let r = c.region.unwrap();
    assert_eq!((r.min.x, r.max.x), (0, 20));
    assert_eq!((r.min.y, r.max.y), (0, 100));
    c.resize(CropHandle::TopLeft, pt(90, 90));
    let r = c.region.unwrap();
    assert_eq!((r.min.x, r.max.x), (20, 90));
    assert_eq!((r.min.y, r.max.y), (80, 100));
}

#[test]
fn crop_resize_crossover_swaps() {
    let mut c = CropRegionController::new(300, 200);
    c.begin(pt(0, 0));
    c.update(pt(100, 100));
    assert!(c.release());
    c.resize(CropHandle::MiddleRight, pt(40, 50));
    let r = c.region.unwrap();
    assert_eq!((r.min.x, r.max.x), (0, 40));
    c.resize(CropHandle::MiddleLeft, pt(200, 50));
    let r = c.region.unwrap();
    assert_eq!((r.min.x, r.max.x), (40, 200));
}

#[test]
fn crop_press_modes() {
    let mut c = CropRegionController::new(300, 200);
    c.begin(pt(50, 50));
    c.update(pt(150, 150));
    assert!(c.release());
    c.press(pt(50, 50));
    assert_eq!(c.mode, CropMode::Resizing(CropHandle::TopLeft));
    c.release();
    c.press(pt(100, 100));
    assert_eq!(c.mode, CropMode::Moving);
    c.release();
    c.press(pt(10, 10));
    assert_eq!(c.mode, CropMode::Idle);
    c.reset();
    assert!(c.region.is_none());
    assert!(!c.finalized);
}

#[test]
fn rectangle_segments() {
    let rect = DrawingElement::Rectangle {
        start: pt(10, 20),
        end: pt(30, 40),
        color: red(),
        thickness: 2,
    };
    let segs = segments_for(&rect);
    assert_eq!(segs.len(), 4);
    assert_eq!((segs[0].a.x, segs[0].a.y, segs[0].b.x, segs[0].b.y), (10, 20, 30, 20));
    assert_eq!((segs[1].a.x, segs[1].a.y, segs[1].b.x, segs[1].b.y), (30, 20, 30, 40));
    assert_eq!((segs[2].a.x, segs[2].a.y, segs[2].b.x, segs[2].b.y), (30, 40, 10, 40));
    assert_eq!((segs[3].a.x, segs[3].a.y, segs[3].b.x, segs[3].b.y), (10, 40, 10, 20));
}

#[test]
fn arrow_segments_with_head() {
    let short = DrawingElement::Arrow {
        start: pt(0, 0),
        end: pt(1, 0),
        color: red(),
        thickness: 2,
    };
    assert_eq!(segments_for(&short).len(), 1);

    let arrow = DrawingElement::Arrow {
        start: pt(0, 0),
        end: pt(100, 0),
        color: red(),
        thickness: 2,
    };
    let segs = segments_for(&arrow);
    assert_eq!(segs.len(), 3);
    assert_eq!((segs[0].a.x, segs[0].a.y, segs[0].b.x, segs[0].b.y), (0, 0, 100, 0));
    assert_eq!((segs[1].a.x, segs[1].a.y), (100, 0));
    assert_eq!((segs[1].b.x, segs[1].b.y), (85, -8));
    assert_eq!((segs[2].b.x, segs[2].b.y), (85, 8));
}

#[test]
fn ellipse_segments_polygon() {
    let ell = DrawingElement::Ellipse {
        center: pt(100, 100),
        radius_x: 50,
        radius_y: 30,
        color: red(),
        thickness: 2,
    };
    let segs = segments_for(&ell);
    assert_eq!(segs.len(), 32);
    assert_eq!((segs[0].a.x, segs[0].a.y), (150, 100));
    assert_eq!((segs[31].b.x, segs[31].b.y), (150, 100));
    assert_eq!((segs[8].a.x, segs[8].a.y), (100, 130));
    assert_eq!((segs[16].a.x, segs[16].a.y), (50, 100));
    assert_eq!((segs[24].a.x, segs[24].a.y), (100, 70));
}

#[test]
fn freehand_and_text_segments() {
    let stroke = DrawingElement::Freehand {
        points: vec![pt(0, 0), pt(5, 5), pt(9, 2)],
        color: red(),
        thickness: 2,
    };
    let segs = segments_for(&stroke);
    assert_eq!(segs.len(), 2);
    assert_eq!((segs[1].a.x, segs[1].a.y, segs[1].b.x, segs[1].b.y), (5, 5, 9, 2));
    let lone = DrawingElement::Freehand { points: vec![pt(3, 3)], color: red(), thickness: 2 };
    assert_eq!(segments_for(&lone).len(), 0);
    let text = DrawingElement::Text {
        position: pt(0, 0),
        content: vec!['x'],
        font_size: 24,
        is_editing: false,
        color: red(),
    };
    assert_eq!(segments_for(&text).len(), 0);
}

#[test]
fn cache_serves_and_recomputes() {
    let mut cache = GeometryCache::new();
    let rect = DrawingElement::Rectangle {
        start: pt(10, 20),
        end: pt(30, 40),
        color: red(),
        thickness: 2,
    };
    let first = cache.vertices_for(&rect);
    let second = cache.vertices_for(&rect);
    assert_eq!(first.len(), second.len());
    assert_eq!((second[0].a.x, second[0].a.y), (10, 20));
    cache.invalidate(&rect);
    let third = cache.vertices_for(&rect);
    assert_eq!((third[2].a.x, third[2].a.y), (30, 40));
    cache.invalidate_all();
    let fourth = cache.vertices_for(&rect);
    assert_eq!(fourth.len(), 4);
}
