//! Exact-value tests for the geometric predicates, the coordinate
//! mapping, the text metrics and the timing policies.

use annotate::coords::{px_to_ndc_x_milli, px_to_ndc_y_milli};
use annotate::geom::{
    abs_diff, clamp_coord, clamp_i64, ellipse_contains, isqrt_u64, max_i64, min_i64,
    point_in_aabb, seg_within, within_dist, Point, Rect,
};
use annotate::policy::{is_double_click, should_flush};
use annotate::selection::{
    dynamic_handle_kind, hit_test_element, hit_test_handle, normalize_rectangle, Handle,
    HandleKind,
};
use annotate::element::{measure_content, text_box_size, Color, DrawingElement};

fn pt(x: i64, y: i64) -> Point {
    Point { x, y }
}

fn red() -> Color {
    Color { r: 255, g: 0, b: 0 }
}

#[test]
fn clamping_basics() {
    assert_eq!(clamp_i64(5, 0, 10), 5);
    assert_eq!(clamp_i64(-5, 0, 10), 0);
    assert_eq!(clamp_i64(15, 0, 10), 10);
    assert_eq!(clamp_coord(2_000_000_000), 1_000_000_000);
    assert_eq!(clamp_coord(-2_000_000_000), -1_000_000_000);
    assert_eq!(clamp_coord(42), 42);
    assert_eq!(abs_diff(3, 10), 7);
    assert_eq!(abs_diff(10, 3), 7);
    assert_eq!(min_i64(2, -3), -3);
    assert_eq!(max_i64(2, -3), 2);
}

#[test]
fn integer_square_root() {
    assert_eq!(isqrt_u64(0), 0);
    assert_eq!(isqrt_u64(1), 1);
    assert_eq!(isqrt_u64(2), 1);
    assert_eq!(isqrt_u64(899), 29);
    assert_eq!(isqrt_u64(900), 30);
    assert_eq!(isqrt_u64(8_000_000_000_000_000_000), 2_828_427_124);
}

#[test]
fn ellipse_containment_exact() {
    let c = pt(100, 100);
    assert!(ellipse_contains(c, c, 30, 20));
    assert!(ellipse_contains(pt(130, 100), c, 30, 20));
    assert!(!ellipse_contains(pt(131, 100), c, 30, 20));
    assert!(ellipse_contains(pt(100, 120), c, 30, 20));
    assert!(!ellipse_contains(pt(100, 121), c, 30, 20));
    assert!(!ellipse_contains(pt(121, 116), c, 30, 20));
    assert!(!ellipse_contains(c, c, 0, 20));
    assert!(!ellipse_contains(c, c, 30, -1));
}

#[test]
fn segment_distance_exact() {
    let a = pt(0, 0);
    let b = pt(100, 0);
    assert!(seg_within(pt(50, 10), a, b, 10));
    assert!(!seg_within(pt(50, 11), a, b, 10));
    assert!(seg_within(pt(-5, 0), a, b, 10));
    assert!(!seg_within(pt(-11, 0), a, b, 10));
    assert!(seg_within(pt(108, 6), a, b, 10));
    assert!(!seg_within(pt(108, 7), a, b, 10));
    assert!(!seg_within(pt(0, 0), a, a, 10));
}

#[test]
fn point_distance_and_boxes() {
    assert!(within_dist(pt(6, 8), pt(0, 0), 10));
    assert!(!within_dist(pt(7, 8), pt(0, 0), 10));
    assert!(point_in_aabb(pt(5, 5), 0, 0, 10, 10));
    assert!(!point_in_aabb(pt(11, 5), 0, 0, 10, 10));
    let r = Rect { min: pt(0, 0), max: pt(300, 200) };
    assert!(r.contains(pt(300, 200)));
    assert!(!r.contains(pt(301, 200)));
}

#[test]
fn rectangle_normalization_exact() {
    let (s, e) = normalize_rectangle(pt(10, 20), pt(5, 8));
    assert_eq!((s.x, s.y), (5, 8));
    assert_eq!((e.x, e.y), (10, 20));
    let (s, e) = normalize_rectangle(pt(5, 5), pt(5, 5));
    assert_eq!((s.x, s.y), (5, 5));
    assert_eq!((e.x, e.y), (10, 10));
    let (s, e) = normalize_rectangle(pt(7, 7), pt(5, 5));
    assert_eq!((s.x, s.y), (5, 5));
    assert_eq!((e.x, e.y), (10, 10));
}

#[test]
fn corner_handle_retyping() {
    let s = pt(50, 50);
    let e = pt(150, 120);
    assert_eq!(
        dynamic_handle_kind(HandleKind::TopLeft, pt(200, 200), s, e),
        HandleKind::BottomRight
    );
    assert_eq!(
        dynamic_handle_kind(HandleKind::TopLeft, pt(10, 10), s, e),
        HandleKind::TopLeft
    );
    assert_eq!(
        dynamic_handle_kind(HandleKind::BottomRight, pt(60, 60), s, e),
        HandleKind::TopLeft
    );
    assert_eq!(
        dynamic_handle_kind(HandleKind::TopLeft, pt(200, 10), s, e),
        HandleKind::TopRight
    );
    assert_eq!(
        dynamic_handle_kind(HandleKind::TopCenter, pt(200, 200), s, e),
        HandleKind::TopCenter
    );
}

#[test]
fn handle_hit_radius() {
    let h = Handle { kind: HandleKind::TopLeft, position: pt(100, 100), size: 16, owner_index: 0 };
    assert!(hit_test_handle(pt(100, 108), &h));
    assert!(!hit_test_handle(pt(100, 109), &h));
    assert!(hit_test_handle(pt(105, 106), &h));
    assert!(!hit_test_handle(pt(106, 106), &h));
}

#[test]
fn element_hit_tests() {
    let rect = DrawingElement::Rectangle {
        start: pt(50, 50),
        end: pt(150, 120),
        color: red(),
        thickness: 2,
    };
    assert!(hit_test_element(pt(100, 85), &rect));
    assert!(hit_test_element(pt(50, 50), &rect));
    assert!(!hit_test_element(pt(49, 50), &rect));
    assert!(!hit_test_element(pt(400, 400), &rect));

    let ell = DrawingElement::Ellipse {
        center: pt(100, 100),
        radius_x: 30,
        radius_y: 20,
        color: red(),
        thickness: 2,
    };
    assert!(hit_test_element(pt(100, 100), &ell));
    assert!(!hit_test_element(pt(131, 100), &ell));

    let arrow = DrawingElement::Arrow {
        start: pt(0, 0),
        end: pt(100, 0),
        color: red(),
        thickness: 2,
    };
    assert!(hit_test_element(pt(50, 10), &arrow));
    assert!(!hit_test_element(pt(50, 11), &arrow));

    let stroke = DrawingElement::Freehand {
        points: vec![pt(0, 0), pt(10, 10)],
        color: red(),
        thickness: 2,
    };
    assert!(!hit_test_element(pt(0, 0), &stroke));

    let text = DrawingElement::Text {
        position: pt(10, 10),
        content: vec!['h', 'i'],
        font_size: 24,
        is_editing: false,
        color: red(),
    };
    // Box width floors at 100, height is 24 * 6 / 5 = 28, and the
    // hit box is padded by 8 on every side.
    assert!(hit_test_element(pt(10, 10), &text));
    assert!(hit_test_element(pt(2, 2), &text));
    assert!(!hit_test_element(pt(1, 2), &text));
    assert!(hit_test_element(pt(118, 46), &text));
    assert!(!hit_test_element(pt(119, 46), &text));
    assert!(!hit_test_element(pt(10, 47), &text));
    let empty_text = DrawingElement::Text {
        position: pt(10, 10),
        content: Vec::new(),
        font_size: 24,
        is_editing: true,
        color: red(),
    };
    assert!(!hit_test_element(pt(10, 10), &empty_text));
}

#[test]
fn text_measurements() {
    let content = vec!['a', 'b', '\n', 'c', 'd', 'e', 'f'];
    let (lines, longest) = measure_content(&content);
    assert_eq!(lines, 2);
    assert_eq!(longest, 4);
    let (w, h) = text_box_size(&content, 24);
    assert_eq!(w, 100);
    assert_eq!(h, 56);
    let long_line: Vec<char> = (0..20).map(|_| 'x').collect();
    let (w2, h2) = text_box_size(&long_line, 24);
    assert_eq!(w2, 20 * 24 * 6 / 10);
    assert_eq!(h2, 28);
    let (w3, _) = text_box_size(&Vec::new(), 24);
    assert_eq!(w3, 100);
}

#[test]
fn ndc_mapping_exact() {
    assert_eq!(px_to_ndc_x_milli(0, 100), -1000);
    assert_eq!(px_to_ndc_x_milli(50, 100), 0);
    assert_eq!(px_to_ndc_x_milli(100, 100), 1000);
    assert_eq!(px_to_ndc_x_milli(25, 100), -500);
    assert_eq!(px_to_ndc_y_milli(0, 100), 1000);
    assert_eq!(px_to_ndc_y_milli(100, 100), -1000);
    assert_eq!(px_to_ndc_y_milli(75, 100), -500);
}

#[test]
fn flush_throttle() {
    assert!(!should_flush(100, 90, true));
    assert!(should_flush(104, 90, true));
    assert!(!should_flush(120, 90, false));
    assert!(should_flush(123, 90, false));
    assert!(!should_flush(80, 90, true));
}

#[test]
fn double_click_policy() {
    let last = Some((1000u64, pt(100, 100)));
    assert!(is_double_click(1400, pt(106, 108), last));
    assert!(!is_double_click(1501, pt(100, 100), last));
    assert!(!is_double_click(1400, pt(107, 108), last));
    assert!(!is_double_click(1400, pt(100, 100), None));
}
