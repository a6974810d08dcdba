use snapmark_core::annotation::Annotation;
use snapmark_core::annotation::AnnotationKind;
use snapmark_core::annotation::Handle;
use snapmark_core::annotation::StrokeWidth;
use snapmark_core::annotation::TEXT_SIZE_MAX;
use snapmark_core::annotation::TEXT_SIZE_MIN;
use snapmark_core::annotation::TextSize;
use snapmark_core::geom::Point;
use snapmark_core::geom::RectData;

fn rect_annotation(min: Point, max: Point) -> Annotation {
    Annotation {
        id: 1,
        kind: AnnotationKind::Rectangle { rect: RectData { min, max } },
        color: [0, 0, 0, 255],
        stroke_width: StrokeWidth::Medium,
    }
}

#[test]
fn move_rectangle_changes_bounds() {
    let mut annotation = rect_annotation(Point::new(10, 10), Point::new(20, 20));

    annotation.move_by(Point::new(5, -3));
    let bounds = annotation.bounds();
    assert_eq!(bounds.min.x, 11);
    assert_eq!(bounds.min.y, 3);
}

#[test]
fn arrow_band_is_half_the_stroke_width() {
    // Medium stroke is 3 px wide, so at tolerance 0 the hittable band
    // reaches 1.5 units from the line: distance 1 hits, distance 2 misses.
    let annotation = Annotation {
        id: 1,
        kind: AnnotationKind::Arrow { from: Point::new(0, 0), to: Point::new(100, 0) },
        color: [0, 0, 0, 255],
        stroke_width: StrokeWidth::Medium,
    };
    assert!(annotation.contains(Point::new(50, 1), 0));
    assert!(!annotation.contains(Point::new(50, 2), 0));

    // Thin stroke is 2 px wide: the band reaches exactly 1 unit.
    let thin = Annotation {
        id: 2,
        kind: AnnotationKind::Arrow { from: Point::new(0, 0), to: Point::new(100, 0) },
        color: [0, 0, 0, 255],
        stroke_width: StrokeWidth::Thin,
    };
    assert!(thin.contains(Point::new(50, 1), 0));
    assert!(!thin.contains(Point::new(50, 2), 0));
}

#[test]
fn hit_test_arrow_line() {
    let annotation = Annotation {
        id: 1,
        kind: AnnotationKind::Arrow { from: Point::new(0, 0), to: Point::new(100, 0) },
        color: [0, 0, 0, 255],
        stroke_width: StrokeWidth::Medium,
    };

    assert!(annotation.contains(Point::new(50, 1), 2));
    assert!(!annotation.contains(Point::new(50, 20), 2));
}

#[test]
fn text_size_deserializes_legacy_and_numeric() {
    let legacy = TextSize::from_token("M").expect("legacy text size");
    assert_eq!(legacy, TextSize::medium());

    let numeric = TextSize::from_token("10").expect("numeric text size");
    assert_eq!(numeric.as_u8(), 10);

    let clamped = TextSize::from_token("100").expect("clamped text size");
    assert_eq!(clamped.as_u8(), TEXT_SIZE_MAX);
}

#[test]
fn text_size_rejects_garbage_and_clamps_low_values() {
    assert_eq!(TextSize::from_token(""), None);
    assert_eq!(TextSize::from_token("x"), None);
    assert_eq!(TextSize::from_token("12a"), None);
    assert_eq!(TextSize::from_token("1000"), None);
    assert_eq!(TextSize::from_token("s").map(|t| t.as_u8()), Some(14));
    assert_eq!(TextSize::from_token("l").map(|t| t.as_u8()), Some(24));
    assert_eq!(TextSize::from_token("+20").map(|t| t.as_u8()), Some(20));
    assert_eq!(TextSize::from_token("2").map(|t| t.as_u8()), Some(TEXT_SIZE_MIN));
    assert_eq!(TextSize::from_points(3).as_u8(), TEXT_SIZE_MIN);
    assert_eq!(TextSize::from_points(200).as_u8(), TEXT_SIZE_MAX);
    assert_eq!(TextSize::from_points(18).as_u8(), 18);
}

#[test]
fn move_then_move_back_restores_geometry() {
    let original = Annotation {
        id: 3,
        kind: AnnotationKind::ArrowWithText {
            from: Point::new(5, 9),
            to: Point::new(-40, 17),
            text: String::from("note"),
            size: TextSize::medium(),
        },
        color: [1, 2, 3, 4],
        stroke_width: StrokeWidth::Thin,
    };
    let mut moved = original.clone();
    moved.move_by(Point::new(123, -456));
    assert_ne!(moved, original);
    moved.move_by(Point::new(-123, 456));
    assert_eq!(moved, original);
}

#[test]
fn keep_square_resize_forces_equal_sides() {
    let mut annotation = rect_annotation(Point::new(10, 10), Point::new(20, 20));
    annotation.resize_from_handle(Handle::BottomRight, Point::new(42, 25), true);
    match &annotation.kind {
        AnnotationKind::Rectangle { rect } => {
            assert_eq!(rect.min, Point::new(10, 10));
            assert_eq!(rect.max.x - rect.min.x, rect.max.y - rect.min.y);
            assert_eq!(rect.max.x - rect.min.x, 32);
        }
        other => panic!("unexpected kind {:?}", other),
    }
}

#[test]
fn arrow_handles_are_no_ops_for_rectangles() {
    let original = rect_annotation(Point::new(1, 2), Point::new(7, 9));
    let mut touched = original.clone();
    touched.resize_from_handle(Handle::ArrowFrom, Point::new(100, 100), true);
    assert_eq!(touched, original);
}

#[test]
fn edge_handle_moves_one_edge_only() {
    let mut annotation = rect_annotation(Point::new(10, 10), Point::new(20, 20));
    annotation.resize_from_handle(Handle::Right, Point::new(35, 99), false);
    match &annotation.kind {
        AnnotationKind::Rectangle { rect } => {
            assert_eq!(rect.min, Point::new(10, 10));
            assert_eq!(rect.max, Point::new(35, 20));
        }
        other => panic!("unexpected kind {:?}", other),
    }
}

#[test]
fn resize_normalizes_inverted_corners() {
    let mut annotation = rect_annotation(Point::new(10, 10), Point::new(20, 20));
    annotation.resize_from_handle(Handle::TopLeft, Point::new(50, 60), false);
    match &annotation.kind {
        AnnotationKind::Rectangle { rect } => {
            assert_eq!(rect.min, Point::new(20, 20));
            assert_eq!(rect.max, Point::new(50, 60));
        }
        other => panic!("unexpected kind {:?}", other),
    }
}

#[test]
fn rectangle_outline_hits_but_interior_does_not() {
    let annotation = rect_annotation(Point::new(0, 0), Point::new(100, 100));
    // on the outline, and just beside it within tolerance
    assert!(annotation.contains(Point::new(0, 50), 2));
    assert!(annotation.contains(Point::new(101, 50), 2));
    assert!(annotation.contains(Point::new(100, 100), 0));
    // well inside: the filled interior is not hittable
    assert!(!annotation.contains(Point::new(50, 50), 2));
    // well outside
    assert!(!annotation.contains(Point::new(150, 50), 2));
}

#[test]
fn ellipse_ring_hits_boundary_but_not_center() {
    let annotation = Annotation {
        id: 1,
        kind: AnnotationKind::Ellipse {
            rect: RectData { min: Point::new(0, 0), max: Point::new(100, 60) },
        },
        color: [0, 0, 0, 255],
        stroke_width: StrokeWidth::Medium,
    };
    // the rightmost point of the boundary
    assert!(annotation.contains(Point::new(100, 30), 0));
    assert!(annotation.contains(Point::new(100, 30), 4));
    // the center is far from the ring
    assert!(!annotation.contains(Point::new(50, 30), 4));
    // far outside
    assert!(!annotation.contains(Point::new(200, 30), 4));
    // a flat ellipse contains nothing
    let flat = Annotation {
        id: 2,
        kind: AnnotationKind::Ellipse {
            rect: RectData { min: Point::new(0, 0), max: Point::new(100, 0) },
        },
        color: [0, 0, 0, 255],
        stroke_width: StrokeWidth::Medium,
    };
    assert!(!flat.contains(Point::new(50, 0), 4));
}

#[test]
fn text_is_hit_by_its_box() {
    let annotation = Annotation {
        id: 1,
        kind: AnnotationKind::Text {
            pos: Point::new(50, 50),
            content: String::from("hi"),
            size: TextSize::medium(),
        },
        color: [0, 0, 0, 255],
        stroke_width: StrokeWidth::Medium,
    };
    assert!(annotation.contains(Point::new(50, 50), 0));
    assert!(annotation.contains(Point::new(55, 60), 0));
    assert!(annotation.contains(Point::new(48, 50), 2));
    assert!(!annotation.contains(Point::new(50, 200), 2));
}

#[test]
fn handles_follow_the_shape() {
    let annotation = rect_annotation(Point::new(0, 0), Point::new(10, 20));
    let handles = annotation.handles();
    assert_eq!(handles.len(), 8);
    assert_eq!(handles[0], (Handle::TopLeft, Point::new(0, 0)));
    assert_eq!(handles[1], (Handle::Top, Point::new(5, 0)));
    assert_eq!(handles[4], (Handle::BottomRight, Point::new(10, 20)));
    assert_eq!(handles[7], (Handle::Left, Point::new(0, 10)));

    let arrow = Annotation {
        id: 2,
        kind: AnnotationKind::Arrow { from: Point::new(1, 2), to: Point::new(3, 4) },
        color: [0, 0, 0, 255],
        stroke_width: StrokeWidth::Thin,
    };
    let arrow_handles = arrow.handles();
    assert_eq!(arrow_handles.len(), 2);
    assert_eq!(arrow_handles[0], (Handle::ArrowFrom, Point::new(1, 2)));
    assert_eq!(arrow_handles[1], (Handle::ArrowTo, Point::new(3, 4)));

    let text = Annotation {
        id: 3,
        kind: AnnotationKind::Text {
            pos: Point::new(0, 0),
            content: String::new(),
            size: TextSize::medium(),
        },
        color: [0, 0, 0, 255],
        stroke_width: StrokeWidth::Thin,
    };
    assert!(text.handles().is_empty());
}

#[test]
fn stroke_widths_map_to_fixed_pixel_sizes() {
    assert_eq!(StrokeWidth::Thin.px(), 2);
    assert_eq!(StrokeWidth::Medium.px(), 3);
    assert_eq!(StrokeWidth::Thick.px(), 5);
}

#[test]
fn rect_normalize_orders_both_axes() {
    let rect = RectData { min: Point::new(20, 5), max: Point::new(10, 30) };
    let normalized = rect.normalize();
    assert_eq!(normalized.min, Point::new(10, 5));
    assert_eq!(normalized.max, Point::new(20, 30));
}
