use va::line::{intersect, is_crossing_line_segments, Line, LinePointsIter};
use va::rect::{PointGeometry, Rect};
use va::vector2::Vec2;

#[test]
fn test_intersect() {
    let line = Line::new(10, 20);
    let points = vec![1, 4, 9, 10, 11, 15, 17, 18, 20, 21, 22];
    let result = [Line::new(12, 14), Line::new(16, 16), Line::new(19, 19)];

    let r = intersect(line, &points);

    assert_eq!(r.len(), result.len());
    assert_eq!(
        r.into_iter()
            .zip(result.into_iter())
            .find(|(l1, l2)| *l1 != *l2),
        None
    );
}

#[test]
fn test_intersect_no_points() {
    let line = Line::new(3, 7);
    let r = intersect(line, &vec![]);
    assert_eq!(r, vec![Line::new(3, 7)]);
}

#[test]
fn test_intersect_all_covered() {
    let line = Line::new(1, 3);
    let r = intersect(line, &vec![1, 2, 3]);
    assert!(r.is_empty());
}

#[test]
fn rect_initialization() {
    let rect: Rect<i32> = Rect::new(Vec2::new(0, 0), Vec2::new(0, 0));
    assert_eq!(
        rect,
        Rect {
            p1: Vec2::new(0, 0),
            p2: Vec2::new(0, 0),
        }
    );

    assert_eq!(rect, Rect::default());

    let rect: Rect<i32> = Rect::default();
    let rect: Rect<i64> = rect.into();
    let _: Rect<i32> = rect.try_into().unwrap();
}

#[test]
fn rect_line_segment_inside() {
    let rect = Rect::new(Vec2::new(0, 0), Vec2::new(10, 10));
    assert!(rect.is_line_segment_inside(Vec2::new(0, 0), Vec2::new(10, 10)));
    assert!(rect.is_line_segment_inside(Vec2::new(3, 4), Vec2::new(5, 6)));
    assert!(!rect.is_line_segment_inside(Vec2::new(3, 4), Vec2::new(5, 11)));
    assert!(!rect.is_line_segment_inside(Vec2::new(-1, 4), Vec2::new(5, 6)));
}

#[test]
fn point_inside_box() {
    let rect = Rect::new(Vec2::new(0, 0), Vec2::new(4, 4));
    assert!(Vec2::new(0, 0).is_inside_box(rect));
    assert!(Vec2::new(4, 4).is_inside_box(rect));
    assert!(Vec2::new(2, 3).is_inside_box(rect));
    assert!(!Vec2::new(5, 3).is_inside_box(rect));
    assert!(!Vec2::new(2, -1).is_inside_box(rect));
}

#[test]
fn crossing_line_segments() {
    assert!(is_crossing_line_segments(
        Vec2::new(0, 0),
        Vec2::new(10, 0),
        Vec2::new(2, 2),
        Vec2::new(8, -2),
    ));
    assert!(is_crossing_line_segments(
        Vec2::new(137, 0),
        Vec2::new(141, -1),
        Vec2::new(0, 0),
        Vec2::new(300, 0),
    ));
    // Parallel segments never cross.
    assert!(!is_crossing_line_segments(
        Vec2::new(0, 0),
        Vec2::new(10, 0),
        Vec2::new(0, 1),
        Vec2::new(10, 1),
    ));
    // Disjoint segments on crossing support lines.
    assert!(!is_crossing_line_segments(
        Vec2::new(0, 0),
        Vec2::new(1, 1),
        Vec2::new(10, 0),
        Vec2::new(10, 5),
    ));
}

#[test]
fn line_points_walk() {
    let mut it = LinePointsIter::new(Vec2::new(0, 0), Vec2::new(4, 2));
    let mut pts = Vec::new();
    while let Some(p) = it.next() {
        pts.push((p.x, p.y));
    }
    assert_eq!(pts.len(), 5);
    assert_eq!(pts[0], (0, 0));
    assert_eq!(pts[4], (4, 2));
    for w in pts.windows(2) {
        assert_eq!(w[1].0 - w[0].0, 1);
        assert!(w[1].1 - w[0].1 <= 1);
        assert!(w[1].1 >= w[0].1);
    }
}
