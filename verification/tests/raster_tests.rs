use va::buffer2d::{Buffer2d, Buffer2dRead, Buffer2dWrite};
use va::glyph_render::{
    compute_direction, outline_row_crossings, outline_row_spans, CrossingKind, GlyphRender,
    Outline, SweepDirection,
};
use va::rasterizate::SimpleRasterizate;
use va::rect::Rect;
use va::vector2::Vec2;
use va::vector4::Vec4;

fn rgba(v: u8) -> Vec4<u8> {
    Vec4::new(v, v, v, 255)
}

fn pixel(buffer: &Buffer2d<Vec4<u8>>, x: usize, y: usize) -> Vec4<u8> {
    buffer.value(Vec2::new(x, y))
}

fn square(points: &[(i32, i32)]) -> Vec<Vec2<i32>> {
    points.iter().map(|&(x, y)| Vec2::new(x, y)).collect()
}

#[test]
fn winding_clockwise_square() {
    // A square traced clockwise on a y-down screen, from each start vertex.
    let pts = [(0, 0), (10, 0), (10, 10), (0, 10)];
    for start in 0..4 {
        let rotated: Vec<Vec2<i32>> = (0..4)
            .map(|i| {
                let (x, y) = pts[(start + i) % 4];
                Vec2::new(x, y)
            })
            .collect();
        assert_eq!(compute_direction(&rotated), SweepDirection::Clockwise);
    }
}

#[test]
fn winding_reversal_flips() {
    let cw = square(&[(0, 0), (10, 0), (10, 10), (0, 10)]);
    let ccw: Vec<Vec2<i32>> = cw.iter().rev().copied().collect();
    assert_eq!(compute_direction(&cw), SweepDirection::Clockwise);
    assert_eq!(compute_direction(&ccw), SweepDirection::Counterclockwise);
}

#[test]
fn scanline_two_crossings_off_vertex() {
    // A row through no vertex of a simple polygon crosses it exactly twice.
    let pts = square(&[(0, 0), (10, 0), (10, 10), (0, 10)]);
    let crossings = outline_row_crossings(&pts, 5);
    assert_eq!(crossings.len(), 2);
    assert!(matches!(crossings[0].kind, CrossingKind::Both));
    assert!(matches!(crossings[1].kind, CrossingKind::Both));
    assert_eq!(crossings[0].x, 0);
    assert_eq!(crossings[1].x, 10);

    let tri = square(&[(2, 1), (9, 2), (5, 8)]);
    let crossings = outline_row_crossings(&tri, 5);
    assert_eq!(crossings.len(), 2);
}

#[test]
fn scanline_vertex_touch_merges() {
    // A row through a pass-through vertex counts it once.
    let pts = square(&[(0, 0), (10, 5), (0, 10)]);
    let crossings = outline_row_crossings(&pts, 5);
    assert_eq!(crossings.len(), 2);
}

#[test]
fn row_spans_shrink() {
    let pts = square(&[(0, 0), (10, 0), (10, 10), (0, 10)]);
    let spans = outline_row_spans(&pts, 5, false);
    assert_eq!(spans, vec![(0, 10)]);
    let spans = outline_row_spans(&pts, 5, true);
    assert_eq!(spans, vec![(1, 9)]);
}

#[test]
fn rasterize_square_fills_region() {
    // The fixed convention: the filled region includes both edge columns
    // and rows, here [0, 10] in both axes, leaving the last row and
    // column of a 12x12 buffer untouched.
    let bg = rgba(0);
    let fg = rgba(255);
    let mut buffer = Buffer2d::new(Vec2::new(12usize, 12usize), bg);
    let outline = Outline {
        direction: SweepDirection::Clockwise,
        points: square(&[(0, 0), (10, 0), (10, 10), (0, 10)]),
    };
    let render = GlyphRender {
        outlines: vec![outline],
    };
    render.rasterizate(&mut buffer, fg, rgba(0));
    for y in 0..12 {
        for x in 0..12 {
            let expected = if x <= 10 && y <= 10 { fg } else { bg };
            assert_eq!(pixel(&buffer, x, y), expected, "pixel ({}, {})", x, y);
        }
    }
}

#[test]
fn rasterize_horizontal_only_outline_is_empty() {
    // All points on one row: no fill anywhere, and no panic.
    let bg = rgba(7);
    let mut buffer = Buffer2d::new(Vec2::new(12usize, 12usize), bg);
    let outline = Outline {
        direction: compute_direction(&square(&[(0, 5), (10, 5)])),
        points: square(&[(0, 5), (10, 5)]),
    };
    let render = GlyphRender {
        outlines: vec![outline],
    };
    render.rasterizate(&mut buffer, rgba(255), rgba(0));
    for y in 0..12 {
        for x in 0..12 {
            assert_eq!(pixel(&buffer, x, y), bg);
        }
    }
}

#[test]
fn rasterize_hole_punching() {
    // A clockwise outer square and a counter-clockwise inner square
    // sharing a center: the ring is filled, the inner region is painted
    // with the hole value (here the background), leaving it as
    // background.
    let bg = rgba(0);
    let fg = rgba(255);
    let mut buffer = Buffer2d::new(Vec2::new(12usize, 12usize), bg);
    let outer = Outline {
        direction: SweepDirection::Clockwise,
        points: square(&[(0, 0), (10, 0), (10, 10), (0, 10)]),
    };
    let inner_points = square(&[(3, 3), (3, 7), (7, 7), (7, 3)]);
    assert_eq!(
        compute_direction(&inner_points),
        SweepDirection::Counterclockwise
    );
    let inner = Outline {
        direction: SweepDirection::Counterclockwise,
        points: inner_points,
    };
    let render = GlyphRender {
        outlines: vec![outer, inner],
    };
    render.rasterizate(&mut buffer, fg, bg);
    // Ring samples.
    assert_eq!(pixel(&buffer, 1, 1), fg);
    assert_eq!(pixel(&buffer, 5, 1), fg);
    assert_eq!(pixel(&buffer, 9, 9), fg);
    assert_eq!(pixel(&buffer, 1, 5), fg);
    // The hole interior is background again.
    assert_eq!(pixel(&buffer, 5, 5), bg);
    assert_eq!(pixel(&buffer, 5, 4), bg);
    assert_eq!(pixel(&buffer, 6, 6), bg);
    // Outside the outer square.
    assert_eq!(pixel(&buffer, 11, 11), bg);
}

#[test]
fn rasterize_convex_containment() {
    // The centroid pixel of a convex polygon is filled; a pixel far
    // outside its bounding box keeps the background.
    let bg = rgba(0);
    let fg = rgba(200);
    let mut buffer = Buffer2d::new(Vec2::new(16usize, 16usize), bg);
    let tri_points = square(&[(2, 1), (9, 2), (5, 8)]);
    let tri = Outline {
        direction: compute_direction(&tri_points),
        points: tri_points,
    };
    let render = GlyphRender {
        outlines: vec![tri],
    };
    render.rasterizate(&mut buffer, fg, rgba(0));
    // Centroid of (2,1), (9,2), (5,8) is about (5.3, 3.7).
    assert_eq!(pixel(&buffer, 5, 4), fg);
    assert_eq!(pixel(&buffer, 14, 14), bg);
    assert_eq!(pixel(&buffer, 0, 12), bg);
}

#[test]
fn buffer_basics() {
    let mut buffer = Buffer2d::new(Vec2::new(4usize, 3usize), 0u32);
    assert_eq!(buffer.width(), 4);
    assert_eq!(buffer.height(), 3);
    assert_eq!(buffer.size(), Vec2::new(4usize, 3usize));
    assert_eq!(buffer.buffer().len(), 12);

    buffer.set_value(Vec2::new(2usize, 1usize), 9);
    assert_eq!(buffer.value(Vec2::new(2usize, 1usize)), 9);
    assert_eq!(buffer.value(Vec2::new(0usize, 0usize)), 0);

    let items: Vec<u8> = (0..6).collect();
    let buffer = Buffer2d::from_iter(Vec2::new(3usize, 2usize), items);
    assert_eq!(buffer.value(Vec2::new(2usize, 1usize)), 5);

    let slice = buffer.slice(Rect::new(Vec2::new(1usize, 0usize), Vec2::new(3usize, 2usize)));
    assert_eq!(slice.width(), 2);
    assert_eq!(slice.height(), 2);
    assert_eq!(slice.value(Vec2::new(0usize, 0usize)), 1);
    assert_eq!(slice.value(Vec2::new(1usize, 1usize)), 5);
    let whole = buffer.as_slice();
    assert_eq!(whole.value(Vec2::new(0usize, 1usize)), 3);
    assert_eq!(whole.buffer2d().value(Vec2::new(0usize, 0usize)), 0);
}

#[test]
fn buffer_to_bytes() {
    let mut buffer = Buffer2d::new(Vec2::new(2usize, 1usize), Vec4::new(1u8, 2, 3, 4));
    buffer.set_value(Vec2::new(1usize, 0usize), Vec4::new(9u8, 8, 7, 6));
    assert_eq!(buffer.to_r8g8b8a8(), vec![1, 2, 3, 4, 9, 8, 7, 6]);
}

#[test]
fn drawing_primitives() {
    let mut buffer = Buffer2d::new(Vec2::new(8usize, 8usize), 0u8);
    buffer.fill(3);
    assert_eq!(pixel_u8(&buffer, 0, 0), 3);
    assert_eq!(pixel_u8(&buffer, 7, 7), 3);

    buffer.draw_point(Vec2::new(2, 2), 9);
    assert_eq!(pixel_u8(&buffer, 2, 2), 9);
    // Out-of-bounds writes are dropped.
    buffer.draw_point(Vec2::new(-1, 2), 9);
    buffer.draw_point(Vec2::new(2, 8), 9);

    assert_eq!(buffer.pixel(Vec2::new(2, 2)), Some(9));
    assert_eq!(buffer.pixel(Vec2::new(-1, 2)), None);
    assert_eq!(buffer.pixel(Vec2::new(8, 0)), None);

    buffer.draw_horizontal_line(6, 1, 4, 5);
    for x in 1..=6 {
        assert_eq!(pixel_u8(&buffer, x, 4), 5);
    }
    assert_eq!(pixel_u8(&buffer, 0, 4), 3);
    assert_eq!(pixel_u8(&buffer, 7, 4), 3);
    // A span pointing outside is clipped.
    buffer.draw_horizontal_line(-5, 2, 0, 6);
    for x in 0..=2 {
        assert_eq!(pixel_u8(&buffer, x, 0), 6);
    }
    buffer.draw_horizontal_line(0, 7, -1, 6);
    buffer.draw_horizontal_line(0, 7, 8, 6);

    let mut buffer = Buffer2d::new(Vec2::new(8usize, 8usize), 0u8);
    buffer.draw_line(Vec2::new(0, 0), Vec2::new(7, 7), 1);
    for i in 0..8 {
        assert_eq!(pixel_u8(&buffer, i, i), 1);
    }
    assert_eq!(pixel_u8(&buffer, 0, 1), 0);
    // A line partly outside only paints its in-bounds pixels.
    let mut buffer = Buffer2d::new(Vec2::new(4usize, 4usize), 0u8);
    buffer.draw_line(Vec2::new(-2, 1), Vec2::new(5, 1), 2);
    for x in 0..4 {
        assert_eq!(pixel_u8(&buffer, x, 1), 2);
    }
}

fn pixel_u8(buffer: &Buffer2d<u8>, x: usize, y: usize) -> u8 {
    buffer.value(Vec2::new(x, y))
}
