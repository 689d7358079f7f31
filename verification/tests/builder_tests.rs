use va::buffer2d::{Buffer2d, Buffer2dRead};
use va::curve::subdivide_quad_curve;
use va::glyph_render::{GlyphRenderBuilder, SweepDirection};
use va::idvector::IdVector;
use va::matrix3x3::Mat3x3;
use va::mesh::Mesh;
use va::font::CharInfo;
use va::rect::Rect;
use va::vector2::Vec2;
use va::vector4::Vec4;
use va::window::WindowBuilder;

const FIXED_ONE: i64 = 65536;

fn identity_transform() -> Mat3x3<i64> {
    Mat3x3::new([FIXED_ONE, 0, 0, 0, FIXED_ONE, 0, 0, 0, FIXED_ONE])
}

#[test]
fn builder_square_outline() {
    let mut builder = GlyphRenderBuilder::new(identity_transform());
    assert!(!builder.was_closed());
    builder.move_to(Vec2::new(0, 0));
    builder.line_to(Vec2::new(10, 0));
    builder.line_to(Vec2::new(10, 10));
    builder.line_to(Vec2::new(0, 10));
    builder.line_to(Vec2::new(0, 0));
    builder.close();
    assert!(builder.was_closed());

    let render = builder.build();
    assert_eq!(render.outlines.len(), 1);
    assert_eq!(render.outlines[0].direction, SweepDirection::Clockwise);
    assert_eq!(
        render.outlines[0].points,
        vec![
            Vec2::new(10, 0),
            Vec2::new(10, 10),
            Vec2::new(0, 10),
            Vec2::new(0, 0),
        ]
    );
}

#[test]
fn builder_discards_degenerate() {
    let mut builder = GlyphRenderBuilder::new(identity_transform());
    builder.move_to(Vec2::new(0, 0));
    builder.line_to(Vec2::new(4, 4));
    builder.close();
    let render = builder.build();
    assert!(render.outlines.is_empty());
}

#[test]
fn builder_scaled_transform() {
    // A transform that doubles x and translates y by three pixels.
    let transform = Mat3x3::new([
        2 * FIXED_ONE,
        0,
        0,
        0,
        FIXED_ONE,
        3 * FIXED_ONE,
        0,
        0,
        FIXED_ONE,
    ]);
    let mut builder = GlyphRenderBuilder::new(transform);
    builder.move_to(Vec2::new(0, 0));
    builder.line_to(Vec2::new(5, 1));
    builder.line_to(Vec2::new(1, 2));
    builder.close();
    let render = builder.build();
    assert_eq!(render.outlines.len(), 1);
    assert_eq!(
        render.outlines[0].points,
        vec![Vec2::new(10, 4), Vec2::new(2, 5)]
    );
}

#[test]
fn builder_quad_renders_curve() {
    let mut builder = GlyphRenderBuilder::new(identity_transform());
    builder.move_to(Vec2::new(0, 0));
    builder.quad_to(Vec2::new(5, 10), Vec2::new(10, 0));
    builder.line_to(Vec2::new(0, 0));
    builder.close();
    let render = builder.build();
    assert_eq!(render.outlines.len(), 1);
    let pts = &render.outlines[0].points;
    assert!(pts.len() >= 3);
    // The curve's end point lands exactly.
    assert!(pts.contains(&Vec2::new(10, 0)));
    // Curve interior points stay within the control hull.
    for p in pts {
        assert!(p.x >= 0 && p.x <= 10);
        assert!(p.y >= 0 && p.y <= 10);
    }
}

#[test]
fn builder_cubic_renders_curve() {
    let mut builder = GlyphRenderBuilder::new(identity_transform());
    builder.move_to(Vec2::new(0, 0));
    builder.curve_to(Vec2::new(3, 9), Vec2::new(7, 9), Vec2::new(10, 0));
    builder.line_to(Vec2::new(0, 0));
    builder.close();
    let render = builder.build();
    assert_eq!(render.outlines.len(), 1);
    let pts = &render.outlines[0].points;
    assert!(pts.len() >= 3);
    assert!(pts.contains(&Vec2::new(10, 0)));
}

#[test]
fn builder_end_to_end_raster() {
    let mut builder = GlyphRenderBuilder::new(identity_transform());
    builder.move_to(Vec2::new(0, 0));
    builder.line_to(Vec2::new(10, 0));
    builder.line_to(Vec2::new(10, 10));
    builder.line_to(Vec2::new(0, 10));
    builder.line_to(Vec2::new(0, 0));
    builder.close();
    let render = builder.build();
    let bg = Vec4::new(0u8, 0, 0, 255);
    let fg = Vec4::new(255u8, 255, 255, 255);
    let mut buffer = Buffer2d::new(Vec2::new(12usize, 12usize), bg);
    render.rasterizate(&mut buffer, fg, bg);
    assert_eq!(buffer.value(Vec2::new(5usize, 5usize)), fg);
    assert_eq!(buffer.value(Vec2::new(11usize, 11usize)), bg);
}

/// The quadratic flattening keeps every chord within the tolerance of a
/// tenth of a pixel of the true curve, across straight, sharply curved
/// and degenerate control configurations.
#[test]
fn quad_flattening_tolerance() {
    // Control points in subpixels (256 per pixel).
    let cases = [
        // Straight line.
        ((0, 0), (1280, 1280), (2560, 2560)),
        // Gentle arc, ten pixels wide.
        ((0, 0), (1280, 2560), (2560, 0)),
        // Sharply curved.
        ((0, 0), (5120, 20480), (10240, 0)),
        // Control point coincides with the start.
        ((0, 0), (0, 0), (2560, 1280)),
        // Control point coincides with the end.
        ((0, 0), (2560, 1280), (2560, 1280)),
    ];
    for &(p0, p1, p2) in cases.iter() {
        let a = Vec2::new(p0.0 as i64, p0.1 as i64);
        let b = Vec2::new(p1.0 as i64, p1.1 as i64);
        let c = Vec2::new(p2.0 as i64, p2.1 as i64);
        let flat = subdivide_quad_curve(a, b, c);
        let n = flat.len();
        // Chain the start point in front.
        let mut chain = vec![(a.x as f64, a.y as f64)];
        chain.extend(flat.iter().map(|p| (p.x as f64, p.y as f64)));
        let curve = |t: f64| {
            let u = 1.0 - t;
            (
                u * u * (a.x as f64) + 2.0 * t * u * (b.x as f64) + t * t * (c.x as f64),
                u * u * (a.y as f64) + 2.0 * t * u * (b.y as f64) + t * t * (c.y as f64),
            )
        };
        let mut max_d: f64 = 0.0;
        for seg in 0..n {
            let (x1, y1) = chain[seg];
            let (x2, y2) = chain[seg + 1];
            for s in 0..=20 {
                let t = (seg as f64 + s as f64 / 20.0) / n as f64;
                let (cx, cy) = curve(t);
                // Distance from (cx, cy) to the segment.
                let (dx, dy) = (x2 - x1, y2 - y1);
                let len2 = dx * dx + dy * dy;
                let d = if len2 == 0.0 {
                    ((cx - x1).powi(2) + (cy - y1).powi(2)).sqrt()
                } else {
                    let tt = (((cx - x1) * dx + (cy - y1) * dy) / len2).clamp(0.0, 1.0);
                    let (px, py) = (x1 + tt * dx, y1 + tt * dy);
                    ((cx - px).powi(2) + (cy - py).powi(2)).sqrt()
                };
                if d > max_d {
                    max_d = d;
                }
            }
        }
        // Tolerance: a tenth of a pixel = 25.6 subpixels, plus half a
        // subpixel of rounding in the stored points.
        assert!(
            max_d <= 25.6 + 0.75,
            "distance {} for case {:?}",
            max_d,
            (p0, p1, p2)
        );
    }
}

#[test]
fn idvector_recycles_slots() {
    let mut v: IdVector<u32> = IdVector::new();
    let a = v.push(10);
    let b = v.push(20);
    assert_eq!(a, 0);
    assert_eq!(b, 1);
    assert_eq!(*v.get(a), 10);
    v.erase(a);
    let c = v.push(30);
    assert_eq!(c, a);
    assert_eq!(*v.get(c), 30);
    assert_eq!(*v.get(b), 20);
}

#[test]
fn mesh_holds_vertices() {
    let mesh = Mesh::new(vec![1u8, 2, 3]);
    assert_eq!(mesh.vertices(), &vec![1u8, 2, 3]);
}

#[test]
fn char_info_box() {
    let info = CharInfo::new(Rect::new(Vec2::new(1, 2), Vec2::new(3, 4)));
    assert_eq!(info.bounding_box, Rect::new(Vec2::new(1, 2), Vec2::new(3, 4)));
}

#[test]
fn window_builder_chain() {
    let builder = WindowBuilder::new()
        .with_inner_size(640, 480)
        .with_title("atlas preview");
    assert_eq!(builder.width, 640);
    assert_eq!(builder.height, 480);
    assert_eq!(builder.title, "atlas preview");
}
