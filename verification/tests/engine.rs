use chart_engine::chart::{ChartType, Color, Frame, curve_viewport, generate, sample_curve};
use chart_engine::mapper::CoordinateMapper;
use chart_engine::point::{Point, Rotation};
use chart_engine::session::{Chart, ChartError};
use chart_engine::viewport::Rect;

const IDENTITY: Rotation = Rotation { cos: 1000, sin: 0 };

fn default_session() -> Chart {
    Chart::new(800, 600).expect("canvas large enough")
}

#[test]
fn point_translate_adds_components() {
    let p = Point::init(1500, -2500).translate(Point::init(500, 700));
    assert_eq!(p, Point { x: 2000, y: -1800 });
}

#[test]
fn point_rotate_quarter_turn() {
    // vector1 = (1, 0) rotated by a right angle: cos 0, sin 1.
    let p = Point::init(1000, 0).rotate(Rotation { cos: 0, sin: 1000 });
    assert_eq!(p, Point { x: 0, y: 1000 });
}

#[test]
fn point_rotate_thirty_degrees() {
    let p = Point::init(1000, 0).rotate(Rotation { cos: 866, sin: 500 });
    assert_eq!(p, Point { x: 866, y: 500 });
}

#[test]
fn point_scale_doubles() {
    let p = Point::init(1000, 0).scale(2000);
    assert_eq!(p, Point { x: 2000, y: 0 });
}

#[test]
fn point_scale_truncates_toward_zero() {
    let p = Point::init(-3, 3).scale(500);
    assert_eq!(p, Point { x: -1, y: 1 });
}

#[test]
fn viewport_translate_then_inverse_restores() {
    let original = Rect { x: -7000, y: 11_000, width: 5000, height: 9000 };
    let mut r = original;
    r.translate(Point::init(123_456, -654_321));
    r.translate(Point::init(-123_456, 654_321));
    assert_eq!(r, original);
}

#[test]
fn viewport_scale_zero_factor_gives_zero_width() {
    let mut r = Rect { x: -7000, y: 11_000, width: 5000, height: 9000 };
    r.scale(Point::init(0, 1500));
    assert_eq!(r, Rect { x: -7000, y: 11_000, width: 0, height: 13_500 });
}

#[test]
fn viewport_bounds_order() {
    let r = Rect { x: -7000, y: 11_000, width: 5000, height: 9000 };
    assert_eq!(r.bounds(), (-7000, -2000, 11_000, 20_000));
}

#[test]
fn session_new_small_canvas_fails() {
    assert!(matches!(Chart::new(50, 600), Err(ChartError::GeometryConstruction)));
    assert!(matches!(Chart::new(800, 100), Err(ChartError::GeometryConstruction)));
}

#[test]
fn session_new_default_viewport() {
    let session = default_session();
    assert_eq!(
        session.get_viewport(),
        Rect { x: -100_000, y: -100_000, width: 200_000, height: 200_000 }
    );
}

#[test]
fn session_scale_zero_update_fails_mapper_retained() {
    let mut session = default_session();
    session.update().expect("default viewport renders");
    let before = session.coord(400, 300);
    session.scale(Point::init(0, 1000));
    assert_eq!(session.get_viewport().width, 0);
    assert_eq!(session.update().unwrap_err(), ChartError::GeometryConstruction);
    // The prior mapper is intact: the same pixel still answers the same.
    assert_eq!(session.coord(400, 300), before);
}

#[test]
fn session_out_of_range_viewport_update_fails() {
    let mut session = default_session();
    session.translate(Point::init(2_000_000_000, 0));
    assert_eq!(session.update().unwrap_err(), ChartError::GeometryConstruction);
}

fn fixed_curve_frame() -> Frame {
    let vp = Rect { x: -10_000, y: -10_000, width: 20_000, height: 20_000 };
    generate(ChartType::ComplexCurve, &vp, Point::init(0, 0), Point::init(0, 0), IDENTITY)
}

#[test]
fn curve_sampling_deterministic() {
    let vp = Rect { x: -10_000, y: -10_000, width: 20_000, height: 20_000 };
    let first = sample_curve(&vp);
    let second = sample_curve(&vp);
    assert_eq!(first, second);
}

#[test]
fn curve_sampling_fixed_viewport_values() {
    let vp = Rect { x: -10_000, y: -10_000, width: 20_000, height: 20_000 };
    let pts = sample_curve(&vp);
    // Samples step by 20 quanta; the parabola is visible for |x| <= 3162,
    // which the grid meets at the 317 even multiples of 20 in [-3160, 3160].
    assert_eq!(pts.len(), 317);
    assert_eq!(pts[0], Point { x: -3160, y: 9985 });
    assert_eq!(pts[316], Point { x: 3160, y: 9985 });
    for w in pts.windows(2) {
        assert_eq!(w[1].x - w[0].x, 20);
    }
    for p in &pts {
        assert!(-10_000 < p.y && p.y < 10_000);
        assert_eq!(p.y, (p.x * p.x) / 1000);
    }
}

#[test]
fn curve_frame_layout() {
    let frame = fixed_curve_frame();
    assert_eq!(frame.x_labels, 3);
    assert_eq!(frame.y_labels, 3);
    assert_eq!(frame.markers.len(), 0);
    assert_eq!(frame.polylines.len(), 1);
    assert!(matches!(frame.polylines[0].color, Color::Black));
    let vp = Rect { x: -10_000, y: -10_000, width: 20_000, height: 20_000 };
    assert_eq!(frame.polylines[0].points, sample_curve(&vp));
}

#[test]
fn vector_translate_frame_markers() {
    let vp = Rect { x: -100_000, y: -100_000, width: 200_000, height: 200_000 };
    let frame = generate(
        ChartType::VectorTranslate,
        &vp,
        Point::init(1000, 2000),
        Point::init(3000, 4000),
        IDENTITY,
    );
    assert_eq!(frame.polylines.len(), 0);
    assert_eq!(frame.markers.len(), 2);
    assert_eq!(
        frame.markers[0],
        chart_engine::chart::Marker {
            at: Point { x: 1000, y: 2000 },
            radius: 5,
            filled: true,
            color: Color::Red,
        }
    );
    assert_eq!(
        frame.markers[1],
        chart_engine::chart::Marker {
            at: Point { x: 4000, y: 6000 },
            radius: 5,
            filled: true,
            color: Color::Green,
        }
    );
}

#[test]
fn session_vector_rotate_quarter_turn() {
    let mut session = default_session();
    session.set_variant(ChartType::VectorRotate);
    session.set_vector1(Point::init(1000, 0));
    // The angle itself (a quarter turn) lives in vector2; the session takes
    // its resolved cosine and sine.
    session.set_vector2(Point::init(1571, 0));
    session.set_rotation(Rotation { cos: 0, sin: 1000 });
    let frame = session.update().expect("valid viewport");
    assert_eq!(frame.markers[1].at, Point { x: 0, y: 1000 });
}

#[test]
fn session_vector_scale_doubles() {
    let mut session = default_session();
    session.set_variant(ChartType::VectorScale);
    session.set_vector1(Point::init(1000, 0));
    session.set_vector2(Point::init(2000, 0));
    let frame = session.update().expect("valid viewport");
    assert_eq!(frame.markers[1].at, Point { x: 2000, y: 0 });
}

#[test]
fn mapper_layout_for_canvas() {
    let vp = Rect { x: -100_000, y: -100_000, width: 200_000, height: 200_000 };
    let m = CoordinateMapper::build(&vp, 800, 600);
    assert_eq!((m.px_left, m.px_right, m.px_top, m.px_bottom), (60, 770, 50, 540));
    assert_eq!((m.chart_x, m.chart_y, m.chart_w, m.chart_h), (-100_000, -100_000, 200_000, 200_000));
}

#[test]
fn coord_center_of_plot_area() {
    let mut session = default_session();
    session.update().expect("valid viewport");
    // Pixel (415, 295) is the center of the 60..770 x 50..540 plot area.
    assert_eq!(session.coord(415, 295), Some(Point { x: 0, y: 0 }));
}

#[test]
fn coord_out_of_area_pixels_are_none() {
    let mut session = default_session();
    session.update().expect("valid viewport");
    assert_eq!(session.coord(0, 0), None);
    assert_eq!(session.coord(59, 300), None); // inside the y-label strip
    assert_eq!(session.coord(771, 300), None); // inside the right margin
    assert_eq!(session.coord(400, 49), None); // inside the caption strip
    assert_eq!(session.coord(400, 541), None); // inside the x-label strip
    assert_eq!(session.coord(-5, -5), None);
    assert!(session.coord(60, 50).is_some());
    assert!(session.coord(770, 540).is_some());
}

#[test]
fn coord_round_trip_within_one_pixel() {
    let mut session = default_session();
    session.update().expect("valid viewport");
    for sx in [60, 61, 100, 333, 415, 500, 769, 770] {
        for sy in [50, 51, 120, 295, 333, 539, 540] {
            let p = session.coord(sx, sy).expect("in plot area");
            // Re-project through the forward transform of the same layout.
            let fx = 60 + ((p.x - -100_000) * (770 - 60)) / 200_000;
            let fy = 540 - ((p.y - -100_000) * (540 - 50)) / 200_000;
            assert!((fx - sx as i64).abs() <= 1, "x drifted: {sx} -> {fx}");
            assert!((fy - sy as i64).abs() <= 1, "y drifted: {sy} -> {fy}");
        }
    }
}

#[test]
fn curve_viewport_from_zoom() {
    // zoom of one unit: half-extent 500 units plus the one-unit widening.
    let vp = curve_viewport(1000);
    assert_eq!(vp, Rect { x: -501_000, y: -501_000, width: 1_002_000, height: 1_002_000 });
    // a huge zoom collapses the window to the widening alone.
    let vp = curve_viewport(1_000_000_000);
    assert_eq!(vp, Rect { x: -1000, y: -1000, width: 2000, height: 2000 });
}

#[test]
fn point_default_is_origin() {
    assert_eq!(Point::default(), Point { x: 0, y: 0 });
}

#[test]
fn session_curve_update_returns_polyline() {
    let mut session = default_session();
    session.set_variant(ChartType::ComplexCurve);
    let frame = session.update().expect("valid viewport");
    assert_eq!(frame.markers.len(), 0);
    assert_eq!(frame.polylines.len(), 1);
    let vp = Rect { x: -100_000, y: -100_000, width: 200_000, height: 200_000 };
    assert_eq!(frame.polylines[0].points, sample_curve(&vp));
}

#[test]
fn viewport_scale_negative_factor_inverts_then_update_fails() {
    let mut session = default_session();
    session.scale(Point::init(-1000, 1000));
    assert_eq!(session.get_viewport().width, -200_000);
    assert!(matches!(session.update(), Err(ChartError::GeometryConstruction)));
}

#[test]
fn session_largest_canvas() {
    let mut session = Chart::new(100_000, 100_000).expect("within the pixel limit");
    session.update().expect("valid viewport");
    assert!(session.coord(60, 50).is_some());
    assert!(session.coord(99_970, 99_940).is_some());
    assert!(session.coord(99_971, 50).is_none());
}

#[test]
fn coord_answers_from_stale_mapper_until_update() {
    let mut session = default_session();
    session.update().expect("valid viewport");
    let before = session.coord(100, 100);
    session.translate(Point::init(50_000, 0));
    // The mapper is deliberately not rebuilt by a mutation alone.
    assert_eq!(session.coord(100, 100), before);
    session.update().expect("valid viewport");
    let after = session.coord(100, 100).expect("in plot area");
    assert_eq!(after.x, before.unwrap().x + 50_000);
    assert_eq!(after.y, before.unwrap().y);
}
