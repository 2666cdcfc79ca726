use xenon::colors::Color;
use xenon::math::{Box2D, Point2D};
use xenon::path::{ColorPath, LineCap, LineJoin, StrokeStyle};
use xenon::tessellation::{
    fill_path_mesh, fill_rect_mesh, paint_vertices, place, place_vertices, stroke_path_mesh,
    stroke_rect_mesh, ColorVertex, TessellationError, VertexBuffers,
};

fn p(x: i32, y: i32) -> Point2D {
    Point2D::new(x, y)
}

fn wide() -> Box2D {
    Box2D::new(p(0, 0), p(10_000, 10_000))
}

fn rectangle_path(x0: i32, y0: i32, x1: i32, y1: i32, color: Color) -> ColorPath {
    let mut builder = ColorPath::build();
    builder.set_color(color);
    builder.begin(p(x0, y0)).line_to(p(x1, y0)).line_to(p(x1, y1)).line_to(p(x0, y1)).end(true).build()
}

/// Twice the area that the triangles of `buffers` cover, each counted by itself.
fn doubled_area(buffers: &VertexBuffers<ColorVertex>) -> i64 {
    let mut total = 0i64;
    for t in buffers.indices.chunks(3) {
        let a = buffers.vertices[t[0] as usize].pos;
        let b = buffers.vertices[t[1] as usize].pos;
        let c = buffers.vertices[t[2] as usize].pos;
        let cross = (b.x as i64 - a.x as i64) * (c.y as i64 - a.y as i64)
            - (c.x as i64 - a.x as i64) * (b.y as i64 - a.y as i64);
        total += cross.abs();
    }
    total
}

fn assert_triangle_list(buffers: &VertexBuffers<ColorVertex>) {
    assert_eq!(buffers.indices.len() % 3, 0);
    for i in &buffers.indices {
        assert!((*i as usize) < buffers.vertices.len());
    }
    assert!(buffers.is_well_formed());
}

#[test]
fn filled_rectangle_is_two_triangles_over_its_corners() {
    let buffers = fill_rect_mesh(Box2D::new(p(10, 20), p(110, 70)), Color::red(), wide());
    let corner = |x, y| ColorVertex { pos: p(x, y), color: Color::red() };
    assert_eq!(buffers.vertices, vec![corner(10, 20), corner(10, 70), corner(110, 70), corner(110, 20)]);
    assert_eq!(buffers.indices, vec![0, 1, 2, 0, 2, 3]);
    assert_eq!(doubled_area(&buffers), 2 * 100 * 50);
}

#[test]
fn filled_rectangle_is_placed_into_the_bounds() {
    let bounds = Box2D::new(p(5, 7), p(60, 40));
    let buffers = fill_rect_mesh(Box2D::new(p(-10, 20), p(110, 70)), Color::blue(), bounds);
    let corner = |x, y| ColorVertex { pos: p(x, y), color: Color::blue() };
    assert_eq!(buffers.vertices, vec![corner(5, 27), corner(5, 40), corner(60, 40), corner(60, 27)]);
    assert_eq!(buffers.indices, vec![0, 1, 2, 0, 2, 3]);
}

#[test]
fn filled_path_is_a_triangle_list() {
    let path = rectangle_path(0, 0, 100, 50, Color::green());
    let buffers = fill_path_mesh(&path, wide()).unwrap();
    assert!(!buffers.vertices.is_empty());
    assert!(!buffers.indices.is_empty());
    assert_triangle_list(&buffers);
    for v in &buffers.vertices {
        assert_eq!(v.color, Color::green());
    }
}

#[test]
fn rectangle_path_and_rectangle_cover_the_same_area() {
    let path = rectangle_path(10, 20, 110, 70, Color::white());
    let from_path = fill_path_mesh(&path, wide()).unwrap();
    let direct = fill_rect_mesh(Box2D::new(p(10, 20), p(110, 70)), Color::white(), wide());
    assert_eq!(doubled_area(&from_path), doubled_area(&direct));
    assert_eq!(doubled_area(&from_path), 10_000);
    let corners = |buffers: &VertexBuffers<ColorVertex>| {
        let mut seen: Vec<(i32, i32)> = buffers.vertices.iter().map(|v| (v.pos.x, v.pos.y)).collect();
        seen.sort();
        seen.dedup();
        seen
    };
    assert_eq!(corners(&from_path), corners(&direct));
    assert_eq!(corners(&direct), vec![(10, 20), (10, 70), (110, 20), (110, 70)]);
}

#[test]
fn filled_path_is_placed_into_the_bounds() {
    let bounds = Box2D::new(p(5, 7), p(60, 40));
    let path = rectangle_path(0, 0, 100, 50, Color::green());
    let buffers = fill_path_mesh(&path, bounds).unwrap();
    assert_triangle_list(&buffers);
    for v in &buffers.vertices {
        assert!(5 <= v.pos.x && v.pos.x <= 60);
        assert!(7 <= v.pos.y && v.pos.y <= 40);
    }
    assert_eq!(doubled_area(&buffers), 2 * 55 * 33);
}

#[test]
fn filled_triangle_keeps_the_color_of_each_vertex() {
    let mut builder = ColorPath::build();
    builder.set_color(Color::red());
    let mut builder = builder.begin(p(0, 0));
    builder.set_color(Color::green());
    let mut builder = builder.line_to(p(100, 0));
    builder.set_color(Color::blue());
    let path = builder.line_to(p(0, 100)).end(true).build();
    let buffers = fill_path_mesh(&path, wide()).unwrap();
    assert_triangle_list(&buffers);
    assert_eq!(buffers.indices.len(), 3);
    let color_at = |x: i32, y: i32| buffers.vertices.iter().find(|v| v.pos == p(x, y)).unwrap().color;
    assert_eq!(color_at(0, 0), Color::red());
    assert_eq!(color_at(100, 0), Color::green());
    assert_eq!(color_at(0, 100), Color::blue());
    assert_eq!(doubled_area(&buffers), 100 * 100);
}

#[test]
fn curves_are_filled() {
    let path = ColorPath::build()
        .begin(p(0, 0))
        .quadratic_bezier_to(p(100, 0), p(100, 100))
        .cubic_bezier_to(p(100, 200), p(0, 200), p(0, 100))
        .end(true)
        .build();
    let buffers = fill_path_mesh(&path, wide()).unwrap();
    assert_triangle_list(&buffers);
    assert!(buffers.vertices.len() > 4);
    for v in &buffers.vertices {
        assert_eq!(v.color, Color::black());
        assert!(0 <= v.pos.x && v.pos.x <= 100);
        assert!(0 <= v.pos.y && v.pos.y <= 200);
    }
}

#[test]
fn two_sub_paths_are_filled_together() {
    let path = ColorPath::build()
        .begin(p(0, 0))
        .line_to(p(10, 0))
        .line_to(p(10, 10))
        .line_to(p(0, 10))
        .end(true)
        .begin(p(20, 0))
        .line_to(p(30, 0))
        .line_to(p(30, 10))
        .line_to(p(20, 10))
        .end(false)
        .build();
    let buffers = fill_path_mesh(&path, wide()).unwrap();
    assert_triangle_list(&buffers);
    assert_eq!(doubled_area(&buffers), 2 * (100 + 100));
}

#[test]
fn empty_path_fills_to_nothing() {
    let path = ColorPath::build().build();
    let buffers = fill_path_mesh(&path, wide()).unwrap();
    assert!(buffers.vertices.is_empty());
    assert!(buffers.indices.is_empty());
}

#[test]
fn stroked_path_is_a_triangle_list() {
    let path = rectangle_path(10, 10, 110, 60, Color::magenta());
    let style = StrokeStyle { line_width: 4, ..StrokeStyle::default() };
    let buffers = stroke_path_mesh(&path, style, wide()).unwrap();
    assert!(!buffers.indices.is_empty());
    assert_triangle_list(&buffers);
    for v in &buffers.vertices {
        assert_eq!(v.color, Color::magenta());
        assert!(8 <= v.pos.x && v.pos.x <= 112);
        assert!(8 <= v.pos.y && v.pos.y <= 62);
    }
}

#[test]
fn stroke_width_widens_the_outline() {
    let path = ColorPath::build().begin(p(100, 100)).line_to(p(200, 100)).end(false).build();
    let thin = stroke_path_mesh(&path, StrokeStyle { line_width: 2, ..StrokeStyle::default() }, wide());
    let path = ColorPath::build().begin(p(100, 100)).line_to(p(200, 100)).end(false).build();
    let thick = stroke_path_mesh(&path, StrokeStyle { line_width: 20, ..StrokeStyle::default() }, wide());
    assert_eq!(doubled_area(&thin.unwrap()), 2 * 100 * 2);
    assert_eq!(doubled_area(&thick.unwrap()), 2 * 100 * 20);
}

#[test]
fn square_caps_lengthen_an_open_stroke() {
    let line = || ColorPath::build().begin(p(100, 100)).line_to(p(200, 100)).end(false).build();
    let butt = StrokeStyle { line_width: 10, ..StrokeStyle::default() };
    let square = StrokeStyle { start_cap: LineCap::Square, end_cap: LineCap::Square, ..butt };
    let start_only = StrokeStyle { start_cap: LineCap::Square, ..butt };
    assert_eq!(doubled_area(&stroke_path_mesh(&line(), butt, wide()).unwrap()), 2 * 100 * 10);
    assert_eq!(doubled_area(&stroke_path_mesh(&line(), square, wide()).unwrap()), 2 * 110 * 10);
    assert_eq!(doubled_area(&stroke_path_mesh(&line(), start_only, wide()).unwrap()), 2 * 105 * 10);
    let xs = |style| {
        let buffers = stroke_path_mesh(&line(), style, wide()).unwrap();
        let min = buffers.vertices.iter().map(|v| v.pos.x).min().unwrap();
        let max = buffers.vertices.iter().map(|v| v.pos.x).max().unwrap();
        (min, max)
    };
    assert_eq!(xs(butt), (100, 200));
    assert_eq!(xs(square), (95, 205));
    assert_eq!(xs(start_only), (95, 200));
}

#[test]
fn joins_change_the_corner() {
    let corner = || ColorPath::build().begin(p(100, 100)).line_to(p(200, 100)).line_to(p(200, 200)).end(false).build();
    let miter = StrokeStyle { line_width: 20, ..StrokeStyle::default() };
    let bevel = StrokeStyle { line_join: LineJoin::Bevel, ..miter };
    let round = StrokeStyle { line_join: LineJoin::Round, ..miter };
    let clip = StrokeStyle { line_join: LineJoin::MiterClip, ..miter };
    let area = |style| doubled_area(&stroke_path_mesh(&corner(), style, wide()).unwrap());
    assert!(area(bevel) < area(round));
    assert!(area(round) < area(miter));
    assert_eq!(area(clip), area(miter));
    assert_eq!(area(miter), 2 * (200 * 20));
}

#[test]
fn stroked_rectangle_is_a_painted_triangle_list() {
    let style = StrokeStyle { line_width: 2, ..StrokeStyle::default() };
    let buffers = stroke_rect_mesh(Box2D::new(p(10, 10), p(50, 30)), Color::cyan(), style, wide()).unwrap();
    assert!(!buffers.indices.is_empty());
    assert_triangle_list(&buffers);
    for v in &buffers.vertices {
        assert_eq!(v.color, Color::cyan());
        assert!(9 <= v.pos.x && v.pos.x <= 51);
        assert!(9 <= v.pos.y && v.pos.y <= 31);
    }
    assert_eq!(doubled_area(&buffers), 2 * (42 * 22 - 38 * 18));
}

#[test]
fn stroked_rectangle_is_placed_into_the_bounds() {
    let bounds = Box2D::new(p(100, 100), p(120, 110));
    let style = StrokeStyle { line_width: 2, ..StrokeStyle::default() };
    let buffers = stroke_rect_mesh(Box2D::new(p(10, 10), p(50, 30)), Color::cyan(), style, bounds).unwrap();
    for v in &buffers.vertices {
        assert!(100 <= v.pos.x && v.pos.x <= 120);
        assert!(100 <= v.pos.y && v.pos.y <= 110);
    }
}

#[test]
fn place_raises_moves_and_caps() {
    let bounds = Box2D::new(p(10, 20), p(100, 60));
    assert_eq!(place(p(5, 5), bounds), p(15, 25));
    assert_eq!(place(p(-5, -5), bounds), p(10, 20));
    assert_eq!(place(p(500, 5), bounds), p(100, 25));
    assert_eq!(place(p(5, 500), bounds), p(15, 60));
}

#[test]
fn failed_tessellation_is_surfaced() {
    assert_eq!(place_vertices(None, wide()).err(), Some(TessellationError::Failed));
    assert_eq!(paint_vertices(None, Color::red(), wide()).err(), Some(TessellationError::Failed));
}

#[test]
fn malformed_output_is_refused() {
    let v = ColorVertex { pos: p(1, 1), color: Color::red() };
    let two_indices = VertexBuffers { vertices: vec![v, v, v], indices: vec![0, 1] };
    assert_eq!(place_vertices(Some(two_indices), wide()).err(), Some(TessellationError::Malformed));
    let stray_index = VertexBuffers { vertices: vec![v, v, v], indices: vec![0, 1, 3] };
    assert_eq!(place_vertices(Some(stray_index), wide()).err(), Some(TessellationError::Malformed));
    let bare = VertexBuffers { vertices: vec![p(0, 0)], indices: vec![0, 0, 1] };
    assert_eq!(paint_vertices(Some(bare), Color::red(), wide()).err(), Some(TessellationError::Malformed));
}

#[test]
fn proper_output_is_placed_vertex_by_vertex() {
    let bounds = Box2D::new(p(10, 10), p(50, 50));
    let raw = VertexBuffers {
        vertices: vec![
            ColorVertex { pos: p(0, 0), color: Color::red() },
            ColorVertex { pos: p(100, -3), color: Color::green() },
            ColorVertex { pos: p(7, 100), color: Color::blue() },
        ],
        indices: vec![2, 1, 0],
    };
    let placed = place_vertices(Some(raw), bounds).unwrap();
    assert_eq!(
        placed.vertices,
        vec![
            ColorVertex { pos: p(10, 10), color: Color::red() },
            ColorVertex { pos: p(50, 10), color: Color::green() },
            ColorVertex { pos: p(17, 50), color: Color::blue() },
        ]
    );
    assert_eq!(placed.indices, vec![2, 1, 0]);
    let bare = VertexBuffers { vertices: vec![p(0, 0), p(1, 1), p(2, 2)], indices: vec![0, 1, 2] };
    let painted = paint_vertices(Some(bare), Color::yellow(), bounds).unwrap();
    assert_eq!(
        painted.vertices,
        vec![
            ColorVertex { pos: p(10, 10), color: Color::yellow() },
            ColorVertex { pos: p(11, 11), color: Color::yellow() },
            ColorVertex { pos: p(12, 12), color: Color::yellow() },
        ]
    );
}

#[test]
fn new_buffers_are_an_empty_triangle_list() {
    let all: VertexBuffers<ColorVertex> = VertexBuffers::new();
    assert!(all.vertices.is_empty() && all.indices.is_empty());
    assert!(all.is_well_formed());
    let v = ColorVertex { pos: p(0, 0), color: Color::white() };
    assert!(VertexBuffers { vertices: vec![v, v, v], indices: vec![2, 1, 0] }.is_well_formed());
    assert!(!VertexBuffers { vertices: vec![v, v], indices: vec![0, 1, 2] }.is_well_formed());
    assert!(!VertexBuffers { vertices: vec![v, v, v], indices: vec![0, 1, 2, 0] }.is_well_formed());
}

#[test]
fn miter_limit_cuts_a_sharp_corner() {
    let corner = || ColorPath::build().begin(p(100, 100)).line_to(p(200, 100)).line_to(p(123, 164)).end(false).build();
    let wide_limit = StrokeStyle { line_width: 20, ..StrokeStyle::default() };
    let tight_limit = StrokeStyle { miter_limit: 1, ..wide_limit };
    let bevel = StrokeStyle { line_join: LineJoin::Bevel, ..wide_limit };
    let area = |style| doubled_area(&stroke_path_mesh(&corner(), style, wide()).unwrap());
    assert_eq!(StrokeStyle::default().miter_limit, 4);
    assert!(area(tight_limit) < area(wide_limit));
    assert_eq!(area(tight_limit), area(bevel));
}

#[test]
fn stroke_style_validity() {
    assert!(StrokeStyle::default().is_valid());
    assert!(StrokeStyle { line_width: 16_777_216, ..StrokeStyle::default() }.is_valid());
    assert!(!StrokeStyle { line_width: 16_777_217, ..StrokeStyle::default() }.is_valid());
    assert!(StrokeStyle { line_width: -3, ..StrokeStyle::default() }.is_valid());
    assert!(!StrokeStyle { miter_limit: 0, ..StrokeStyle::default() }.is_valid());
    assert!(StrokeStyle { miter_limit: 1, ..StrokeStyle::default() }.is_valid());
    assert!(!StrokeStyle { miter_limit: 16_777_217, ..StrokeStyle::default() }.is_valid());
}

#[test]
fn exact_limit_coordinates_pass_through() {
    let limit = xenon::path::MAX_EXACT;
    let everything = Box2D::new(p(0, 0), p(i32::MAX, i32::MAX));
    let buffers = fill_rect_mesh(Box2D::new(p(0, 0), p(limit, limit - 1)), Color::red(), everything);
    assert_eq!(buffers.vertices[2].pos, p(limit, limit - 1));
    assert_eq!(buffers.vertices[1].pos, p(0, limit - 1));
}
