use xenon::colors::Color;
use xenon::math::{Box2D, Point2D, ScaleFactor, Size2D};
use xenon::path::{ColorPath, StrokeStyle, TexturePath};
use xenon::rendering::{Canvas, DebugRenderer, FaceType, Image, Renderer};
use xenon::tessellation::{ColorVertex, TextureVertex, VertexBuffers};
use xenon::widgets::{Rectangle, Widget};

fn p(x: i32, y: i32) -> Point2D {
    Point2D::new(x, y)
}

fn plain() -> ScaleFactor {
    ScaleFactor { per_mille: 1000 }
}

fn renderer() -> DebugRenderer {
    DebugRenderer::new(Size2D::new(800, 600), plain())
}

fn triangle(x: i32) -> VertexBuffers<ColorVertex> {
    let v = |x, y| ColorVertex { pos: p(x, y), color: Color::white() };
    VertexBuffers { vertices: vec![v(x, 0), v(x + 1, 0), v(x, 1)], indices: vec![0, 1, 2] }
}

fn texture(width: u32) -> Image {
    Image { width, height: 1, pixels: vec![0; 4 * width as usize] }
}

#[test]
fn submissions_are_queued_in_order() {
    let mut r = renderer();
    r.add_colored_object(triangle(0));
    r.add_colored_object(triangle(10));
    let queued = r.colored_objects();
    assert_eq!(queued.len(), 2);
    assert_eq!(queued[0].vertices[0].pos, p(0, 0));
    assert_eq!(queued[1].vertices[0].pos, p(10, 0));
    assert_eq!(queued[0].indices, vec![0, 1, 2]);
    assert_eq!(queued[1].indices, vec![0, 1, 2]);
    assert!(queued.iter().all(|object| object.is_well_formed()));
}

#[test]
fn queued_triangles_keep_their_own_vertices() {
    let mut r = renderer();
    r.add_colored_object(triangle(0));
    r.add_colored_object(triangle(10));
    r.add_colored_object(triangle(20));
    let corners: Vec<Point2D> = r
        .colored_objects()
        .iter()
        .flat_map(|object| object.indices.iter().map(|i| object.vertices[*i as usize].pos))
        .collect();
    assert_eq!(
        corners,
        vec![p(0, 0), p(1, 0), p(0, 1), p(10, 0), p(11, 0), p(10, 1), p(20, 0), p(21, 0), p(20, 1)]
    );
}

#[test]
fn render_empties_the_queues() {
    let mut r = renderer();
    r.add_colored_object(triangle(0));
    let uv = TextureVertex { pos: p(0, 0), tex_coords: p(0, 0), tex_index: 0 };
    r.add_textured_object(VertexBuffers { vertices: vec![uv, uv, uv], indices: vec![0, 1, 2] });
    assert_eq!(r.textured_objects().len(), 1);
    assert_eq!(r.textured_objects()[0].vertices.len(), 3);
    r.render();
    assert!(r.colored_objects().is_empty());
    assert!(r.textured_objects().is_empty());
    assert_eq!(r.frame_count(), 1);
}

#[test]
fn render_of_nothing_shows_no_frame() {
    let mut r = renderer();
    r.render();
    r.render();
    assert_eq!(r.frame_count(), 0);
    r.add_colored_object(triangle(0));
    r.render();
    r.render();
    assert_eq!(r.frame_count(), 1);
}

#[test]
fn texture_indices_are_stable() {
    let mut r = renderer();
    assert_eq!(r.register_texture(texture(1)), 0);
    assert_eq!(r.register_texture(texture(2)), 1);
    r.render();
    assert_eq!(r.register_texture(texture(1)), 2);
    assert_eq!(r.texture_count(), 3);
}

#[test]
fn resize_is_idempotent_and_keeps_the_queue() {
    let mut r = renderer();
    r.add_colored_object(triangle(0));
    let twice = ScaleFactor { per_mille: 2000 };
    r.resize(Size2D::new(400, 300), twice);
    assert_eq!(r.surface_size(), Size2D::new(400, 300));
    assert_eq!(r.surface_scale_factor(), twice);
    assert_eq!(r.colored_objects().len(), 1);
    r.resize(Size2D::new(400, 300), twice);
    assert_eq!(r.surface_size(), Size2D::new(400, 300));
    assert_eq!(r.surface_scale_factor(), twice);
    assert_eq!(r.colored_objects().len(), 1);
    assert_eq!(r.colored_objects()[0].vertices.len(), 3);
}

#[test]
fn canvas_fills_a_rectangle_into_its_region() {
    let mut r = renderer();
    {
        let mut canvas = Canvas::new(&mut r, Box2D::new(p(100, 100), p(150, 150)));
        canvas.fill_rect(Box2D::new(p(0, 0), p(20, 80)), Color::red());
    }
    let corner = |x, y| ColorVertex { pos: p(x, y), color: Color::red() };
    assert_eq!(r.colored_objects().len(), 1);
    assert_eq!(
        r.colored_objects()[0].vertices,
        vec![corner(100, 100), corner(100, 150), corner(120, 150), corner(120, 100)]
    );
    assert_eq!(r.colored_objects()[0].indices, vec![0, 1, 2, 0, 2, 3]);
}

#[test]
fn canvas_draws_paths_and_outlines() {
    let mut r = renderer();
    let square = || {
        ColorPath::build().begin(p(0, 0)).line_to(p(10, 0)).line_to(p(10, 10)).line_to(p(0, 10)).end(true).build()
    };
    let mut canvas = Canvas::new(&mut r, Box2D::new(p(0, 0), p(100, 100)));
    assert_eq!(canvas.fill_path(square()), Ok(()));
    assert_eq!(canvas.renderer.colored_objects().len(), 1);
    assert!(canvas.renderer.colored_objects()[0].indices.len() >= 6);
    assert_eq!(canvas.stroke_path(square(), StrokeStyle::default()), Ok(()));
    assert_eq!(canvas.renderer.colored_objects().len(), 2);
    assert_eq!(canvas.stroke_rect(Box2D::new(p(0, 0), p(10, 10)), Color::blue(), StrokeStyle::default()), Ok(()));
    assert_eq!(canvas.renderer.colored_objects().len(), 3);
    for object in canvas.renderer.colored_objects() {
        assert!(!object.indices.is_empty());
        assert!(object.is_well_formed());
    }
    assert!(canvas.renderer.colored_objects()[2].vertices.iter().all(|v| v.color == Color::blue()));
    assert_eq!(canvas.bounds, Box2D::new(p(0, 0), p(100, 100)));
}

#[test]
fn canvas_hands_a_narrower_region_to_a_child() {
    let mut r = renderer();
    let mut child = Rectangle { color: Color::green(), max_size: Size2D::new(500, 500) };
    {
        let mut canvas = Canvas::new(&mut r, Box2D::new(p(0, 0), p(800, 600)));
        canvas.render(&mut child, Box2D::new(p(10, 10), p(30, 40)));
        assert_eq!(canvas.bounds, Box2D::new(p(0, 0), p(800, 600)));
    }
    let corner = |x, y| ColorVertex { pos: p(x, y), color: Color::green() };
    assert_eq!(r.colored_objects().len(), 1);
    assert_eq!(
        r.colored_objects()[0].vertices,
        vec![corner(10, 10), corner(10, 40), corner(30, 40), corner(30, 10)]
    );
    assert_eq!(child.size(Size2D::new(1, 1)), Size2D::new(500, 500));
}

#[test]
fn texture_paths_carry_their_texture() {
    let path: TexturePath = TexturePath::build(texture(2))
        .begin(p(0, 0), p(0, 0))
        .line_to(p(10, 0), p(2, 0))
        .quadratic_bezier_to(p(10, 5), p(10, 10), p(2, 1))
        .cubic_bezier_to(p(8, 10), p(2, 10), p(0, 10), p(0, 1))
        .end(true)
        .build();
    let _ = path;
    let face = FaceType::Textured(texture(3));
    assert!(matches!(face, FaceType::Textured(Image { width: 3, .. })));
    assert!(matches!(FaceType::Colored(Color::red()), FaceType::Colored(_)));
}
