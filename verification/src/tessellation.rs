//! The tessellator adapter: paths and rectangles become indexed triangle
//! lists, placed into a region. The triangulation itself is `lyon`'s.

use crate::colors::Color;
use crate::math::{place_coordinate, placed, Box2D, Point2D};
use crate::path::{
    is_exact_point, path_events, path_width, ColorPath, LineCap, LineJoin, PathEvent, StrokeStyle,
};
use lyon::path::Path;
use lyon::tessellation::{
    BuffersBuilder, FillOptions, FillTessellator, FillVertex, StrokeOptions, StrokeTessellator,
    StrokeVertex,
};
use lyon::tessellation::VertexBuffers as LyonBuffers;
use vstd::prelude::*;

verus! {

/// A vertex with a color.
#[derive(Debug, Clone, Copy, PartialEq, Eq, Hash, Structural)]
pub struct ColorVertex {
    pub pos: Point2D,
    pub color: Color,
}

/// A vertex with a texture coordinate into the texture numbered `tex_index`.
#[derive(Debug, Clone, Copy, PartialEq, Eq, Hash, Structural)]
pub struct TextureVertex {
    pub pos: Point2D,
    pub tex_coords: Point2D,
    pub tex_index: u32,
}

/// The mathematical content of a [`VertexBuffers`]: a triangle list.
#[verifier::ext_equal]
pub struct Mesh<V> {
    pub vertices: Seq<V>,
    pub indices: Seq<u16>,
}

impl<V> Mesh<V> {
    /// Every three indices form a triangle, and every index names a vertex.
    pub open spec fn well_formed(self) -> bool {
        &&& self.indices.len() % 3 == 0
        &&& forall|i: int| 0 <= i < self.indices.len() ==> (#[trigger] self.indices[i] as int) < self.vertices.len()
    }

    /// The mesh without vertices.
    pub open spec fn empty() -> Mesh<V> {
        Mesh { vertices: Seq::empty(), indices: Seq::empty() }
    }

    /// The corners of the triangles in drawing order, each index
    /// replaced by the vertex it names: every three form one triangle.
    pub open spec fn corners(self) -> Seq<V> {
        Seq::new(self.indices.len(), |i: int| self.vertices[self.indices[i] as int])
    }
}

/// Vertices and the 16-bit indices that join them into triangles.
pub struct VertexBuffers<V> {
    pub vertices: Vec<V>,
    pub indices: Vec<u16>,
}

impl<V> View for VertexBuffers<V> {
    type V = Mesh<V>;

    open spec fn view(&self) -> Mesh<V> {
        Mesh { vertices: self.vertices@, indices: self.indices@ }
    }
}

/// Why a shape could not be turned into triangles.
#[derive(Debug, Clone, Copy, PartialEq, Eq, Hash, Structural)]
pub enum TessellationError {
    /// The tessellator gave up on the shape.
    Failed,
    /// The tessellator's output is no triangle list: its index count is no
    /// multiple of three, or an index names no vertex.
    Malformed,
}

/// What filling the path with the steps `events` yields, as the tessellator
/// computes it with its default options: vertices rounded to the grid with
/// their interpolated colors, or nothing if it fails.
pub uninterp spec fn fill_tessellation(events: Seq<PathEvent>) -> Option<Mesh<ColorVertex>>;

/// What stroking the path with the steps `events` yields, or nothing if the
/// tessellator fails.
pub uninterp spec fn stroke_tessellation(events: Seq<PathEvent>, style: StrokeStyle) -> Option<
    Mesh<ColorVertex>,
>;

/// What stroking the outline of `rect` yields, or nothing if the
/// tessellator fails.
pub uninterp spec fn rectangle_stroke(rect: Box2D, style: StrokeStyle) -> Option<Mesh<Point2D>>;

/// What filling `rect` yields: its four corners and two triangles.
pub open spec fn rectangle_fill(rect: Box2D) -> Mesh<Point2D> {
    Mesh {
        vertices: seq![
            rect.min,
            Point2D { x: rect.min.x, y: rect.max.y },
            rect.max,
            Point2D { x: rect.max.x, y: rect.min.y },
        ],
        indices: seq![0u16, 1u16, 2u16, 0u16, 2u16, 3u16],
    }
}

/// The vertex at `(x, y)` with the given channels.
pub fn color_vertex(x: i32, y: i32, r: u8, g: u8, b: u8, a: u8) -> (v: ColorVertex)
    ensures
        v == (ColorVertex { pos: Point2D { x, y }, color: Color { r, g, b, a } }),
{
    ColorVertex { pos: Point2D { x, y }, color: Color { r, g, b, a } }
}

/// `FillTessellator::tessellate_path` with `FillOptions::default()`, into
/// 16-bit indices. Positions and interpolated channels are rounded to the
/// nearest integer. The result is the crate's, so it is only named.
#[verifier::external_body]
fn lyon_fill_path(path: &Path) -> (r: Option<VertexBuffers<ColorVertex>>)
    requires
        path_width(*path) == 4,
    ensures
        match r {
            Some(buffers) => fill_tessellation(path_events(*path)) == Some(buffers@),
            None => fill_tessellation(path_events(*path)) is None,
        },
{
    let mut out = LyonBuffers::new();
    let ctor = |mut v: FillVertex| {
        let (p, a) = (v.position(), v.interpolated_attributes());
        let (r, g, b) = (a[0].round() as u8, a[1].round() as u8, a[2].round() as u8);
        color_vertex(p.x.round() as i32, p.y.round() as i32, r, g, b, a[3].round() as u8)
    };
    let mut sink = BuffersBuilder::new(&mut out, ctor);
    match FillTessellator::new().tessellate_path(path, &FillOptions::default(), &mut sink) {
        Ok(()) => Some(VertexBuffers { vertices: out.vertices, indices: out.indices }),
        Err(_) => None,
    }
}

/// `lyon`'s stroke options, carried as they are; what they hold is known
/// through [`stroke_style`] alone.
#[verifier::external_type_specification]
#[verifier::external_body]
pub struct ExStrokeOptions(StrokeOptions);

/// The style of stroke options that are `StrokeOptions::DEFAULT` in all
/// but caps, join, width and miter limit; nothing for options that set a
/// variable width or another tolerance.
pub uninterp spec fn stroke_style(options: StrokeOptions) -> Option<StrokeStyle>;

/// `StrokeOptions::DEFAULT` changed by the crate's `with_line_width`,
/// `with_miter_limit`, `with_line_join`, `with_start_cap` and
/// `with_end_cap`, which set one field each. The crate refuses a miter
/// limit below one.
#[verifier::external_body]
fn lyon_stroke_options(style: StrokeStyle) -> (options: StrokeOptions)
    requires
        style.spec_is_valid(),
    ensures
        stroke_style(options) == Some(style),
{
    let cap = |c: LineCap| match c {
        LineCap::Butt => lyon::path::LineCap::Butt,
        LineCap::Square => lyon::path::LineCap::Square,
        LineCap::Round => lyon::path::LineCap::Round,
    };
    let join = match style.line_join {
        LineJoin::Miter => lyon::path::LineJoin::Miter,
        LineJoin::MiterClip => lyon::path::LineJoin::MiterClip,
        LineJoin::Round => lyon::path::LineJoin::Round,
        LineJoin::Bevel => lyon::path::LineJoin::Bevel,
    };
    let options = StrokeOptions::DEFAULT.with_line_width(style.line_width as _).with_line_join(join);
    let options = options.with_miter_limit(style.miter_limit as _);
    options.with_start_cap(cap(style.start_cap)).with_end_cap(cap(style.end_cap))
}

/// `StrokeTessellator::tessellate_path`, into 16-bit indices, for options
/// that are the defaults in all but the style. Positions and interpolated
/// channels are rounded to the nearest integer. The result is the
/// crate's, so it is only named.
#[verifier::external_body]
fn lyon_stroke_path(path: &Path, options: &StrokeOptions) -> (r: Option<VertexBuffers<ColorVertex>>)
    requires
        path_width(*path) == 4,
        stroke_style(*options) is Some,
    ensures
        match r {
            Some(buffers) => stroke_tessellation(path_events(*path), stroke_style(*options)->Some_0)
                == Some(buffers@),
            None => stroke_tessellation(path_events(*path), stroke_style(*options)->Some_0) is None,
        },
{
    let mut out = LyonBuffers::new();
    let ctor = |mut v: StrokeVertex| {
        let (p, a) = (v.position(), v.interpolated_attributes());
        let (r, g, b) = (a[0].round() as u8, a[1].round() as u8, a[2].round() as u8);
        color_vertex(p.x.round() as i32, p.y.round() as i32, r, g, b, a[3].round() as u8)
    };
    let mut sink = BuffersBuilder::new(&mut out, ctor);
    match StrokeTessellator::new().tessellate_path(path, options, &mut sink) {
        Ok(()) => Some(VertexBuffers { vertices: out.vertices, indices: out.indices }),
        Err(_) => None,
    }
}

/// The point at `(x, y)`.
pub fn grid_point(x: i32, y: i32) -> (p: Point2D)
    ensures
        p == (Point2D { x, y }),
{
    Point2D { x, y }
}

/// `FillTessellator::tessellate_rectangle` on `Box2D::new` of the corners
/// of `rect`, into 16-bit indices: the crate emits the corners `min`,
/// `(min.x, max.y)`, `max`, `(max.x, min.y)` and the triangles `0 1 2` and
/// `0 2 3`, and fails on no rectangle. Exact corners come back unchanged
/// by the rounding.
#[verifier::external_body]
fn lyon_fill_rectangle(rect: Box2D) -> (r: Option<VertexBuffers<Point2D>>)
    requires
        is_exact_point(rect.min),
        is_exact_point(rect.max),
    ensures
        r is Some,
        r->Some_0@ == rectangle_fill(rect),
{
    let mut out = LyonBuffers::new();
    let ctor = |v: FillVertex| grid_point(v.position().x.round() as i32, v.position().y.round() as i32);
    let mut sink = BuffersBuilder::new(&mut out, ctor);
    let min = lyon::math::point(rect.min.x as _, rect.min.y as _);
    let shape = lyon::math::Box2D::new(min, lyon::math::point(rect.max.x as _, rect.max.y as _));
    match FillTessellator::new().tessellate_rectangle(&shape, &FillOptions::default(), &mut sink) {
        Ok(()) => Some(VertexBuffers { vertices: out.vertices, indices: out.indices }),
        Err(_) => None,
    }
}

/// `StrokeTessellator::tessellate_rectangle` on `Box2D::new` of the corners
/// of `rect`, into 16-bit indices, for options that are the defaults in
/// all but the style; the crate refuses options with a variable width.
/// Positions are rounded to the nearest integer. The result is the
/// crate's, so it is only named.
#[verifier::external_body]
fn lyon_stroke_rectangle(rect: Box2D, options: &StrokeOptions) -> (r: Option<VertexBuffers<Point2D>>)
    requires
        is_exact_point(rect.min),
        is_exact_point(rect.max),
        stroke_style(*options) is Some,
    ensures
        match r {
            Some(buffers) => rectangle_stroke(rect, stroke_style(*options)->Some_0) == Some(buffers@),
            None => rectangle_stroke(rect, stroke_style(*options)->Some_0) is None,
        },
{
    let mut out = LyonBuffers::new();
    let ctor = |v: StrokeVertex| grid_point(v.position().x.round() as i32, v.position().y.round() as i32);
    let mut sink = BuffersBuilder::new(&mut out, ctor);
    let min = lyon::math::point(rect.min.x as _, rect.min.y as _);
    let shape = lyon::math::Box2D::new(min, lyon::math::point(rect.max.x as _, rect.max.y as _));
    match StrokeTessellator::new().tessellate_rectangle(&shape, options, &mut sink) {
        Ok(()) => Some(VertexBuffers { vertices: out.vertices, indices: out.indices }),
        Err(_) => None,
    }
}

/// A tessellated position placed into `bounds`: per coordinate, raised to
/// zero, moved by the near corner and capped at the far corner.
pub open spec fn place_point(p: Point2D, bounds: Box2D) -> Point2D {
    Point2D {
        x: placed(p.x as int, bounds.min.x as int, bounds.max.x as int) as i32,
        y: placed(p.y as int, bounds.min.y as int, bounds.max.y as int) as i32,
    }
}

/// A colored vertex placed into `bounds`; the color stays.
pub open spec fn place_vertex(v: ColorVertex, bounds: Box2D) -> ColorVertex {
    ColorVertex { pos: place_point(v.pos, bounds), color: v.color }
}

/// A bare position placed into `bounds` and given `color`.
pub open spec fn paint_point(p: Point2D, color: Color, bounds: Box2D) -> ColorVertex {
    ColorVertex { pos: place_point(p, bounds), color }
}

/// Whether `p` lies between the corners of `bounds`, edges included.
pub open spec fn within(p: Point2D, bounds: Box2D) -> bool {
    bounds.min.x <= p.x <= bounds.max.x && bounds.min.y <= p.y <= bounds.max.y
}

/// Whether the far corner of `bounds` is not before its near corner.
pub open spec fn ordered(bounds: Box2D) -> bool {
    bounds.min.x <= bounds.max.x && bounds.min.y <= bounds.max.y
}

/// The content of what a tessellation handed back, if anything.
pub open spec fn mesh_of<V>(raw: Option<VertexBuffers<V>>) -> Option<Mesh<V>> {
    match raw {
        Some(buffers) => Some(buffers@),
        None => None,
    }
}

/// What becomes of a colored tessellation: a failure stays one, output
/// that is no triangle list is refused, and every vertex of a proper mesh
/// is placed into `bounds` with the indices unchanged.
pub open spec fn placed_mesh(raw: Option<Mesh<ColorVertex>>, bounds: Box2D) -> Result<
    Mesh<ColorVertex>,
    TessellationError,
> {
    match raw {
        None => Err(TessellationError::Failed),
        Some(mesh) => if mesh.well_formed() {
            Ok(
                Mesh {
                    vertices: Seq::new(
                        mesh.vertices.len(),
                        |i: int| place_vertex(mesh.vertices[i], bounds),
                    ),
                    indices: mesh.indices,
                },
            )
        } else {
            Err(TessellationError::Malformed)
        },
    }
}

/// What becomes of a tessellation of bare positions: as [`placed_mesh`],
/// with every vertex given `color`.
pub open spec fn painted_mesh(raw: Option<Mesh<Point2D>>, color: Color, bounds: Box2D) -> Result<
    Mesh<ColorVertex>,
    TessellationError,
> {
    match raw {
        None => Err(TessellationError::Failed),
        Some(mesh) => if mesh.well_formed() {
            Ok(
                Mesh {
                    vertices: Seq::new(
                        mesh.vertices.len(),
                        |i: int| paint_point(mesh.vertices[i], color, bounds),
                    ),
                    indices: mesh.indices,
                },
            )
        } else {
            Err(TessellationError::Malformed)
        },
    }
}

/// The fill of a color path, placed into `bounds`.
pub open spec fn path_fill(events: Seq<PathEvent>, bounds: Box2D) -> Result<
    Mesh<ColorVertex>,
    TessellationError,
> {
    placed_mesh(fill_tessellation(events), bounds)
}

/// The stroke of a color path, placed into `bounds`.
pub open spec fn path_stroke(events: Seq<PathEvent>, style: StrokeStyle, bounds: Box2D) -> Result<
    Mesh<ColorVertex>,
    TessellationError,
> {
    placed_mesh(stroke_tessellation(events, style), bounds)
}

/// The fill of a rectangle in one color, placed into `bounds`.
pub open spec fn rect_fill(rect: Box2D, color: Color, bounds: Box2D) -> Mesh<ColorVertex> {
    Mesh {
        vertices: Seq::new(4, |i: int| paint_point(rectangle_fill(rect).vertices[i], color, bounds)),
        indices: rectangle_fill(rect).indices,
    }
}

/// The stroked outline of a rectangle in one color, placed into `bounds`.
pub open spec fn rect_stroke(rect: Box2D, color: Color, style: StrokeStyle, bounds: Box2D) -> Result<
    Mesh<ColorVertex>,
    TessellationError,
> {
    painted_mesh(rectangle_stroke(rect, style), color, bounds)
}

/// Whether `result` is the value of the specification `expected`.
pub open spec fn yields(
    result: Result<VertexBuffers<ColorVertex>, TessellationError>,
    expected: Result<Mesh<ColorVertex>, TessellationError>,
) -> bool {
    match result {
        Ok(buffers) => expected == Ok::<Mesh<ColorVertex>, TessellationError>(buffers@),
        Err(e) => expected == Err::<Mesh<ColorVertex>, TessellationError>(e),
    }
}

impl<V> VertexBuffers<V> {
    /// Empty buffers.
    pub fn new() -> (buffers: VertexBuffers<V>)
        ensures
            buffers@ == Mesh::<V>::empty(),
            buffers@.well_formed(),
    {
        let buffers = VertexBuffers { vertices: Vec::new(), indices: Vec::new() };
        assert(buffers@ =~= Mesh::<V>::empty());
        buffers
    }

    /// Whether the buffers hold a triangle list: the number of indices is
    /// a multiple of three and every index names a vertex.
    pub fn is_well_formed(&self) -> (ok: bool)
        ensures
            ok == self@.well_formed(),
    {
        if self.indices.len() % 3 != 0 {
            return false;
        }
        let count = self.vertices.len();
        let mut i: usize = 0;
        while i < self.indices.len()
            invariant
                i <= self.indices.len(),
                count == self.vertices.len(),
                forall|j: int| 0 <= j < i ==> (#[trigger] self.indices@[j] as int) < count,
            decreases self.indices.len() - i,
        {
            if self.indices[i] as usize >= count {
                return false;
            }
            i += 1;
        }
        true
    }
}

/// Places one tessellated position into `bounds`.
pub fn place(p: Point2D, bounds: Box2D) -> (r: Point2D)
    ensures
        r == place_point(p, bounds),
        ordered(bounds) ==> within(r, bounds),
{
    Point2D {
        x: place_coordinate(p.x, bounds.min.x, bounds.max.x),
        y: place_coordinate(p.y, bounds.min.y, bounds.max.y),
    }
}

/// Finishes a colored tessellation: refuses a failed or malformed one,
/// and places every vertex of a proper one into `bounds`.
pub fn place_vertices(raw: Option<VertexBuffers<ColorVertex>>, bounds: Box2D) -> (r: Result<
    VertexBuffers<ColorVertex>,
    TessellationError,
>)
    ensures
        yields(r, placed_mesh(mesh_of(raw), bounds)),
        r matches Ok(buffers) ==> buffers@.well_formed(),
{
    let buffers = match raw {
        Some(buffers) => buffers,
        None => {
            return Err(TessellationError::Failed);
        },
    };
    if !buffers.is_well_formed() {
        return Err(TessellationError::Malformed);
    }
    let mut vertices: Vec<ColorVertex> = Vec::new();
    let mut i: usize = 0;
    while i < buffers.vertices.len()
        invariant
            i <= buffers.vertices.len(),
            vertices@.len() == i,
            forall|j: int| 0 <= j < i ==> vertices@[j] == place_vertex(#[trigger] buffers.vertices@[j], bounds),
        decreases buffers.vertices.len() - i,
    {
        let v = buffers.vertices[i];
        vertices.push(ColorVertex { pos: place(v.pos, bounds), color: v.color });
        i += 1;
    }
    let out = VertexBuffers { vertices, indices: buffers.indices };
    assert(out@ =~= placed_mesh(mesh_of(raw), bounds)->Ok_0);
    Ok(out)
}

/// Finishes a tessellation of bare positions: refuses a failed or
/// malformed one, and places every vertex of a proper one into `bounds`
/// with the color `color`.
pub fn paint_vertices(raw: Option<VertexBuffers<Point2D>>, color: Color, bounds: Box2D) -> (r: Result<
    VertexBuffers<ColorVertex>,
    TessellationError,
>)
    ensures
        yields(r, painted_mesh(mesh_of(raw), color, bounds)),
        r matches Ok(buffers) ==> buffers@.well_formed(),
{
    let buffers = match raw {
        Some(buffers) => buffers,
        None => {
            return Err(TessellationError::Failed);
        },
    };
    if !buffers.is_well_formed() {
        return Err(TessellationError::Malformed);
    }
    let mut vertices: Vec<ColorVertex> = Vec::new();
    let mut i: usize = 0;
    while i < buffers.vertices.len()
        invariant
            i <= buffers.vertices.len(),
            vertices@.len() == i,
            forall|j: int| 0 <= j < i ==> vertices@[j] == paint_point(#[trigger] buffers.vertices@[j], color, bounds),
        decreases buffers.vertices.len() - i,
    {
        let p = buffers.vertices[i];
        vertices.push(ColorVertex { pos: place(p, bounds), color });
        i += 1;
    }
    let out = VertexBuffers { vertices, indices: buffers.indices };
    assert(out@ =~= painted_mesh(mesh_of(raw), color, bounds)->Ok_0);
    Ok(out)
}

/// Fills `path` and places the triangles into `bounds`.
pub fn fill_path_mesh(path: &ColorPath, bounds: Box2D) -> (r: Result<
    VertexBuffers<ColorVertex>,
    TessellationError,
>)
    requires
        path.wf(),
    ensures
        yields(r, path_fill(path@, bounds)),
        r matches Ok(buffers) ==> buffers@.well_formed(),
{
    place_vertices(lyon_fill_path(path.inner()), bounds)
}

/// Strokes `path` with `style` and places the triangles into `bounds`.
pub fn stroke_path_mesh(path: &ColorPath, style: StrokeStyle, bounds: Box2D) -> (r: Result<
    VertexBuffers<ColorVertex>,
    TessellationError,
>)
    requires
        path.wf(),
        style.spec_is_valid(),
    ensures
        yields(r, path_stroke(path@, style, bounds)),
        r matches Ok(buffers) ==> buffers@.well_formed(),
{
    let options = lyon_stroke_options(style);
    place_vertices(lyon_stroke_path(path.inner(), &options), bounds)
}

/// Fills `rect` with `color` and places the two triangles into `bounds`.
pub fn fill_rect_mesh(rect: Box2D, color: Color, bounds: Box2D) -> (buffers: VertexBuffers<ColorVertex>)
    requires
        is_exact_point(rect.min),
        is_exact_point(rect.max),
    ensures
        buffers@ == rect_fill(rect, color, bounds),
        buffers@.well_formed(),
{
    let raw = lyon_fill_rectangle(rect);
    proof {
        let mesh = rectangle_fill(rect);
        assert(mesh.indices.len() == 6);
        assert(mesh.well_formed());
        assert(painted_mesh(mesh_of(raw), color, bounds)->Ok_0 =~= rect_fill(rect, color, bounds));
    }
    match paint_vertices(raw, color, bounds) {
        Ok(buffers) => buffers,
        Err(_) => VertexBuffers::new(),
    }
}

/// Strokes the outline of `rect` with `style` in `color` and places the
/// triangles into `bounds`.
pub fn stroke_rect_mesh(rect: Box2D, color: Color, style: StrokeStyle, bounds: Box2D) -> (r: Result<
    VertexBuffers<ColorVertex>,
    TessellationError,
>)
    requires
        is_exact_point(rect.min),
        is_exact_point(rect.max),
        style.spec_is_valid(),
    ensures
        yields(r, rect_stroke(rect, color, style, bounds)),
        r matches Ok(buffers) ==> buffers@.well_formed(),
{
    let options = lyon_stroke_options(style);
    paint_vertices(lyon_stroke_rectangle(rect, &options), color, bounds)
}

/// Whether `mesh` is a triangle list within `bounds`: the number of
/// indices is a multiple of three, every index is below the number of
/// vertices, and, where the bounds are ordered, every vertex lies within
/// them.
pub open spec fn is_triangle_list_within(mesh: Mesh<ColorVertex>, bounds: Box2D) -> bool {
    &&& mesh.indices.len() % 3 == 0
    &&& forall|i: int| 0 <= i < mesh.indices.len() ==> (#[trigger] mesh.indices[i] as int) < mesh.vertices.len()
    &&& ordered(bounds) ==> forall|i: int| 0 <= i < mesh.vertices.len() ==> within(#[trigger] mesh.vertices[i].pos, bounds)
}

/// Whatever the tessellator hands back, what is made of it is a triangle
/// list within the bounds, or a failure.
pub proof fn lemma_placed_mesh_is_triangle_list(raw: Option<Mesh<ColorVertex>>, bounds: Box2D)
    ensures
        placed_mesh(raw, bounds) matches Ok(mesh) ==> is_triangle_list_within(mesh, bounds),
{
}

/// The same for a tessellation of bare positions.
pub proof fn lemma_painted_mesh_is_triangle_list(
    raw: Option<Mesh<Point2D>>,
    color: Color,
    bounds: Box2D,
)
    ensures
        painted_mesh(raw, color, bounds) matches Ok(mesh) ==> is_triangle_list_within(mesh, bounds),
{
}

/// Every fill and every stroke that succeeds is a triangle list within
/// the bounds: for all paths, rectangles, styles and colors.
pub proof fn lemma_output_is_triangle_list(
    events: Seq<PathEvent>,
    rect: Box2D,
    color: Color,
    style: StrokeStyle,
    bounds: Box2D,
)
    ensures
        path_fill(events, bounds) matches Ok(mesh) ==> is_triangle_list_within(mesh, bounds),
        path_stroke(events, style, bounds) matches Ok(mesh) ==> is_triangle_list_within(mesh, bounds),
        rect_stroke(rect, color, style, bounds) matches Ok(mesh) ==> is_triangle_list_within(
            mesh,
            bounds,
        ),
        is_triangle_list_within(rect_fill(rect, color, bounds), bounds),
{
    lemma_placed_mesh_is_triangle_list(fill_tessellation(events), bounds);
    lemma_placed_mesh_is_triangle_list(stroke_tessellation(events, style), bounds);
    lemma_painted_mesh_is_triangle_list(rectangle_stroke(rect, style), color, bounds);
    assert(rectangle_fill(rect).indices.len() == 6);
}

} // verus!
