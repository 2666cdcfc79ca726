//! The renderer capability, a recording renderer, and the canvas that
//! draws shapes into a region of a renderer.

use crate::colors::Color;
use crate::math::{Box2D, ScaleFactor, Size2D};
use crate::path::{is_exact_point, ColorPath, StrokeStyle};
use crate::tessellation::{
    fill_path_mesh, fill_rect_mesh, path_fill, path_stroke, rect_fill, rect_stroke,
    stroke_path_mesh, stroke_rect_mesh, ColorVertex, Mesh, TessellationError, TextureVertex,
    VertexBuffers,
};
use crate::widgets::Widget;
use vstd::prelude::*;

verus! {

/// A texture: `width * height` pixels of four channels each, row by row.
pub struct Image {
    pub width: u32,
    pub height: u32,
    pub pixels: Vec<u8>,
}

/// What a face is covered with.
pub enum FaceType {
    Textured(Image),
    Colored(Color),
}

/// The corners of all triangles of `objects` in drawing order: those of
/// the first object, then those of the second, and so on. Each corner is
/// the vertex that its index names in its own object.
pub open spec fn corners_of<V>(objects: Seq<Mesh<V>>) -> Seq<V>
    decreases objects.len(),
{
    if objects.len() == 0 {
        Seq::empty()
    } else {
        corners_of(objects.drop_last()) + objects.last().corners()
    }
}

/// Whether every object of `objects` is a triangle list.
pub open spec fn all_well_formed<V>(objects: Seq<Mesh<V>>) -> bool {
    forall|i: int| 0 <= i < objects.len() ==> (#[trigger] objects[i]).well_formed()
}

/// The mathematical state of a renderer.
#[verifier::ext_equal]
pub struct RendererView {
    /// The colored objects queued since the last `render`, in submission
    /// order: a later one is drawn on top of an earlier one.
    pub colored: Seq<Mesh<ColorVertex>>,
    /// The textured objects queued since the last `render`, in submission order.
    pub textured: Seq<Mesh<TextureVertex>>,
    /// The registered textures; a texture's index is its position.
    pub textures: Seq<Image>,
    /// The logical size that the surface was last configured for.
    pub size: Size2D,
    /// The scale factor that the surface was last configured for.
    pub scale_factor: ScaleFactor,
}

impl RendererView {
    /// A renderer with empty queues and no textures.
    pub open spec fn initial(size: Size2D, scale_factor: ScaleFactor) -> RendererView {
        RendererView {
            colored: Seq::empty(),
            textured: Seq::empty(),
            textures: Seq::empty(),
            size,
            scale_factor,
        }
    }

    /// Every queued object is a triangle list, and a texture index fits
    /// 32 bits.
    pub open spec fn well_formed(self) -> bool {
        &&& all_well_formed(self.colored)
        &&& all_well_formed(self.textured)
        &&& self.textures.len() <= u32::MAX
    }

    /// After a present: the queues are empty, the rest stays.
    pub open spec fn render(self) -> RendererView {
        RendererView { colored: Seq::empty(), textured: Seq::empty(), ..self }
    }

    /// After a resize: size and scale factor are the new ones, the rest stays.
    pub open spec fn resize(self, size: Size2D, scale_factor: ScaleFactor) -> RendererView {
        RendererView { size, scale_factor, ..self }
    }

    /// After a colored submission: the object is behind those queued
    /// before, as it was handed in.
    pub open spec fn add_colored_object(self, mesh: Mesh<ColorVertex>) -> RendererView {
        RendererView { colored: self.colored.push(mesh), ..self }
    }

    /// After a textured submission: the object is behind those queued
    /// before, as it was handed in.
    pub open spec fn add_textured_object(self, mesh: Mesh<TextureVertex>) -> RendererView {
        RendererView { textured: self.textured.push(mesh), ..self }
    }

    /// After a registration: the texture is behind those registered before.
    pub open spec fn register_texture(self, texture: Image) -> RendererView {
        RendererView { textures: self.textures.push(texture), ..self }
    }

    /// After a draw call that yields `outcome`: a mesh is queued, a
    /// failure changes nothing.
    pub open spec fn draw(self, outcome: Result<Mesh<ColorVertex>, TessellationError>) -> RendererView {
        match outcome {
            Ok(mesh) => self.add_colored_object(mesh),
            Err(_) => self,
        }
    }
}

/// A type that renders triangles to a surface.
///
/// Geometry is queued by the `add_*` operations and shown by `render`,
/// which empties the queues. Every object keeps its own vertices and
/// indices; how a backend lays them out for drawing is its own matter.
/// Textures are registered once and keep their index for the renderer's
/// lifetime.
pub trait Renderer {
    /// The state of the renderer; unknown unless the implementation states it.
    open spec fn model(&self) -> RendererView {
        arbitrary()
    }

    /// Render, clearing the render queue.
    fn render(&mut self)
        ensures
            final(self).model() == old(self).model().render(),
    ;

    /// Resize the surface. Queues and textures stay.
    fn resize(&mut self, new_size: Size2D, scale_factor: ScaleFactor)
        ensures
            final(self).model() == old(self).model().resize(new_size, scale_factor),
    ;

    /// Add a shape to the render queue, behind what is queued.
    fn add_colored_object(&mut self, vertices: VertexBuffers<ColorVertex>)
        requires
            vertices@.well_formed(),
        ensures
            final(self).model() == old(self).model().add_colored_object(vertices@),
    ;

    /// Add a textured shape to the render queue, behind what is queued.
    fn add_textured_object(&mut self, vertices: VertexBuffers<TextureVertex>)
        requires
            vertices@.well_formed(),
        ensures
            final(self).model() == old(self).model().add_textured_object(vertices@),
    ;

    /// Register a texture. Returns the texture index.
    /// Callers should be careful to ensure the texture isn't already registered.
    fn register_texture(&mut self, texture: Image) -> (index: u32)
        requires
            old(self).model().textures.len() < u32::MAX,
        ensures
            index == old(self).model().textures.len(),
            final(self).model() == old(self).model().register_texture(texture),
    ;
}

/// The contents of queued buffers, object by object.
pub open spec fn meshes_of<V>(objects: Seq<VertexBuffers<V>>) -> Seq<Mesh<V>> {
    Seq::new(objects.len(), |i: int| objects[i]@)
}

/// A `Renderer` that shows nothing and keeps what it is given, for
/// inspection.
pub struct DebugRenderer {
    colored: Vec<VertexBuffers<ColorVertex>>,
    textured: Vec<VertexBuffers<TextureVertex>>,
    textures: Vec<Image>,
    size: Size2D,
    scale_factor: ScaleFactor,
    frames: u64,
}

impl DebugRenderer {
    /// A renderer with empty queues and no textures, for a surface of
    /// `size` at `scale_factor`.
    pub fn new(size: Size2D, scale_factor: ScaleFactor) -> (renderer: DebugRenderer)
        ensures
            renderer.model() == RendererView::initial(size, scale_factor),
            renderer.frames() == 0,
    {
        let renderer = DebugRenderer {
            colored: Vec::new(),
            textured: Vec::new(),
            textures: Vec::new(),
            size,
            scale_factor,
            frames: 0,
        };
        assert(renderer.model() =~= RendererView::initial(size, scale_factor));
        renderer
    }

    /// How many times `render` found colored geometry to show, up to the
    /// counter's limit.
    pub closed spec fn frames(&self) -> u64 {
        self.frames
    }

    /// The colored objects that are queued, oldest first.
    pub fn colored_objects(&self) -> (objects: &Vec<VertexBuffers<ColorVertex>>)
        ensures
            meshes_of(objects@) == self.model().colored,
    {
        &self.colored
    }

    /// The textured objects that are queued, oldest first.
    pub fn textured_objects(&self) -> (objects: &Vec<VertexBuffers<TextureVertex>>)
        ensures
            meshes_of(objects@) == self.model().textured,
    {
        &self.textured
    }

    /// The number of frames shown so far.
    pub fn frame_count(&self) -> (n: u64)
        ensures
            n == self.frames(),
    {
        self.frames
    }

    /// The size of the surface.
    pub fn surface_size(&self) -> (size: Size2D)
        ensures
            size == self.model().size,
    {
        self.size
    }

    /// The scale factor of the surface.
    pub fn surface_scale_factor(&self) -> (scale_factor: ScaleFactor)
        ensures
            scale_factor == self.model().scale_factor,
    {
        self.scale_factor
    }

    /// The number of registered textures.
    pub fn texture_count(&self) -> (n: usize)
        ensures
            n == self.model().textures.len(),
    {
        self.textures.len()
    }
}

impl Renderer for DebugRenderer {
    closed spec fn model(&self) -> RendererView {
        RendererView {
            colored: meshes_of(self.colored@),
            textured: meshes_of(self.textured@),
            textures: self.textures@,
            size: self.size,
            scale_factor: self.scale_factor,
        }
    }

    /// Counts a frame if a colored object is queued, and empties the queues.
    fn render(&mut self)
        ensures
            final(self).frames() == if old(self).model().colored.len() == 0 || old(self).frames()
                == u64::MAX {
                old(self).frames()
            } else {
                (old(self).frames() + 1) as u64
            },
    {
        if self.colored.len() != 0 && self.frames < u64::MAX {
            self.frames = self.frames + 1;
        }
        self.colored.clear();
        self.textured.clear();
        assert(self.model() =~= old(self).model().render());
    }

    fn resize(&mut self, new_size: Size2D, scale_factor: ScaleFactor)
        ensures
            final(self).frames() == old(self).frames(),
    {
        self.size = new_size;
        self.scale_factor = scale_factor;
    }

    fn add_colored_object(&mut self, vertices: VertexBuffers<ColorVertex>)
        ensures
            final(self).frames() == old(self).frames(),
    {
        self.colored.push(vertices);
        assert(meshes_of(self.colored@) =~= meshes_of(old(self).colored@).push(vertices@));
    }

    fn add_textured_object(&mut self, vertices: VertexBuffers<TextureVertex>)
        ensures
            final(self).frames() == old(self).frames(),
    {
        self.textured.push(vertices);
        assert(meshes_of(self.textured@) =~= meshes_of(old(self).textured@).push(vertices@));
    }

    fn register_texture(&mut self, texture: Image) -> (index: u32)
        ensures
            final(self).frames() == old(self).frames(),
    {
        let index = self.textures.len() as u32;
        self.textures.push(texture);
        index
    }
}

/// Resizing twice to the same size and scale factor is resizing once.
pub proof fn lemma_resize_is_idempotent(v: RendererView, size: Size2D, scale_factor: ScaleFactor)
    ensures
        v.resize(size, scale_factor).resize(size, scale_factor) == v.resize(size, scale_factor),
{
}

/// Nothing carries over a present, and a present of empty queues changes
/// nothing.
pub proof fn lemma_render_empties_queues(v: RendererView, mesh: Mesh<ColorVertex>)
    ensures
        v.add_colored_object(mesh).render() == v.render(),
        v.render().render() == v.render(),
        v.render().colored.len() == 0,
        v.render().textured.len() == 0,
{
}

/// Queued triangles keep their own vertices and their order: after a
/// submission, the objects queued before are as they were, the new object
/// is behind them as it was handed in, and the triangles to draw are
/// those queued before followed by the new object's, each corner being
/// the vertex that its index names in its own object.
pub proof fn lemma_submission_order(v: RendererView, mesh: Mesh<ColorVertex>)
    ensures
        v.add_colored_object(mesh).colored.len() == v.colored.len() + 1,
        v.add_colored_object(mesh).colored.last() == mesh,
        forall|i: int|
            0 <= i < v.colored.len() ==> #[trigger] v.add_colored_object(mesh).colored[i]
                == v.colored[i],
        corners_of(v.add_colored_object(mesh).colored) == corners_of(v.colored) + mesh.corners(),
        mesh.well_formed() ==> forall|k: int|
            0 <= k < mesh.corners().len() ==> #[trigger] mesh.corners()[k]
                == mesh.vertices[mesh.indices[k] as int] && (mesh.indices[k] as int)
                < mesh.vertices.len(),
{
    assert(v.colored.push(mesh).drop_last() =~= v.colored);
}

/// Of two submissions, the second lies behind the first, and both behind
/// what was queued before.
pub proof fn lemma_two_submissions(v: RendererView, first: Mesh<ColorVertex>, second: Mesh<ColorVertex>)
    ensures
        corners_of(v.add_colored_object(first).add_colored_object(second).colored) == corners_of(
            v.colored,
        ) + first.corners() + second.corners(),
{
    lemma_submission_order(v, first);
    lemma_submission_order(v.add_colored_object(first), second);
}

/// A registered texture keeps its index: later registrations and
/// presents leave it where it is.
pub proof fn lemma_texture_index_is_stable(v: RendererView, texture: Image, later: Image)
    ensures
        v.register_texture(texture).textures[v.textures.len() as int] == texture,
        v.register_texture(texture).register_texture(later).textures[v.textures.len() as int]
            == texture,
        v.register_texture(texture).render().textures[v.textures.len() as int] == texture,
{
}

/// Queues of triangle lists stay queues of triangle lists under every
/// operation of a renderer.
pub proof fn lemma_queue_stays_well_formed(v: RendererView, mesh: Mesh<ColorVertex>)
    requires
        v.well_formed(),
        mesh.well_formed(),
    ensures
        v.add_colored_object(mesh).well_formed(),
        v.render().well_formed(),
        v.resize(v.size, v.scale_factor).well_formed(),
{
}

/// A type that outputs basic shapes to a region of a given `Renderer`.
pub struct Canvas<'a, R: Renderer> {
    /// Where the shapes go.
    pub renderer: &'a mut R,
    /// The region that shapes are placed into.
    pub bounds: Box2D,
}

/// The report of a draw call that yields `outcome`.
pub open spec fn reported(outcome: Result<Mesh<ColorVertex>, TessellationError>) -> Result<
    (),
    TessellationError,
> {
    match outcome {
        Ok(_) => Ok(()),
        Err(e) => Err(e),
    }
}

impl<'a, R: Renderer> Canvas<'a, R> {
    /// Create a new canvas from a renderer.
    pub fn new(renderer: &'a mut R, bounds: Box2D) -> (canvas: Canvas<'a, R>)
        ensures
            canvas.bounds == bounds,
            *canvas.renderer == *old(renderer),
            *final(canvas.renderer) == *final(renderer),
    {
        Canvas { renderer, bounds }
    }

    /// Lets `widget` draw into the region `bounds` of the same renderer:
    /// the widget's `render` runs once, on a canvas over this canvas's
    /// renderer with the region `bounds`. This canvas keeps its own region.
    pub fn render<T: Widget>(&mut self, widget: &mut T, bounds: Box2D)
        ensures
            old(widget).draws(
                final(widget),
                old(self).renderer.model(),
                final(self).renderer.model(),
                bounds,
            ),
            final(self).bounds == old(self).bounds,
            *final(final(self).renderer) == *final(old(self).renderer),
    {
        widget.render(Canvas::new(&mut *self.renderer, bounds))
    }

    /// Draw a colored filled path. On failure nothing is queued.
    pub fn fill_path(&mut self, path: ColorPath) -> (r: Result<(), TessellationError>)
        requires
            path.wf(),
        ensures
            r == reported(path_fill(path@, old(self).bounds)),
            final(self).renderer.model() == old(self).renderer.model().draw(
                path_fill(path@, old(self).bounds),
            ),
            final(self).bounds == old(self).bounds,
            *final(final(self).renderer) == *final(old(self).renderer),
    {
        match fill_path_mesh(&path, self.bounds) {
            Ok(geometry) => {
                self.renderer.add_colored_object(geometry);
                Ok(())
            },
            Err(e) => Err(e),
        }
    }

    /// Draw a colored stroked path. On failure nothing is queued.
    pub fn stroke_path(&mut self, path: ColorPath, stroke: StrokeStyle) -> (r: Result<
        (),
        TessellationError,
    >)
        requires
            path.wf(),
            stroke.spec_is_valid(),
        ensures
            r == reported(path_stroke(path@, stroke, old(self).bounds)),
            final(self).renderer.model() == old(self).renderer.model().draw(
                path_stroke(path@, stroke, old(self).bounds),
            ),
            final(self).bounds == old(self).bounds,
            *final(final(self).renderer) == *final(old(self).renderer),
    {
        match stroke_path_mesh(&path, stroke, self.bounds) {
            Ok(geometry) => {
                self.renderer.add_colored_object(geometry);
                Ok(())
            },
            Err(e) => Err(e),
        }
    }

    /// Draw a filled rectangle in one color: two triangles over its four
    /// corners, placed into the canvas region.
    pub fn fill_rect(&mut self, rect: Box2D, color: Color)
        requires
            is_exact_point(rect.min),
            is_exact_point(rect.max),
        ensures
            final(self).renderer.model() == old(self).renderer.model().add_colored_object(
                rect_fill(rect, color, old(self).bounds),
            ),
            final(self).bounds == old(self).bounds,
            *final(final(self).renderer) == *final(old(self).renderer),
    {
        let geometry = fill_rect_mesh(rect, color, self.bounds);
        self.renderer.add_colored_object(geometry);
    }

    /// Draw the stroked outline of a rectangle in one color. On failure
    /// nothing is queued.
    pub fn stroke_rect(&mut self, rect: Box2D, color: Color, stroke: StrokeStyle) -> (r: Result<
        (),
        TessellationError,
    >)
        requires
            is_exact_point(rect.min),
            is_exact_point(rect.max),
            stroke.spec_is_valid(),
        ensures
            r == reported(rect_stroke(rect, color, stroke, old(self).bounds)),
            final(self).renderer.model() == old(self).renderer.model().draw(
                rect_stroke(rect, color, stroke, old(self).bounds),
            ),
            final(self).bounds == old(self).bounds,
            *final(final(self).renderer) == *final(old(self).renderer),
    {
        match stroke_rect_mesh(rect, color, stroke, self.bounds) {
            Ok(geometry) => {
                self.renderer.add_colored_object(geometry);
                Ok(())
            },
            Err(e) => Err(e),
        }
    }
}

} // verus!
