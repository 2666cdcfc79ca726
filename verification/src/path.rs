//! Declarative vector paths: sub-paths of line and curve segments with
//! per-vertex attributes, built with a fluent builder and stored by the
//! `lyon` path crate.

use crate::colors::Color;
use crate::math::Point2D;
use crate::rendering::Image;
use lyon::path::path::BuilderWithAttributes;
use lyon::path::Path;
use vstd::prelude::*;

verus! {

/// The largest coordinate magnitude that the tessellator's single-precision
/// arithmetic represents exactly.
pub const MAX_EXACT: i32 = 16_777_216;

/// Whether `v` survives the conversion to single precision unchanged.
pub open spec fn is_exact(v: i32) -> bool {
    -MAX_EXACT <= v <= MAX_EXACT
}

/// Whether both coordinates of `p` are exact.
pub open spec fn is_exact_point(p: Point2D) -> bool {
    is_exact(p.x) && is_exact(p.y)
}

/// Whether every value of `s` is exact.
pub open spec fn all_exact(s: Seq<i32>) -> bool {
    forall|i: int| 0 <= i < s.len() ==> is_exact(#[trigger] s[i])
}

/// How the ends of a stroked sub-path are drawn.
#[derive(Debug, Clone, Copy, PartialEq, Eq, Hash, Structural)]
pub enum LineCap {
    /// The stroke stops at the endpoint.
    Butt,
    /// The stroke extends by half its width beyond the endpoint.
    Square,
    /// The stroke ends in a half circle around the endpoint.
    Round,
}

/// How two stroked segments are joined.
#[derive(Debug, Clone, Copy, PartialEq, Eq, Hash, Structural)]
pub enum LineJoin {
    /// A sharp corner.
    Miter,
    /// A sharp corner, cut off where it exceeds the miter limit.
    MiterClip,
    /// A round corner.
    Round,
    /// A flattened corner.
    Bevel,
}

/// Parameters of a stroke. The flattening tolerance is the tessellator's
/// default, a tenth of a unit.
#[derive(Debug, Clone, Copy, PartialEq, Eq, Hash, Structural)]
pub struct StrokeStyle {
    /// What cap to use at the start of each sub-path.
    pub start_cap: LineCap,
    /// What cap to use at the end of each sub-path.
    pub end_cap: LineCap,
    /// How segments are joined.
    pub line_join: LineJoin,
    /// The width of the stroke, in grid units.
    pub line_width: i32,
    /// How far a sharp corner may reach, in stroke widths; at least one.
    pub miter_limit: i32,
}

impl StrokeStyle {
    /// Whether the tessellator takes the style: the width is exact in
    /// single precision, and the miter limit is at least one and exact.
    pub open spec fn spec_is_valid(self) -> bool {
        is_exact(self.line_width) && 1 <= self.miter_limit <= MAX_EXACT
    }

    /// Whether the tessellator takes the style.
    pub fn is_valid(&self) -> (r: bool)
        ensures
            r == self.spec_is_valid(),
    {
        -MAX_EXACT <= self.line_width && self.line_width <= MAX_EXACT && 1 <= self.miter_limit
            && self.miter_limit <= MAX_EXACT
    }
}

impl Default for StrokeStyle {
    /// Butt caps, miter joins, one unit wide, with a miter limit of four.
    fn default() -> (options: StrokeStyle)
        ensures
            options == (StrokeStyle {
                start_cap: LineCap::Butt,
                end_cap: LineCap::Butt,
                line_join: LineJoin::Miter,
                line_width: 1,
                miter_limit: 4,
            }),
            options.spec_is_valid(),
    {
        StrokeStyle {
            start_cap: LineCap::Butt,
            end_cap: LineCap::Butt,
            line_join: LineJoin::Miter,
            line_width: 1,
            miter_limit: 4,
        }
    }
}

/// One step of a path, as it was handed to the builder.
pub enum PathEvent {
    /// Starts a sub-path at `at`.
    Begin { at: Point2D, attributes: Seq<i32> },
    /// A straight segment to `to`.
    Line { to: Point2D, attributes: Seq<i32> },
    /// A quadratic curve to `to` with control point `ctrl`.
    Quadratic { ctrl: Point2D, to: Point2D, attributes: Seq<i32> },
    /// A cubic curve to `to` with control points `ctrl1` and `ctrl2`.
    Cubic { ctrl1: Point2D, ctrl2: Point2D, to: Point2D, attributes: Seq<i32> },
    /// Ends the current sub-path, closing it back to its start if `close`.
    End { close: bool },
}

/// Whether a sub-path has been begun and not yet ended.
pub open spec fn in_subpath(events: Seq<PathEvent>) -> bool {
    events.len() > 0 && !(events.last() is End)
}

/// `lyon`'s path builder with per-vertex attributes, carried as it is;
/// what it has recorded is known through [`builder_events`] alone.
#[verifier::external_type_specification]
#[verifier::external_body]
pub struct ExBuilderWithAttributes(BuilderWithAttributes);

/// `lyon`'s finished path, carried as it is; what it holds is known
/// through [`path_events`] alone.
#[verifier::external_type_specification]
#[verifier::external_body]
pub struct ExPath(Path);

/// The steps that a builder has recorded, oldest first.
pub uninterp spec fn builder_events(builder: BuilderWithAttributes) -> Seq<PathEvent>;

/// The number of attributes per vertex that a builder was made with.
pub uninterp spec fn builder_width(builder: BuilderWithAttributes) -> nat;

/// The steps that a finished path holds, oldest first.
pub uninterp spec fn path_events(path: Path) -> Seq<PathEvent>;

/// The number of attributes per vertex of a finished path.
pub uninterp spec fn path_width(path: Path) -> nat;

/// `BuilderWithAttributes::new`: an empty builder for `width` attributes per vertex.
#[verifier::external_body]
fn lyon_builder(width: usize) -> (builder: BuilderWithAttributes)
    ensures
        builder_events(builder) == Seq::<PathEvent>::empty(),
        builder_width(builder) == width,
{
    BuilderWithAttributes::new(width)
}

/// `BuilderWithAttributes::begin`: records the start of a sub-path. The
/// crate refuses a second start within a sub-path and an attribute slice of
/// another width than the builder's.
#[verifier::external_body]
fn lyon_begin(builder: &mut BuilderWithAttributes, at: Point2D, attributes: &Vec<i32>)
    requires
        !in_subpath(builder_events(*old(builder))),
        attributes@.len() == builder_width(*old(builder)),
        is_exact_point(at),
        all_exact(attributes@),
    ensures
        builder_events(*final(builder)) == builder_events(*old(builder)).push(
            PathEvent::Begin { at, attributes: attributes@ },
        ),
        builder_width(*final(builder)) == builder_width(*old(builder)),
{
    let a: Vec<_> = attributes.iter().map(|v| *v as _).collect();
    builder.begin(lyon::math::point(at.x as _, at.y as _), &a);
}

/// `BuilderWithAttributes::end`: records the end of the current sub-path.
/// The crate refuses it outside a sub-path.
#[verifier::external_body]
fn lyon_end(builder: &mut BuilderWithAttributes, close: bool)
    requires
        in_subpath(builder_events(*old(builder))),
    ensures
        builder_events(*final(builder)) == builder_events(*old(builder)).push(
            PathEvent::End { close },
        ),
        builder_width(*final(builder)) == builder_width(*old(builder)),
{
    builder.end(close);
}

/// `BuilderWithAttributes::line_to`: records a straight segment. The crate
/// refuses it outside a sub-path and with a slice of another width.
#[verifier::external_body]
fn lyon_line_to(builder: &mut BuilderWithAttributes, to: Point2D, attributes: &Vec<i32>)
    requires
        in_subpath(builder_events(*old(builder))),
        attributes@.len() == builder_width(*old(builder)),
        is_exact_point(to),
        all_exact(attributes@),
    ensures
        builder_events(*final(builder)) == builder_events(*old(builder)).push(
            PathEvent::Line { to, attributes: attributes@ },
        ),
        builder_width(*final(builder)) == builder_width(*old(builder)),
{
    let a: Vec<_> = attributes.iter().map(|v| *v as _).collect();
    builder.line_to(lyon::math::point(to.x as _, to.y as _), &a);
}

/// `BuilderWithAttributes::quadratic_bezier_to`: records a quadratic curve.
/// The crate refuses it outside a sub-path and with a slice of another width.
#[verifier::external_body]
fn lyon_quadratic_bezier_to(
    builder: &mut BuilderWithAttributes,
    ctrl: Point2D,
    to: Point2D,
    attributes: &Vec<i32>,
)
    requires
        in_subpath(builder_events(*old(builder))),
        attributes@.len() == builder_width(*old(builder)),
        is_exact_point(ctrl),
        is_exact_point(to),
        all_exact(attributes@),
    ensures
        builder_events(*final(builder)) == builder_events(*old(builder)).push(
            PathEvent::Quadratic { ctrl, to, attributes: attributes@ },
        ),
        builder_width(*final(builder)) == builder_width(*old(builder)),
{
    let a: Vec<_> = attributes.iter().map(|v| *v as _).collect();
    let c = lyon::math::point(ctrl.x as _, ctrl.y as _);
    builder.quadratic_bezier_to(c, lyon::math::point(to.x as _, to.y as _), &a);
}

/// `BuilderWithAttributes::cubic_bezier_to`: records a cubic curve. The
/// crate refuses it outside a sub-path and with a slice of another width.
#[verifier::external_body]
fn lyon_cubic_bezier_to(
    builder: &mut BuilderWithAttributes,
    ctrl1: Point2D,
    ctrl2: Point2D,
    to: Point2D,
    attributes: &Vec<i32>,
)
    requires
        in_subpath(builder_events(*old(builder))),
        attributes@.len() == builder_width(*old(builder)),
        is_exact_point(ctrl1),
        is_exact_point(ctrl2),
        is_exact_point(to),
        all_exact(attributes@),
    ensures
        builder_events(*final(builder)) == builder_events(*old(builder)).push(
            PathEvent::Cubic { ctrl1, ctrl2, to, attributes: attributes@ },
        ),
        builder_width(*final(builder)) == builder_width(*old(builder)),
{
    let a: Vec<_> = attributes.iter().map(|v| *v as _).collect();
    let c1 = lyon::math::point(ctrl1.x as _, ctrl1.y as _);
    let c2 = lyon::math::point(ctrl2.x as _, ctrl2.y as _);
    builder.cubic_bezier_to(c1, c2, lyon::math::point(to.x as _, to.y as _), &a);
}

/// `BuilderWithAttributes::build`: the path with the recorded steps. The
/// crate refuses it within a sub-path.
#[verifier::external_body]
fn lyon_build(builder: BuilderWithAttributes) -> (path: Path)
    requires
        !in_subpath(builder_events(builder)),
    ensures
        path_events(path) == builder_events(builder),
        path_width(path) == builder_width(builder),
{
    builder.build()
}

/// The attributes that stand for a color: its four channels.
pub open spec fn color_attributes(color: Color) -> Seq<i32> {
    seq![color.r as i32, color.g as i32, color.b as i32, color.a as i32]
}

/// The attributes that stand for a texture coordinate.
pub open spec fn uv_attributes(uv: Point2D) -> Seq<i32> {
    seq![uv.x, uv.y]
}

fn channels(color: Color) -> (a: Vec<i32>)
    ensures
        a@ == color_attributes(color),
        all_exact(a@),
{
    let a = vec![color.r as i32, color.g as i32, color.b as i32, color.a as i32];
    assert(a@ =~= color_attributes(color));
    a
}

fn coordinates(uv: Point2D) -> (a: Vec<i32>)
    requires
        is_exact_point(uv),
    ensures
        a@ == uv_attributes(uv),
        all_exact(a@),
{
    let a = vec![uv.x, uv.y];
    assert(a@ =~= uv_attributes(uv));
    a
}

/// A finished path whose vertices carry a color.
pub struct ColorPath(pub(crate) Path);

impl View for ColorPath {
    type V = Seq<PathEvent>;

    closed spec fn view(&self) -> Seq<PathEvent> {
        path_events(self.0)
    }
}

impl ColorPath {
    /// A color path has four attributes per vertex and no open sub-path.
    pub closed spec fn wf(&self) -> bool {
        path_width(self.0) == 4 && !in_subpath(path_events(self.0))
    }

    /// The stored path, whose steps are this path's.
    pub(crate) fn inner(&self) -> (path: &Path)
        ensures
            path_events(*path) == self@,
            self.wf() ==> path_width(*path) == 4,
    {
        &self.0
    }

    /// Starts building a color path.
    pub fn build() -> (builder: ColorPathBuilder)
        ensures
            builder.wf(),
            builder@ == (ColorPathBuilderView { events: Seq::empty(), color: Color { r: 0, g: 0, b: 0, a: 255 } }),
    {
        ColorPathBuilder::new()
    }
}

/// A finished path whose vertices carry a texture coordinate, with its texture.
pub struct TexturePath(pub(crate) Path, pub(crate) Image);

impl View for TexturePath {
    type V = Seq<PathEvent>;

    closed spec fn view(&self) -> Seq<PathEvent> {
        path_events(self.0)
    }
}

impl TexturePath {
    /// A texture path has two attributes per vertex and no open sub-path.
    pub closed spec fn wf(&self) -> bool {
        path_width(self.0) == 2 && !in_subpath(path_events(self.0))
    }

    /// The texture that the path is drawn with.
    pub closed spec fn texture(&self) -> Image {
        self.1
    }

    /// The texture that the path is drawn with.
    pub fn image(&self) -> (image: &Image)
        ensures
            *image == self.texture(),
    {
        &self.1
    }

    /// Starts building a path textured with `image`.
    pub fn build(image: Image) -> (builder: TexturePathBuilder)
        ensures
            builder.wf(),
            builder@ == (TexturePathBuilderView { events: Seq::empty(), texture: image }),
    {
        TexturePathBuilder::new(image)
    }
}

/// The mathematical state of a [`ColorPathBuilder`].
pub struct ColorPathBuilderView {
    /// The steps recorded so far.
    pub events: Seq<PathEvent>,
    /// The color that the next vertex gets.
    pub color: Color,
}

/// Builds a [`ColorPath`] step by step; each vertex gets the current color.
pub struct ColorPathBuilder {
    builder: BuilderWithAttributes,
    color: Color,
}

impl View for ColorPathBuilder {
    type V = ColorPathBuilderView;

    closed spec fn view(&self) -> ColorPathBuilderView {
        ColorPathBuilderView { events: builder_events(self.builder), color: self.color }
    }
}

impl ColorPathBuilder {
    /// The builder records four attributes per vertex.
    pub closed spec fn wf(&self) -> bool {
        builder_width(self.builder) == 4
    }

    /// An empty builder whose current color is opaque black.
    pub fn new() -> (builder: ColorPathBuilder)
        ensures
            builder.wf(),
            builder@ == (ColorPathBuilderView { events: Seq::empty(), color: Color { r: 0, g: 0, b: 0, a: 255 } }),
    {
        ColorPathBuilder { builder: lyon_builder(4), color: Color::black() }
    }

    /// Sets the color of the vertices that follow.
    pub fn set_color(&mut self, color: Color)
        requires
            old(self).wf(),
        ensures
            final(self).wf(),
            final(self)@ == (ColorPathBuilderView { events: old(self)@.events, color }),
    {
        self.color = color;
    }

    /// Begins a sub-path at `point`.
    pub fn begin(self, point: Point2D) -> (r: ColorPathBuilder)
        requires
            self.wf(),
            !in_subpath(self@.events),
            is_exact_point(point),
        ensures
            r.wf(),
            r@.color == self@.color,
            r@.events == self@.events.push(
                PathEvent::Begin { at: point, attributes: color_attributes(self@.color) },
            ),
    {
        let mut this = self;
        let attributes = channels(this.color);
        lyon_begin(&mut this.builder, point, &attributes);
        this
    }

    /// Ends the current sub-path, closing it if `close`.
    pub fn end(self, close: bool) -> (r: ColorPathBuilder)
        requires
            self.wf(),
            in_subpath(self@.events),
        ensures
            r.wf(),
            r@.color == self@.color,
            r@.events == self@.events.push(PathEvent::End { close }),
    {
        let mut this = self;
        lyon_end(&mut this.builder, close);
        this
    }

    /// Adds a straight segment to `point`.
    pub fn line_to(self, point: Point2D) -> (r: ColorPathBuilder)
        requires
            self.wf(),
            in_subpath(self@.events),
            is_exact_point(point),
        ensures
            r.wf(),
            r@.color == self@.color,
            r@.events == self@.events.push(
                PathEvent::Line { to: point, attributes: color_attributes(self@.color) },
            ),
    {
        let mut this = self;
        let attributes = channels(this.color);
        lyon_line_to(&mut this.builder, point, &attributes);
        this
    }

    /// Adds a quadratic curve to `point` with control point `ctrl`.
    pub fn quadratic_bezier_to(self, ctrl: Point2D, point: Point2D) -> (r: ColorPathBuilder)
        requires
            self.wf(),
            in_subpath(self@.events),
            is_exact_point(ctrl),
            is_exact_point(point),
        ensures
            r.wf(),
            r@.color == self@.color,
            r@.events == self@.events.push(
                PathEvent::Quadratic { ctrl, to: point, attributes: color_attributes(self@.color) },
            ),
    {
        let mut this = self;
        let attributes = channels(this.color);
        lyon_quadratic_bezier_to(&mut this.builder, ctrl, point, &attributes);
        this
    }

    /// Adds a cubic curve to `point` with control points `ctrl1` and `ctrl2`.
    pub fn cubic_bezier_to(self, ctrl1: Point2D, ctrl2: Point2D, point: Point2D) -> (r:
        ColorPathBuilder)
        requires
            self.wf(),
            in_subpath(self@.events),
            is_exact_point(ctrl1),
            is_exact_point(ctrl2),
            is_exact_point(point),
        ensures
            r.wf(),
            r@.color == self@.color,
            r@.events == self@.events.push(
                PathEvent::Cubic {
                    ctrl1,
                    ctrl2,
                    to: point,
                    attributes: color_attributes(self@.color),
                },
            ),
    {
        let mut this = self;
        let attributes = channels(this.color);
        lyon_cubic_bezier_to(&mut this.builder, ctrl1, ctrl2, point, &attributes);
        this
    }

    /// Finishes the path.
    pub fn build(self) -> (path: ColorPath)
        requires
            self.wf(),
            !in_subpath(self@.events),
        ensures
            path.wf(),
            path@ == self@.events,
    {
        ColorPath(lyon_build(self.builder))
    }
}

/// The mathematical state of a [`TexturePathBuilder`].
pub struct TexturePathBuilderView {
    /// The steps recorded so far.
    pub events: Seq<PathEvent>,
    /// The texture of the path.
    pub texture: Image,
}

/// Builds a [`TexturePath`] step by step; each vertex gets a texture coordinate.
pub struct TexturePathBuilder {
    builder: BuilderWithAttributes,
    texture: Image,
}

impl View for TexturePathBuilder {
    type V = TexturePathBuilderView;

    closed spec fn view(&self) -> TexturePathBuilderView {
        TexturePathBuilderView { events: builder_events(self.builder), texture: self.texture }
    }
}

impl TexturePathBuilder {
    /// The builder records two attributes per vertex.
    pub closed spec fn wf(&self) -> bool {
        builder_width(self.builder) == 2
    }

    /// An empty builder for a path textured with `texture`.
    pub fn new(texture: Image) -> (builder: TexturePathBuilder)
        ensures
            builder.wf(),
            builder@ == (TexturePathBuilderView { events: Seq::empty(), texture }),
    {
        TexturePathBuilder { builder: lyon_builder(2), texture }
    }

    /// Begins a sub-path at `point`, which shows the texture at `uv`.
    pub fn begin(self, point: Point2D, uv: Point2D) -> (r: TexturePathBuilder)
        requires
            self.wf(),
            !in_subpath(self@.events),
            is_exact_point(point),
            is_exact_point(uv),
        ensures
            r.wf(),
            r@.texture == self@.texture,
            r@.events == self@.events.push(
                PathEvent::Begin { at: point, attributes: uv_attributes(uv) },
            ),
    {
        let mut this = self;
        let attributes = coordinates(uv);
        lyon_begin(&mut this.builder, point, &attributes);
        this
    }

    /// Ends the current sub-path, closing it if `close`.
    pub fn end(self, close: bool) -> (r: TexturePathBuilder)
        requires
            self.wf(),
            in_subpath(self@.events),
        ensures
            r.wf(),
            r@.texture == self@.texture,
            r@.events == self@.events.push(PathEvent::End { close }),
    {
        let mut this = self;
        lyon_end(&mut this.builder, close);
        this
    }

    /// Adds a straight segment to `point`, which shows the texture at `uv`.
    pub fn line_to(self, point: Point2D, uv: Point2D) -> (r: TexturePathBuilder)
        requires
            self.wf(),
            in_subpath(self@.events),
            is_exact_point(point),
            is_exact_point(uv),
        ensures
            r.wf(),
            r@.texture == self@.texture,
            r@.events == self@.events.push(
                PathEvent::Line { to: point, attributes: uv_attributes(uv) },
            ),
    {
        let mut this = self;
        let attributes = coordinates(uv);
        lyon_line_to(&mut this.builder, point, &attributes);
        this
    }

    /// Adds a quadratic curve to `point`, which shows the texture at `uv`.
    pub fn quadratic_bezier_to(self, ctrl: Point2D, point: Point2D, uv: Point2D) -> (r:
        TexturePathBuilder)
        requires
            self.wf(),
            in_subpath(self@.events),
            is_exact_point(ctrl),
            is_exact_point(point),
            is_exact_point(uv),
        ensures
            r.wf(),
            r@.texture == self@.texture,
            r@.events == self@.events.push(
                PathEvent::Quadratic { ctrl, to: point, attributes: uv_attributes(uv) },
            ),
    {
        let mut this = self;
        let attributes = coordinates(uv);
        lyon_quadratic_bezier_to(&mut this.builder, ctrl, point, &attributes);
        this
    }

    /// Adds a cubic curve to `point`, which shows the texture at `uv`.
    pub fn cubic_bezier_to(
        self,
        ctrl1: Point2D,
        ctrl2: Point2D,
        point: Point2D,
        uv: Point2D,
    ) -> (r: TexturePathBuilder)
        requires
            self.wf(),
            in_subpath(self@.events),
            is_exact_point(ctrl1),
            is_exact_point(ctrl2),
            is_exact_point(point),
            is_exact_point(uv),
        ensures
            r.wf(),
            r@.texture == self@.texture,
            r@.events == self@.events.push(
                PathEvent::Cubic { ctrl1, ctrl2, to: point, attributes: uv_attributes(uv) },
            ),
    {
        let mut this = self;
        let attributes = coordinates(uv);
        lyon_cubic_bezier_to(&mut this.builder, ctrl1, ctrl2, point, &attributes);
        this
    }

    /// Finishes the path.
    pub fn build(self) -> (path: TexturePath)
        requires
            self.wf(),
            !in_subpath(self@.events),
        ensures
            path.wf(),
            path@ == self@.events,
            path.texture() == self@.texture,
    {
        TexturePath(lyon_build(self.builder), self.texture)
    }
}

} // verus!
