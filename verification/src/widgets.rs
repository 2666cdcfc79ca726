//! The widget protocol and two reference widgets.

use crate::colors::Color;
use crate::input::{Input, InputView, MouseButton, MouseState, VirtualKeyCode, SPACE};
use crate::math::{Box2D, Size2D};
use crate::path::MAX_EXACT;
use crate::rendering::{Canvas, Renderer, RendererView};
use crate::tessellation::rect_fill;
use vstd::prelude::*;

verus! {

/// Which of the answers that have a default body a widget leaves as the
/// protocol gives them.
pub struct Defaults {
    /// `resize` returns what is proposed.
    pub resize: bool,
    /// `focus` changes nothing and declines.
    pub focus: bool,
}

impl Defaults {
    /// Every answer is the default one.
    pub open spec fn all() -> Defaults {
        Defaults { resize: true, focus: true }
    }
}

/// What every visual component implements. A parent calls its children's
/// `update` and `render` itself; nothing walks the tree for it.
///
/// What `size`, `update` and `render` do is given by the relations
/// [`Widget::sizes`], [`Widget::updates`] and [`Widget::draws`]. A widget
/// that restates none of them fills what it is offered, ignores the input
/// and is never dirty.
pub trait Widget: Sized {
    /// Which of `resize` and `focus` the implementation leaves as they
    /// are by default: both, unless it says otherwise.
    open spec fn defaults(&self) -> Defaults {
        Defaults::all()
    }

    /// Whether `size` may answer the offer `max` with `size`. By default
    /// the only answer is the offer itself.
    open spec fn sizes(&self, max: Size2D, size: Size2D) -> bool {
        size == max
    }

    /// Whether `update` may take the widget from `self` to `after` and
    /// report `dirty`, given `input`. By default the widget stays as it
    /// is and is not dirty.
    open spec fn updates(&self, after: &Self, input: InputView, dirty: bool) -> bool {
        !dirty && *after == *self
    }

    /// Whether `render` may take the widget from `self` to `after` and a
    /// renderer from the state `before` to the state `drawn` when it
    /// draws into the region `bounds`. Nothing is stated unless the
    /// implementation does.
    open spec fn draws(
        &self,
        after: &Self,
        before: RendererView,
        drawn: RendererView,
        bounds: Box2D,
    ) -> bool {
        true
    }

    /// The size the widget wants, given an upper bound.
    fn size(&self, max: Size2D) -> (size: Size2D)
        ensures
            self.sizes(max, size),
    ;

    /// The size the widget takes after an external resize. By default
    /// the proposal is accepted.
    fn resize(&self, new_size: Size2D) -> (size: Size2D)
        ensures
            self.defaults().resize ==> size == new_size,
    {
        new_size
    }

    /// Emits the widget's geometry into the region `canvas.bounds` of the
    /// renderer behind `canvas`.
    fn render<R: Renderer>(&mut self, canvas: Canvas<'_, R>)
        ensures
            old(self).draws(
                final(self),
                old(canvas.renderer).model(),
                final(canvas.renderer).model(),
                canvas.bounds,
            ),
    ;

    /// Changes the widget's state from the input. Returns whether the
    /// widget has to be rendered again.
    fn update(&mut self, input: &Input) -> (dirty: bool)
        ensures
            old(self).updates(final(self), input@, dirty),
    ;

    /// Offers the focus to the widget. By default nothing changes and it
    /// declines.
    fn focus(&mut self) -> (taken: bool)
        ensures
            old(self).defaults().focus ==> !taken && *final(self) == *old(self),
    {
        false
    }
}

/// An extent held within what the tessellator represents exactly.
pub open spec fn spec_held(v: i32) -> i32 {
    if v > MAX_EXACT {
        MAX_EXACT
    } else if v < -MAX_EXACT {
        (-MAX_EXACT) as i32
    } else {
        v
    }
}

/// Holds an extent within what the tessellator represents exactly.
pub fn held(v: i32) -> (r: i32)
    ensures
        r == spec_held(v),
{
    if v > MAX_EXACT {
        MAX_EXACT
    } else if v < -MAX_EXACT {
        -MAX_EXACT
    } else {
        v
    }
}

/// A rectangle of one color, drawn from the origin of its region.
pub struct Rectangle {
    pub color: Color,
    pub max_size: Size2D,
}

impl Rectangle {
    /// The box that the rectangle fills: from the origin to its extent,
    /// held within the exact range.
    pub open spec fn outline(&self) -> Box2D {
        Box2D::spec_from_size(
            Size2D { width: spec_held(self.max_size.width), height: spec_held(self.max_size.height) },
        )
    }
}

impl Default for Rectangle {
    /// An empty, fully transparent rectangle.
    fn default() -> (rectangle: Rectangle)
        ensures
            rectangle.color == (Color { r: 0, g: 0, b: 0, a: 0 }),
            rectangle.max_size == (Size2D { width: 0, height: 0 }),
    {
        Rectangle { color: Color::transparent(), max_size: Size2D { width: 0, height: 0 } }
    }
}

impl Widget for Rectangle {
    /// A rectangle answers `resize` itself.
    open spec fn defaults(&self) -> Defaults {
        Defaults { resize: false, focus: true }
    }

    /// A rectangle has its own size, whatever it is offered.
    open spec fn sizes(&self, max: Size2D, size: Size2D) -> bool {
        size == self.max_size
    }

    /// A rectangle stays as it is and queues its fill behind what is queued.
    open spec fn draws(
        &self,
        after: &Self,
        before: RendererView,
        drawn: RendererView,
        bounds: Box2D,
    ) -> bool {
        &&& *after == *self
        &&& drawn == before.add_colored_object(rect_fill(self.outline(), self.color, bounds))
    }

    fn size(&self, _max: Size2D) -> (size: Size2D) {
        self.max_size
    }

    /// A rectangle keeps its own size.
    fn resize(&self, _new_size: Size2D) -> (size: Size2D)
        ensures
            size == self.max_size,
    {
        self.max_size
    }

    fn render<R: Renderer>(&mut self, canvas: Canvas<'_, R>) {
        let mut canvas = canvas;
        let extent = Size2D { width: held(self.max_size.width), height: held(self.max_size.height) };
        canvas.fill_rect(Box2D::from_size(extent), self.color);
    }

    fn update(&mut self, _input: &Input) -> (dirty: bool) {
        false
    }
}

/// `fastrand::u8` on the range `0..255`: some value of that range.
#[verifier::external_body]
fn random_channel() -> (v: u8)
    ensures
        v < 255,
{
    fastrand::u8(0..255)
}

/// `fastrand::i32` on the range `0..limit`: some value of that range. The
/// crate refuses an empty range.
#[verifier::external_body]
fn random_below(limit: i32) -> (v: i32)
    requires
        limit > 0,
    ensures
        0 <= v < limit,
{
    fastrand::i32(0..limit)
}

/// The bound handed to the random number generator for an extent under
/// `max`: `max` itself, at most the largest exact coordinate, and zero
/// where `max` leaves no room.
pub open spec fn spec_extent_limit(max: i32) -> i32 {
    if max <= 0 {
        0
    } else if max > MAX_EXACT {
        MAX_EXACT
    } else {
        max
    }
}

/// Whether `value` may be drawn as an extent under `max`: from zero up to,
/// and not including, the bound for `max`; zero where the bound is zero.
pub open spec fn is_extent_below(value: i32, max: i32) -> bool {
    if spec_extent_limit(max) == 0 {
        value == 0
    } else {
        0 <= value < spec_extent_limit(max)
    }
}

/// The bound handed to the random number generator for an extent under `max`.
pub fn extent_limit(max: i32) -> (limit: i32)
    ensures
        limit == spec_extent_limit(max),
{
    if max <= 0 {
        0
    } else if max > MAX_EXACT {
        MAX_EXACT
    } else {
        max
    }
}

/// Whether `shape` is one that a random rectangle with the limit `max`
/// may take: an opaque color and an extent below the limit.
pub open spec fn is_random_shape(shape: Rectangle, max: Size2D) -> bool {
    &&& shape.color.a == 255
    &&& shape.color.r < 255
    &&& shape.color.g < 255
    &&& shape.color.b < 255
    &&& is_extent_below(shape.max_size.width, max.width)
    &&& is_extent_below(shape.max_size.height, max.height)
}

/// Whether the input asks a random rectangle for a new shape: the space
/// bar was pressed this tick, or the left button was clicked within the
/// bounds.
pub open spec fn asks_for_new_shape(input: InputView) -> bool {
    input.is_pressed(VirtualKeyCode(SPACE)) || input.mouse_query(
        MouseState::Clicked,
        MouseButton::Left,
    ) is Some
}

fn random_extent(max: i32) -> (v: i32)
    ensures
        is_extent_below(v, max),
{
    let limit = extent_limit(max);
    if limit > 0 {
        random_below(limit)
    } else {
        0
    }
}

fn random_shape(max_size: Size2D) -> (shape: Rectangle)
    ensures
        is_random_shape(shape, max_size),
{
    let r = random_channel();
    let g = random_channel();
    let b = random_channel();
    let width = random_extent(max_size.width);
    let height = random_extent(max_size.height);
    Rectangle { color: Color::rgba(r, g, b, 255), max_size: Size2D { width, height } }
}

/// A rectangle that changes size, shape and color when space or lmb are clicked.
pub struct RandomRectangle {
    rectangle: Rectangle,
    max_size: Size2D,
}

impl RandomRectangle {
    /// The rectangle that is drawn.
    pub closed spec fn shape(&self) -> Rectangle {
        self.rectangle
    }

    /// The limit of the rectangle's extent.
    pub closed spec fn limit(&self) -> Size2D {
        self.max_size
    }

    /// A rectangle of random color and extent below `max_size`.
    pub fn new(max_size: Size2D) -> (widget: RandomRectangle)
        ensures
            widget.limit() == max_size,
            is_random_shape(widget.shape(), max_size),
    {
        RandomRectangle { rectangle: random_shape(max_size), max_size }
    }

    /// The color of the rectangle that is drawn.
    pub fn color(&self) -> (color: Color)
        ensures
            color == self.shape().color,
    {
        self.rectangle.color
    }
}

impl Default for RandomRectangle {
    /// An empty, fully transparent rectangle that stays empty.
    fn default() -> (widget: RandomRectangle)
        ensures
            widget.limit() == (Size2D { width: 0, height: 0 }),
            widget.shape().max_size == (Size2D { width: 0, height: 0 }),
    {
        RandomRectangle { rectangle: Rectangle::default(), max_size: Size2D { width: 0, height: 0 } }
    }
}

impl Widget for RandomRectangle {
    /// A random rectangle answers `resize` itself.
    open spec fn defaults(&self) -> Defaults {
        Defaults { resize: false, focus: true }
    }

    /// The size of the rectangle as it is now, whatever it is offered.
    open spec fn sizes(&self, max: Size2D, size: Size2D) -> bool {
        size == self.shape().max_size
    }

    /// A random rectangle takes a new random shape exactly when the input
    /// asks for one, and is dirty exactly then; its limit stays.
    open spec fn updates(&self, after: &Self, input: InputView, dirty: bool) -> bool {
        &&& dirty == asks_for_new_shape(input)
        &&& after.limit() == self.limit()
        &&& dirty ==> is_random_shape(after.shape(), self.limit())
        &&& !dirty ==> after.shape() == self.shape()
    }

    /// A random rectangle stays as it is and queues the fill of its
    /// current shape behind what is queued.
    open spec fn draws(
        &self,
        after: &Self,
        before: RendererView,
        drawn: RendererView,
        bounds: Box2D,
    ) -> bool {
        &&& after.shape() == self.shape()
        &&& after.limit() == self.limit()
        &&& drawn == before.add_colored_object(
            rect_fill(self.shape().outline(), self.shape().color, bounds),
        )
    }

    fn size(&self, _max: Size2D) -> (size: Size2D) {
        self.rectangle.max_size
    }

    /// The size of the rectangle as it is now.
    fn resize(&self, _new_size: Size2D) -> (size: Size2D)
        ensures
            size == self.shape().max_size,
    {
        self.rectangle.max_size
    }

    fn render<R: Renderer>(&mut self, canvas: Canvas<'_, R>) {
        self.rectangle.render(canvas);
    }

    fn update(&mut self, input: &Input) -> (dirty: bool) {
        let clicked = input.is_mouse_clicked(MouseButton::Left).is_some();
        if input.is_pressed(VirtualKeyCode(SPACE)) || clicked {
            self.rectangle = random_shape(self.max_size);
            true
        } else {
            false
        }
    }
}

} // verus!
