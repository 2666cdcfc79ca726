//! The frame driver: what a window does with each event of the host's
//! event loop. The host owns the native window and the loop; it hands
//! every event to [`Window::handle_event`] and carries out the
//! [`Reaction`].

use crate::input::{Input, InputError, InputView, MouseButton, MouseState, VirtualKeyCode};
use crate::math::{Box2D, Point2D, ScaleFactor, Size2D};
use crate::rendering::{Canvas, Renderer, RendererView};
use crate::widgets::Widget;
use vstd::prelude::*;

verus! {

/// What the host's event loop reports.
#[derive(Debug, Clone, Copy, PartialEq, Eq, Hash, Structural)]
pub enum Event {
    /// The user asked to close the window.
    CloseRequested,
    /// A key went down (`pressed`) or up.
    KeyboardInput { pressed: bool, key: VirtualKeyCode },
    /// A pointer button went down (`pressed`) or up.
    MouseInput { pressed: bool, button: MouseButton },
    /// The pointer moved to `position`, in logical coordinates.
    CursorMoved { position: Point2D },
    /// All events of this tick have been delivered; the native window has
    /// the logical size `window_size` and the given scale factor.
    MainEventsCleared { window_size: Size2D, scale_factor: ScaleFactor },
    /// The native window wants to be drawn.
    RedrawRequested,
    /// Anything else.
    Ignored,
}

/// Whether the host's loop goes on.
#[derive(Debug, Clone, Copy, PartialEq, Eq, Hash, Structural)]
pub enum ControlFlow {
    /// Wait for the next event.
    Wait,
    /// Leave the loop.
    Exit,
}

/// What the host has to do after an event.
#[derive(Debug, Clone, Copy, PartialEq, Eq, Hash, Structural)]
pub struct Reaction {
    pub control_flow: ControlFlow,
    /// The logical size to give the native window, if it has to change.
    pub resize_to: Option<Size2D>,
    /// Whether to ask the native window for a redraw.
    pub request_redraw: bool,
}

impl Reaction {
    /// Nothing to do but wait.
    pub open spec fn spec_wait() -> Reaction {
        Reaction { control_flow: ControlFlow::Wait, resize_to: None, request_redraw: false }
    }

    /// Nothing to do but wait.
    pub fn wait() -> (r: Reaction)
        ensures
            r == Reaction::spec_wait(),
    {
        Reaction { control_flow: ControlFlow::Wait, resize_to: None, request_redraw: false }
    }

    /// Leave the loop.
    pub open spec fn spec_exit() -> Reaction {
        Reaction { control_flow: ControlFlow::Exit, resize_to: None, request_redraw: false }
    }

    /// Leave the loop.
    pub fn exit() -> (r: Reaction)
        ensures
            r == Reaction::spec_exit(),
    {
        Reaction { control_flow: ControlFlow::Exit, resize_to: None, request_redraw: false }
    }

    /// After a frame of the size `size` in a window of the size
    /// `window_size`: a redraw, and a resize if the two differ.
    pub open spec fn spec_frame(size: Size2D, window_size: Size2D) -> Reaction {
        Reaction {
            control_flow: ControlFlow::Wait,
            resize_to: if size == window_size {
                None
            } else {
                Some(size)
            },
            request_redraw: true,
        }
    }
}

/// The size offered to the root of a new window.
pub open spec fn default_size() -> Size2D {
    Size2D { width: 800, height: 600 }
}

/// The smallest size of a window.
pub open spec fn least_size() -> Size2D {
    Size2D { width: 1, height: 1 }
}

/// The input after a frame of the size `size`: its bounds follow the
/// frame if that is not the window's size.
pub open spec fn frame_input(input: InputView, size: Size2D, window_size: Size2D) -> InputView {
    if size == window_size {
        input
    } else {
        input.set_bounds(Box2D::spec_from_size(size))
    }
}

/// What drawing a frame does: the root, `root` before and `after`
/// afterwards, draws once into the box from the origin to `size`, taking
/// the renderer from `before` to some state; the renderer is left in that
/// state, resized if `size` is not the window's size.
pub open spec fn frame_drawn<Root: Widget>(
    root: Root,
    after: Root,
    before: RendererView,
    shown: RendererView,
    size: Size2D,
    window_size: Size2D,
    scale_factor: ScaleFactor,
) -> bool {
    exists|drawn: RendererView|
        #[trigger] root.draws(&after, before, drawn, Box2D::spec_from_size(size)) && shown == if size
            == window_size {
            drawn
        } else {
            drawn.resize(size, scale_factor)
        }
}

/// What follows the root's update, `dirty` being its answer. If it
/// reported no change, nothing happens and the host waits. If it reported
/// a change, it is asked once for its size within the window (at least
/// one unit each way), a frame of that size is drawn, and a redraw is
/// requested.
pub open spec fn update_followed<Root: Widget>(
    root: Root,
    after: Root,
    input: InputView,
    final_input: InputView,
    before: RendererView,
    shown: RendererView,
    window_size: Size2D,
    scale_factor: ScaleFactor,
    dirty: bool,
    r: Reaction,
) -> bool {
    if dirty {
        exists|size: Size2D|
            #[trigger] root.sizes(window_size.spec_max(least_size()), size) && frame_drawn(
                root,
                after,
                before,
                shown,
                size,
                window_size,
                scale_factor,
            ) && r == Reaction::spec_frame(size, window_size) && final_input == frame_input(
                input,
                size,
                window_size,
            )
    } else {
        after == root && shown == before && r == Reaction::spec_wait() && final_input == input
    }
}

/// What the end of a tick does, `input` being the input after its own
/// update: the root is updated once with that input, a redraw is
/// requested exactly if it reports a change, and what follows is as
/// [`update_followed`] says.
pub open spec fn tick_done<Root: Widget>(
    root: Root,
    after: Root,
    input: InputView,
    final_input: InputView,
    before: RendererView,
    shown: RendererView,
    window_size: Size2D,
    scale_factor: ScaleFactor,
    r: Reaction,
) -> bool {
    exists|mid: Root, dirty: bool|
        #[trigger] root.updates(&mid, input, dirty) && r.request_redraw == dirty && update_followed(
            mid,
            after,
            input,
            final_input,
            before,
            shown,
            window_size,
            scale_factor,
            dirty,
            r,
        )
}

/// What setting up a window does, `input` being the input after its
/// first tick: the root is updated once with that input, then draws once
/// over the whole window, and the frame is shown, which empties the
/// queues.
pub open spec fn first_frame<Root: Widget>(
    root: Root,
    after: Root,
    input: InputView,
    before: RendererView,
    shown: RendererView,
    size: Size2D,
) -> bool {
    exists|mid: Root, dirty: bool, drawn: RendererView|
        #[trigger] root.updates(&mid, input, dirty) && #[trigger] mid.draws(
            &after,
            before,
            drawn,
            Box2D::spec_from_size(size),
        ) && shown == drawn.render()
}

/// The input, renderer and root widget of one window.
pub struct Window<R: Renderer, Root: Widget> {
    input: Input,
    renderer: R,
    root: Root,
}

impl<R: Renderer, Root: Widget> Window<R, Root> {
    /// The state of the input.
    pub closed spec fn input(&self) -> InputView {
        self.input@
    }

    /// The renderer.
    pub closed spec fn renderer(&self) -> R {
        self.renderer
    }

    /// The root widget.
    pub closed spec fn root(&self) -> Root {
        self.root
    }

    /// The invariant of the input holds.
    pub closed spec fn wf(&self) -> bool {
        self.input.wf()
    }

    /// The size of a new window for `root`: what the root makes of the
    /// default size of 800 by 600, and at least one unit each way.
    pub fn initial_size(root: &Root) -> (size: Size2D)
        ensures
            exists|answer: Size2D|
                #[trigger] root.sizes(default_size(), answer) && size == answer.spec_max(least_size()),
    {
        let answer = root.size(Size2D { width: 800, height: 600 });
        assert(root.sizes(default_size(), answer));
        answer.max(Size2D { width: 1, height: 1 })
    }

    /// Sets up the state of a window of the logical size `size`: the
    /// input covers the window, one tick has passed, the root has been
    /// updated and drawn once over the whole window, and the frame has
    /// been shown, so that nothing is queued.
    pub fn new(renderer: R, root: Root, size: Size2D) -> (window: Window<R, Root>)
        ensures
            window.wf(),
            window.input() == InputView::initial(Box2D::spec_from_size(size)).update(),
            first_frame(
                root,
                window.root(),
                window.input(),
                renderer.model(),
                window.renderer().model(),
                size,
            ),
            window.renderer().model().colored.len() == 0,
            window.renderer().model().textured.len() == 0,
    {
        let mut renderer = renderer;
        let mut root = root;
        let ghost first = root;
        let ghost before = renderer.model();
        let mut input = Input::new(Box2D::from_size(size));
        input.update();
        let dirty = root.update(&input);
        let ghost mid = root;
        root.render(Canvas::new(&mut renderer, Box2D::from_size(size)));
        let ghost drawn = renderer.model();
        renderer.render();
        proof {
            assert(first.updates(&mid, input@, dirty));
            assert(mid.draws(&root, before, drawn, Box2D::spec_from_size(size)));
        }
        Window { input, renderer, root }
    }

    /// Puts together the state of a window of the logical size `size`
    /// without a first frame: the input covers the window and is at rest,
    /// renderer and root are as given.
    pub fn from_parts(renderer: R, root: Root, size: Size2D) -> (window: Window<R, Root>)
        ensures
            window.wf(),
            window.input() == InputView::initial(Box2D::spec_from_size(size)),
            window.renderer() == renderer,
            window.root() == root,
    {
        Window { input: Input::new(Box2D::from_size(size)), renderer, root }
    }

    /// The input, for queries.
    pub fn input_state(&self) -> (input: &Input)
        ensures
            input@ == self.input(),
    {
        &self.input
    }

    /// The renderer, for inspection.
    pub fn renderer_state(&self) -> (renderer: &R)
        ensures
            *renderer == self.renderer(),
    {
        &self.renderer
    }

    /// The root widget, for inspection.
    pub fn root_widget(&self) -> (root: &Root)
        ensures
            *root == self.root(),
    {
        &self.root
    }

    /// Draws a frame after the root reported a change and asked for
    /// `size`: the root draws once over the box from the origin to
    /// `size`; if that is not the window's size, the input bounds and the
    /// renderer follow the new size and the host is told to resize the
    /// native window. A redraw is requested either way.
    pub fn draw_frame(&mut self, size: Size2D, window_size: Size2D, scale_factor: ScaleFactor) -> (r:
        Reaction)
        requires
            old(self).wf(),
        ensures
            final(self).wf(),
            r == Reaction::spec_frame(size, window_size),
            final(self).input() == frame_input(old(self).input(), size, window_size),
            frame_drawn(
                old(self).root(),
                final(self).root(),
                old(self).renderer().model(),
                final(self).renderer().model(),
                size,
                window_size,
                scale_factor,
            ),
    {
        let ghost before = self.renderer.model();
        self.root.render(Canvas::new(&mut self.renderer, Box2D::from_size(size)));
        let ghost drawn = self.renderer.model();
        let resized = size.width != window_size.width || size.height != window_size.height;
        if resized {
            self.input.set_bounds(Box2D::from_size(size));
            self.renderer.resize(size, scale_factor);
        }
        proof {
            assert(old(self).root().draws(&self.root, before, drawn, Box2D::spec_from_size(size)));
        }
        Reaction {
            control_flow: ControlFlow::Wait,
            resize_to: if resized { Some(size) } else { None },
            request_redraw: true,
        }
    }

    /// Does what follows the root's update, `dirty` being its answer: a
    /// clean root skips the frame, so that nothing changes and the host
    /// waits; a dirty root is asked for its size within the window (at
    /// least one unit each way), and a frame is drawn as by
    /// [`Window::draw_frame`].
    pub fn follow_update(&mut self, dirty: bool, window_size: Size2D, scale_factor: ScaleFactor) -> (r:
        Reaction)
        requires
            old(self).wf(),
        ensures
            final(self).wf(),
            r.request_redraw == dirty,
            update_followed(
                old(self).root(),
                final(self).root(),
                old(self).input(),
                final(self).input(),
                old(self).renderer().model(),
                final(self).renderer().model(),
                window_size,
                scale_factor,
                dirty,
                r,
            ),
            !dirty ==> final(self).renderer() == old(self).renderer(),
    {
        if dirty {
            let size = self.root.size(window_size.max(Size2D { width: 1, height: 1 }));
            proof {
                assert(old(self).root().sizes(window_size.spec_max(least_size()), size));
            }
            self.draw_frame(size, window_size, scale_factor)
        } else {
            Reaction::wait()
        }
    }

    /// Ends a tick: the input is updated, then the root, once, with the
    /// updated input, and what follows is done by
    /// [`Window::follow_update`]: a root that reports no change is not
    /// drawn, and the renderer stays as it is.
    pub fn tick(&mut self, window_size: Size2D, scale_factor: ScaleFactor) -> (r: Reaction)
        requires
            old(self).wf(),
        ensures
            final(self).wf(),
            tick_done(
                old(self).root(),
                final(self).root(),
                old(self).input().update(),
                final(self).input(),
                old(self).renderer().model(),
                final(self).renderer().model(),
                window_size,
                scale_factor,
                r,
            ),
            !r.request_redraw ==> final(self).renderer() == old(self).renderer(),
    {
        self.input.update();
        let ghost input = self.input@;
        let dirty = self.root.update(&self.input);
        let ghost mid = self.root;
        let r = self.follow_update(dirty, window_size, scale_factor);
        proof {
            assert(old(self).root().updates(&mid, input, dirty));
        }
        r
    }

    /// Handles one event of the host's loop. Key and button events are
    /// buffered, a pointer move takes effect at once, the end of a tick
    /// runs [`Window::tick`], a redraw request shows what is queued, and
    /// a close request ends the loop. An event of a pointer button
    /// without state is refused and changes nothing. Only the end of a
    /// tick touches the root.
    pub fn handle_event(&mut self, event: Event) -> (r: Result<Reaction, InputError>)
        requires
            old(self).wf(),
        ensures
            final(self).wf(),
            match event {
                Event::CloseRequested => {
                    &&& r == Ok::<Reaction, InputError>(Reaction::spec_exit())
                    &&& final(self).input() == old(self).input()
                    &&& final(self).renderer() == old(self).renderer()
                    &&& final(self).root() == old(self).root()
                },
                Event::KeyboardInput { pressed, key } => {
                    &&& r == Ok::<Reaction, InputError>(Reaction::spec_wait())
                    &&& final(self).input() == if pressed {
                        old(self).input().process_pressed(key)
                    } else {
                        old(self).input().process_released(key)
                    }
                    &&& final(self).renderer() == old(self).renderer()
                    &&& final(self).root() == old(self).root()
                },
                Event::MouseInput { pressed, button } => {
                    &&& r == match button {
                        MouseButton::Other(n) => Err::<Reaction, InputError>(
                            InputError::UnsupportedButton(n),
                        ),
                        _ => Ok(Reaction::spec_wait()),
                    }
                    &&& final(self).input() == if button is Other {
                        old(self).input()
                    } else {
                        old(self).input().process_mouse_event(
                            if pressed {
                                MouseState::Clicked
                            } else {
                                MouseState::Released
                            },
                            button,
                        )
                    }
                    &&& final(self).renderer() == old(self).renderer()
                    &&& final(self).root() == old(self).root()
                },
                Event::CursorMoved { position } => {
                    &&& r == Ok::<Reaction, InputError>(Reaction::spec_wait())
                    &&& final(self).input() == old(self).input().process_mouse_move(position)
                    &&& final(self).renderer() == old(self).renderer()
                    &&& final(self).root() == old(self).root()
                },
                Event::MainEventsCleared { window_size, scale_factor } => {
                    &&& r matches Ok(reaction)
                    &&& tick_done(
                        old(self).root(),
                        final(self).root(),
                        old(self).input().update(),
                        final(self).input(),
                        old(self).renderer().model(),
                        final(self).renderer().model(),
                        window_size,
                        scale_factor,
                        reaction,
                    )
                    &&& !reaction.request_redraw ==> final(self).renderer() == old(self).renderer()
                },
                Event::RedrawRequested => {
                    &&& r == Ok::<Reaction, InputError>(Reaction::spec_wait())
                    &&& final(self).input() == old(self).input()
                    &&& final(self).renderer().model() == old(self).renderer().model().render()
                    &&& final(self).root() == old(self).root()
                },
                Event::Ignored => {
                    &&& r == Ok::<Reaction, InputError>(Reaction::spec_wait())
                    &&& final(self).input() == old(self).input()
                    &&& final(self).renderer() == old(self).renderer()
                    &&& final(self).root() == old(self).root()
                },
            },
    {
        match event {
            Event::CloseRequested => Ok(Reaction::exit()),
            Event::KeyboardInput { pressed, key } => {
                if pressed {
                    self.input.process_pressed(key);
                } else {
                    self.input.process_released(key);
                }
                Ok(Reaction::wait())
            },
            Event::MouseInput { pressed, button } => {
                match button {
                    MouseButton::Other(n) => Err(InputError::UnsupportedButton(n)),
                    _ => {
                        if pressed {
                            self.input.process_mouse_click(button);
                        } else {
                            self.input.process_mouse_release(button);
                        }
                        Ok(Reaction::wait())
                    },
                }
            },
            Event::CursorMoved { position } => {
                self.input.process_mouse_move(position);
                Ok(Reaction::wait())
            },
            Event::MainEventsCleared { window_size, scale_factor } => Ok(
                self.tick(window_size, scale_factor),
            ),
            Event::RedrawRequested => {
                self.renderer.render();
                Ok(Reaction::wait())
            },
            Event::Ignored => Ok(Reaction::wait()),
        }
    }
}

} // verus!
