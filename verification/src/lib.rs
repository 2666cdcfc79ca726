//! A minimal retained-mode UI toolkit core with machine-checked contracts.
//!
//! - [`input`]: the input state machine that turns buffered raw events
//!   into stable pressed / down / released states, once per tick.
//! - [`path`] and [`tessellation`]: declarative vector paths and their
//!   conversion into indexed triangle lists, placed into a region.
//! - [`rendering`]: the renderer capability, a recording renderer, and
//!   the canvas that widgets draw on.
//! - [`widgets`]: the widget protocol and two reference widgets.
//! - [`window`]: the frame driver that a host's event loop calls.
//! - [`colors`] and [`math`]: colors, and geometry on an integer grid.
//!
//! Coordinates are integers; the host decides what one unit is.
//! Triangulation is done by the `lyon` crates and random numbers come
//! from `fastrand`; what the toolkit assumes of them is stated on the
//! functions that call them.

pub mod colors;
pub mod input;
pub mod math;
pub mod path;
pub mod rendering;
pub mod tessellation;
pub mod widgets;
pub mod window;
