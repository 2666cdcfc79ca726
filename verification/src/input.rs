//! The input state machine: raw events are buffered as they arrive and
//! promoted into stable per-key and per-button states once per tick.

use crate::math::{Box2D, Point2D};
use std::collections::HashMap;
use vstd::prelude::*;

verus! {

broadcast use vstd::std_specs::hash::group_hash_axioms;

/// The state of one key.
#[derive(Debug, Clone, Copy, PartialEq, Eq, Hash, Structural)]
pub enum KeyState {
    Pressed,
    Down,
    Released,
    /// At rest: not held, and not released during this tick.
    Idle,
}

/// The state of one pointer button.
#[derive(Debug, Clone, Copy, PartialEq, Eq, Hash, Structural)]
pub enum MouseState {
    Clicked,
    Down,
    Released,
    /// At rest: not held, and not released during this tick.
    Idle,
}

impl Default for MouseState {
    fn default() -> (s: MouseState)
        ensures
            s == MouseState::Idle,
    {
        MouseState::Idle
    }
}

/// A pointer button. Only the first three carry state.
#[derive(Debug, Clone, Copy, PartialEq, Eq, Hash, Structural)]
pub enum MouseButton {
    Left,
    Right,
    Middle,
    Other(u16),
}

impl MouseButton {
    /// Whether the button is one of the three that carry state.
    pub fn is_supported(&self) -> (r: bool)
        ensures
            r == !(*self is Other),
    {
        match self {
            MouseButton::Other(_) => false,
            _ => true,
        }
    }
}

/// The identifier of a key, as the windowing layer numbers it.
#[derive(Debug, Clone, Copy, PartialEq, Eq, Hash, Structural)]
pub struct VirtualKeyCode(pub u32);

/// The code of the space bar.
pub const SPACE: u32 = 76;

/// Why an input event was refused.
#[derive(Debug, Clone, Copy, PartialEq, Eq, Hash, Structural)]
pub enum InputError {
    /// The pointer button with this number has no state in the toolkit.
    UnsupportedButton(u16),
}

/// What one tick does to a key that no event names.
pub open spec fn decay_key(s: KeyState) -> KeyState {
    match s {
        KeyState::Pressed => KeyState::Down,
        KeyState::Released => KeyState::Idle,
        other => other,
    }
}

/// What one tick does to a button that no event names.
pub open spec fn decay_mouse(s: MouseState) -> MouseState {
    match s {
        MouseState::Clicked => MouseState::Down,
        MouseState::Released => MouseState::Idle,
        other => other,
    }
}

/// The state carried by the earliest event for `button`, if there is one.
pub open spec fn first_event(events: Seq<(MouseState, MouseButton)>, button: MouseButton) -> Option<
    MouseState,
>
    decreases events.len(),
{
    if events.len() == 0 {
        None
    } else {
        match first_event(events.drop_last(), button) {
            Some(s) => Some(s),
            None => if events.last().1 == button {
                Some(events.last().0)
            } else {
                None
            },
        }
    }
}

/// The state of a button after a tick: the earliest event for it if one was
/// buffered, else its decayed state.
pub open spec fn next_mouse_state(
    current: MouseState,
    events: Seq<(MouseState, MouseButton)>,
    button: MouseButton,
) -> MouseState {
    match first_event(events, button) {
        Some(s) => s,
        None => decay_mouse(current),
    }
}

/// The mathematical state of an [`Input`].
#[verifier::ext_equal]
pub struct InputView {
    /// The state of every key; keys never seen are `Idle`.
    pub keys: Map<u32, KeyState>,
    /// Keys pressed since the last tick, oldest first.
    pub pressed: Seq<u32>,
    /// Keys released since the last tick, oldest first.
    pub released: Seq<u32>,
    /// The pointer position as last reported.
    pub pointer: Point2D,
    pub left: MouseState,
    pub middle: MouseState,
    pub right: MouseState,
    /// Button events since the last tick, oldest first.
    pub mouse_events: Seq<(MouseState, MouseButton)>,
    /// The region that pointer positions are checked against.
    pub bounds: Box2D,
}

impl InputView {
    /// The state right after construction with `bounds`.
    pub open spec fn initial(bounds: Box2D) -> InputView {
        InputView {
            keys: Map::new(|k: u32| true, |k: u32| KeyState::Idle),
            pressed: Seq::empty(),
            released: Seq::empty(),
            pointer: Point2D { x: 0, y: 0 },
            left: MouseState::Idle,
            middle: MouseState::Idle,
            right: MouseState::Idle,
            mouse_events: Seq::empty(),
            bounds,
        }
    }

    pub open spec fn key_state(self, key: VirtualKeyCode) -> KeyState {
        self.keys[key.0]
    }

    pub open spec fn is_down(self, key: VirtualKeyCode) -> bool {
        self.key_state(key) == KeyState::Pressed || self.key_state(key) == KeyState::Down
    }

    pub open spec fn is_pressed(self, key: VirtualKeyCode) -> bool {
        self.key_state(key) == KeyState::Pressed
    }

    pub open spec fn is_released(self, key: VirtualKeyCode) -> bool {
        self.key_state(key) == KeyState::Released
    }

    /// The state of a button; a button without state reads as `Idle`.
    pub open spec fn mouse_state(self, button: MouseButton) -> MouseState {
        match button {
            MouseButton::Left => self.left,
            MouseButton::Middle => self.middle,
            MouseButton::Right => self.right,
            MouseButton::Other(_) => MouseState::Idle,
        }
    }

    /// The pointer position in the coordinate space of the bounds.
    pub open spec fn mouse_position(self) -> Point2D {
        self.pointer.spec_into_region(self.bounds)
    }

    /// The answer to "is `button` in state `wanted`, and where": the mapped
    /// pointer position exactly when the button is in that state and the raw
    /// pointer lies within the bounds.
    pub open spec fn mouse_query(self, wanted: MouseState, button: MouseButton) -> Option<Point2D> {
        if self.mouse_state(button) == wanted && self.bounds.spec_contains(self.pointer) {
            Some(self.mouse_position())
        } else {
            None
        }
    }

    pub open spec fn needs_update(self) -> bool {
        self.pressed.len() > 0 || self.released.len() > 0 || self.mouse_events.len() > 0
    }

    pub open spec fn process_pressed(self, key: VirtualKeyCode) -> InputView {
        InputView { pressed: self.pressed.push(key.0), ..self }
    }

    pub open spec fn process_released(self, key: VirtualKeyCode) -> InputView {
        InputView { released: self.released.push(key.0), ..self }
    }

    pub open spec fn process_mouse_move(self, pos: Point2D) -> InputView {
        InputView { pointer: pos, ..self }
    }

    /// Buffers the event `(state, button)` behind those already buffered.
    pub open spec fn process_mouse_event(self, state: MouseState, button: MouseButton) -> InputView {
        InputView { mouse_events: self.mouse_events.push((state, button)), ..self }
    }

    pub open spec fn set_bounds(self, bounds: Box2D) -> InputView {
        InputView { bounds, ..self }
    }

    /// The state of `key` after a tick: a buffered release wins over a
    /// buffered press, and a key that no event names decays.
    pub open spec fn next_key_state(self, key: u32) -> KeyState {
        if self.released.contains(key) {
            KeyState::Released
        } else if self.pressed.contains(key) {
            KeyState::Pressed
        } else {
            decay_key(self.keys[key])
        }
    }

    /// One tick: every key and button takes its next state and all buffers
    /// are emptied; pointer and bounds stay.
    pub open spec fn update(self) -> InputView {
        InputView {
            keys: Map::new(|k: u32| true, |k: u32| self.next_key_state(k)),
            pressed: Seq::empty(),
            released: Seq::empty(),
            pointer: self.pointer,
            left: next_mouse_state(self.left, self.mouse_events, MouseButton::Left),
            middle: next_mouse_state(self.middle, self.mouse_events, MouseButton::Middle),
            right: next_mouse_state(self.right, self.mouse_events, MouseButton::Right),
            mouse_events: Seq::empty(),
            bounds: self.bounds,
        }
    }
}

/// The state that `map` holds for `key`; a key without an entry is `Idle`.
pub open spec fn stored(map: Map<u32, KeyState>, key: u32) -> KeyState {
    if map.contains_key(key) {
        map[key]
    } else {
        KeyState::Idle
    }
}

/// Input state and event buffers of one window or region.
pub struct Input {
    down: HashMap<u32, KeyState>,
    /// The keys that the last tick may have left `Pressed` or `Released`:
    /// the only ones that the next tick has to decay.
    fresh: Vec<u32>,
    pressed_buffer: Vec<u32>,
    released_buffer: Vec<u32>,
    mouse_position: Point2D,
    left_mouse_state: MouseState,
    middle_mouse_state: MouseState,
    right_mouse_state: MouseState,
    mouse_buffer: Vec<(MouseState, MouseButton)>,
    bounds: Box2D,
}

fn lookup(map: &HashMap<u32, KeyState>, key: u32) -> (s: KeyState)
    ensures
        s == stored(map@, key),
{
    match map.get(&key) {
        Some(s) => *s,
        None => KeyState::Idle,
    }
}

fn decay_all(map: &mut HashMap<u32, KeyState>, keys: &Vec<u32>)
    ensures
        forall|k: u32|
            stored(final(map)@, k) == if keys@.contains(k) {
                decay_key(#[trigger] stored(old(map)@, k))
            } else {
                stored(old(map)@, k)
            },
{
    let mut i: usize = 0;
    while i < keys.len()
        invariant
            i <= keys.len(),
            forall|k: u32|
                stored(map@, k) == if keys@.take(i as int).contains(k) {
                    decay_key(#[trigger] stored(old(map)@, k))
                } else {
                    stored(old(map)@, k)
                },
        decreases keys.len() - i,
    {
        let key = keys[i];
        let ghost before = map@;
        match lookup(map, key) {
            KeyState::Pressed => {
                map.insert(key, KeyState::Down);
            },
            KeyState::Released => {
                map.insert(key, KeyState::Idle);
            },
            _ => {},
        }
        proof {
            let prefix = keys@.take(i as int);
            let longer = keys@.take(i + 1);
            assert(longer =~= prefix.push(key));
            assert forall|k: u32|
                stored(map@, k) == if longer.contains(k) {
                    decay_key(#[trigger] stored(old(map)@, k))
                } else {
                    stored(old(map)@, k)
                } by {
                if k == key {
                    assert(longer[i as int] == key);
                } else {
                    assert(stored(map@, k) == stored(before, k));
                    if longer.contains(k) {
                        let j = choose|j: int| 0 <= j < longer.len() && longer[j] == k;
                        assert(prefix[j] == k);
                    }
                    if prefix.contains(k) {
                        let j = choose|j: int| 0 <= j < prefix.len() && prefix[j] == k;
                        assert(longer[j] == k);
                    }
                }
            }
        }
        i += 1;
    }
    assert(keys@.take(keys.len() as int) =~= keys@);
}

fn set_all(map: &mut HashMap<u32, KeyState>, keys: &Vec<u32>, state: KeyState)
    ensures
        forall|k: u32|
            #[trigger] stored(final(map)@, k) == if keys@.contains(k) {
                state
            } else {
                stored(old(map)@, k)
            },
{
    let mut i: usize = 0;
    while i < keys.len()
        invariant
            i <= keys.len(),
            forall|k: u32|
                #[trigger] stored(map@, k) == if keys@.take(i as int).contains(k) {
                    state
                } else {
                    stored(old(map)@, k)
                },
        decreases keys.len() - i,
    {
        let key = keys[i];
        let ghost before = map@;
        map.insert(key, state);
        proof {
            let prefix = keys@.take(i as int);
            let longer = keys@.take(i + 1);
            assert(longer =~= prefix.push(key));
            assert forall|k: u32|
                #[trigger] stored(map@, k) == if longer.contains(k) {
                    state
                } else {
                    stored(old(map)@, k)
                } by {
                if k == key {
                    assert(longer[i as int] == key);
                } else {
                    assert(stored(map@, k) == stored(before, k));
                    if longer.contains(k) {
                        let j = choose|j: int| 0 <= j < longer.len() && longer[j] == k;
                        assert(prefix[j] == k);
                    }
                    if prefix.contains(k) {
                        let j = choose|j: int| 0 <= j < prefix.len() && prefix[j] == k;
                        assert(longer[j] == k);
                    }
                }
            }
        }
        i += 1;
    }
    assert(keys@.take(keys.len() as int) =~= keys@);
}

fn earliest(events: &Vec<(MouseState, MouseButton)>, button: MouseButton) -> (r: Option<MouseState>)
    ensures
        r == first_event(events@, button),
{
    let mut found: Option<MouseState> = None;
    let mut i: usize = 0;
    while i < events.len()
        invariant
            i <= events.len(),
            found == first_event(events@.take(i as int), button),
        decreases events.len() - i,
    {
        proof {
            assert(events@.take(i + 1).drop_last() =~= events@.take(i as int));
        }
        if found.is_none() && events[i].1 == button {
            found = Some(events[i].0);
        }
        i += 1;
    }
    assert(events@.take(events.len() as int) =~= events@);
    found
}

fn decayed(state: MouseState) -> (s: MouseState)
    ensures
        s == decay_mouse(state),
{
    match state {
        MouseState::Clicked => MouseState::Down,
        MouseState::Released => MouseState::Idle,
        other => other,
    }
}

fn promoted(current: MouseState, events: &Vec<(MouseState, MouseButton)>, button: MouseButton) -> (s:
    MouseState)
    ensures
        s == next_mouse_state(current, events@, button),
{
    match earliest(events, button) {
        Some(s) => s,
        None => decayed(current),
    }
}

impl View for Input {
    type V = InputView;

    closed spec fn view(&self) -> InputView {
        InputView {
            keys: Map::new(|k: u32| true, |k: u32| stored(self.down@, k)),
            pressed: self.pressed_buffer@,
            released: self.released_buffer@,
            pointer: self.mouse_position,
            left: self.left_mouse_state,
            middle: self.middle_mouse_state,
            right: self.right_mouse_state,
            mouse_events: self.mouse_buffer@,
            bounds: self.bounds,
        }
    }
}

impl Default for Input {
    /// An input with every key and button at rest and empty bounds at the origin.
    fn default() -> (input: Input)
        ensures
            input.wf(),
            input@ == InputView::initial(Box2D { min: Point2D { x: 0, y: 0 }, max: Point2D { x: 0, y: 0 } }),
    {
        Input::new(Box2D { min: Point2D { x: 0, y: 0 }, max: Point2D { x: 0, y: 0 } })
    }
}

impl Input {
    /// The representation invariant: a key that is `Pressed` or `Released`
    /// is among those that the next tick will decay.
    pub closed spec fn wf(&self) -> bool {
        forall|k: u32|
            (#[trigger] stored(self.down@, k) == KeyState::Pressed || stored(self.down@, k)
                == KeyState::Released) ==> self.fresh@.contains(k)
    }

    /// An input with every key and button at rest, the pointer at the
    /// origin, no buffered event, and the given bounds.
    pub fn new(bounds: Box2D) -> (input: Input)
        ensures
            input.wf(),
            input@ == InputView::initial(bounds),
    {
        let input = Input {
            down: HashMap::new(),
            fresh: Vec::new(),
            pressed_buffer: Vec::new(),
            released_buffer: Vec::new(),
            mouse_position: Point2D { x: 0, y: 0 },
            left_mouse_state: MouseState::Idle,
            middle_mouse_state: MouseState::Idle,
            right_mouse_state: MouseState::Idle,
            mouse_buffer: Vec::new(),
            bounds,
        };
        assert(input@ =~= InputView::initial(bounds));
        input
    }

    /// Replaces the region that pointer positions are checked against.
    pub fn set_bounds(&mut self, bounds: Box2D)
        requires
            old(self).wf(),
        ensures
            final(self).wf(),
            final(self)@ == old(self)@.set_bounds(bounds),
    {
        self.bounds = bounds;
        assert(self@ =~= old(self)@.set_bounds(bounds));
    }

    /// Returns `true` if the key is currently being pressed.
    pub fn is_down(&self, key: VirtualKeyCode) -> (r: bool)
        ensures
            r == self@.is_down(key),
    {
        match lookup(&self.down, key.0) {
            KeyState::Pressed => true,
            KeyState::Down => true,
            _ => false,
        }
    }

    /// Returns `true` if the key was first pressed this update.
    pub fn is_pressed(&self, key: VirtualKeyCode) -> (r: bool)
        ensures
            r == self@.is_pressed(key),
    {
        match lookup(&self.down, key.0) {
            KeyState::Pressed => true,
            _ => false,
        }
    }

    /// Returns `true` if the key was released this update.
    pub fn is_released(&self, key: VirtualKeyCode) -> (r: bool)
        ensures
            r == self@.is_released(key),
    {
        match lookup(&self.down, key.0) {
            KeyState::Released => true,
            _ => false,
        }
    }

    fn query(&self, wanted: MouseState, mouse_button: MouseButton) -> (r: Option<Point2D>)
        requires
            !(mouse_button is Other),
        ensures
            r == self@.mouse_query(wanted, mouse_button),
    {
        let state = match mouse_button {
            MouseButton::Left => self.left_mouse_state,
            MouseButton::Middle => self.middle_mouse_state,
            _ => self.right_mouse_state,
        };
        if state == wanted && self.bounds.contains(self.mouse_position) {
            Some(self.mouse_position.into_region(self.bounds))
        } else {
            None
        }
    }

    /// Returns the click position if the mouse was pressed this update.
    /// Only the three buttons with state can be asked for.
    pub fn is_mouse_clicked(&self, mouse_button: MouseButton) -> (r: Option<Point2D>)
        requires
            !(mouse_button is Other),
        ensures
            r == self@.mouse_query(MouseState::Clicked, mouse_button),
    {
        self.query(MouseState::Clicked, mouse_button)
    }

    /// Returns the click position if the mouse is held down.
    /// Only the three buttons with state can be asked for.
    pub fn is_mouse_down(&self, mouse_button: MouseButton) -> (r: Option<Point2D>)
        requires
            !(mouse_button is Other),
        ensures
            r == self@.mouse_query(MouseState::Down, mouse_button),
    {
        self.query(MouseState::Down, mouse_button)
    }

    /// Returns the click position if the mouse was released this update.
    /// Only the three buttons with state can be asked for.
    pub fn is_mouse_released(&self, mouse_button: MouseButton) -> (r: Option<Point2D>)
        requires
            !(mouse_button is Other),
        ensures
            r == self@.mouse_query(MouseState::Released, mouse_button),
    {
        self.query(MouseState::Released, mouse_button)
    }

    /// Returns the mouse position, mapped into the bounds.
    pub fn mouse_position(&self) -> (p: Point2D)
        ensures
            p == self@.mouse_position(),
    {
        self.mouse_position.into_region(self.bounds)
    }

    /// Update the input state.
    /// This should be called once per frame.
    /// Pressed goes to down, released goes to idle, buffered events take
    /// effect, and all buffers are flushed.
    pub fn update(&mut self)
        requires
            old(self).wf(),
        ensures
            final(self).wf(),
            final(self)@ == old(self)@.update(),
    {
        decay_all(&mut self.down, &self.fresh);
        let ghost decayed_map = self.down@;
        assert forall|k: u32| stored(decayed_map, k) == decay_key(#[trigger] stored(old(self).down@, k)) by {
            if !old(self).fresh@.contains(k) {
                assert(stored(old(self).down@, k) != KeyState::Pressed);
            }
        }
        set_all(&mut self.down, &self.pressed_buffer, KeyState::Pressed);
        set_all(&mut self.down, &self.released_buffer, KeyState::Released);
        self.left_mouse_state = promoted(self.left_mouse_state, &self.mouse_buffer, MouseButton::Left);
        self.middle_mouse_state = promoted(
            self.middle_mouse_state,
            &self.mouse_buffer,
            MouseButton::Middle,
        );
        self.right_mouse_state = promoted(self.right_mouse_state, &self.mouse_buffer, MouseButton::Right);
        let mut fresh: Vec<u32> = Vec::new();
        fresh.append(&mut self.pressed_buffer);
        fresh.append(&mut self.released_buffer);
        self.fresh = fresh;
        self.mouse_buffer.clear();
        proof {
            let before = old(self)@;
            assert forall|k: u32| stored(self.down@, k) == #[trigger] before.next_key_state(k) by {
                assert(stored(decayed_map, k) == decay_key(stored(old(self).down@, k)));
            }
            assert(self@.keys =~= before.update().keys);
            assert(self@ =~= before.update());
            assert forall|k: u32|
                (#[trigger] stored(self.down@, k) == KeyState::Pressed || stored(self.down@, k)
                    == KeyState::Released) implies self.fresh@.contains(k) by {
                assert(stored(self.down@, k) == before.next_key_state(k));
                if before.released.contains(k) {
                    let j = choose|j: int| 0 <= j < before.released.len() && before.released[j] == k;
                    assert(self.fresh@[before.pressed.len() + j] == k);
                } else if before.pressed.contains(k) {
                    let j = choose|j: int| 0 <= j < before.pressed.len() && before.pressed[j] == k;
                    assert(self.fresh@[j] == k);
                }
            }
        }
    }

    /// Add a key to the `pressed` buffer.
    /// Note: this doesn't actually handle the event, it just buffers it for a later `update`.
    pub fn process_pressed(&mut self, key: VirtualKeyCode)
        requires
            old(self).wf(),
        ensures
            final(self).wf(),
            final(self)@ == old(self)@.process_pressed(key),
    {
        self.pressed_buffer.push(key.0);
        assert(self@ =~= old(self)@.process_pressed(key));
    }

    /// Add a key to the `released` buffer.
    /// Note: this doesn't actually handle the event, it just buffers it for a later `update`.
    pub fn process_released(&mut self, key: VirtualKeyCode)
        requires
            old(self).wf(),
        ensures
            final(self).wf(),
            final(self)@ == old(self)@.process_released(key),
    {
        self.released_buffer.push(key.0);
        assert(self@ =~= old(self)@.process_released(key));
    }

    /// Process a mouse movement: the pointer is at `pos` from now on.
    pub fn process_mouse_move(&mut self, pos: Point2D)
        requires
            old(self).wf(),
        ensures
            final(self).wf(),
            final(self)@ == old(self)@.process_mouse_move(pos),
    {
        self.mouse_position = pos;
        assert(self@ =~= old(self)@.process_mouse_move(pos));
    }

    /// Process a mouse click of one of the three buttons with state.
    pub fn process_mouse_click(&mut self, mouse_button: MouseButton)
        requires
            old(self).wf(),
            !(mouse_button is Other),
        ensures
            final(self).wf(),
            final(self)@ == old(self)@.process_mouse_event(MouseState::Clicked, mouse_button),
    {
        self.mouse_buffer.push((MouseState::Clicked, mouse_button));
        assert(self@ =~= old(self)@.process_mouse_event(MouseState::Clicked, mouse_button));
    }

    /// Process a mouse release of one of the three buttons with state.
    pub fn process_mouse_release(&mut self, mouse_button: MouseButton)
        requires
            old(self).wf(),
            !(mouse_button is Other),
        ensures
            final(self).wf(),
            final(self)@ == old(self)@.process_mouse_event(MouseState::Released, mouse_button),
    {
        self.mouse_buffer.push((MouseState::Released, mouse_button));
        assert(self@ =~= old(self)@.process_mouse_event(MouseState::Released, mouse_button));
    }

    /// Returns `true` if the `Input` needs update
    pub fn needs_update(&self) -> (r: bool)
        ensures
            r == self@.needs_update(),
    {
        !(self.pressed_buffer.len() == 0 && self.released_buffer.len() == 0
            && self.mouse_buffer.len() == 0)
    }
}

/// A key press is visible for exactly one tick: after `process_pressed(key)`
/// and one `update`, the key is pressed and down; after a further `update`
/// without events it is no longer pressed and still down. A release of the
/// same key buffered in the same tick would win over the press, so the law
/// speaks of states in which none is buffered.
pub proof fn lemma_press_lasts_one_tick(v: InputView, key: VirtualKeyCode)
    requires
        !v.released.contains(key.0),
    ensures
        v.process_pressed(key).update().is_pressed(key),
        v.process_pressed(key).update().is_down(key),
        !v.process_pressed(key).update().update().is_pressed(key),
        v.process_pressed(key).update().update().is_down(key),
{
    let buffered = v.process_pressed(key);
    assert(buffered.pressed[v.pressed.len() as int] == key.0);
    assert(buffered.pressed.contains(key.0));
    let first = buffered.update();
    assert(first.keys[key.0] == buffered.next_key_state(key.0));
    let second = first.update();
    assert(second.keys[key.0] == first.next_key_state(key.0));
}

/// A key release is visible for exactly one tick: after
/// `process_released(key)` and one `update`, the key is released; after a
/// further `update` it is idle, so that it is neither down, pressed nor
/// released.
pub proof fn lemma_release_lasts_one_tick(v: InputView, key: VirtualKeyCode)
    ensures
        v.process_released(key).update().is_released(key),
        v.process_released(key).update().update().key_state(key) == KeyState::Idle,
        !v.process_released(key).update().update().is_down(key),
        !v.process_released(key).update().update().is_pressed(key),
        !v.process_released(key).update().update().is_released(key),
{
    let buffered = v.process_released(key);
    assert(buffered.released[v.released.len() as int] == key.0);
    assert(buffered.released.contains(key.0));
    let first = buffered.update();
    assert(first.keys[key.0] == buffered.next_key_state(key.0));
    let second = first.update();
    assert(second.keys[key.0] == first.next_key_state(key.0));
}

/// With no event buffered, a second `update` changes nothing that the
/// first one left: the state after two ticks equals the state after one.
pub proof fn lemma_update_settles(v: InputView)
    requires
        !v.needs_update(),
    ensures
        v.update().update() == v.update(),
{
    let once = v.update();
    let twice = once.update();
    assert(v.pressed =~= Seq::empty());
    assert(v.released =~= Seq::empty());
    assert(v.mouse_events =~= Seq::empty());
    assert forall|k: u32| twice.keys[k] == once.keys[k] by {
        assert(once.keys[k] == v.next_key_state(k));
        assert(twice.keys[k] == once.next_key_state(k));
    }
    assert(twice.keys =~= once.keys);
    assert(twice =~= once);
}

/// From the second tick on, ticks without events in between all leave the
/// same state, whatever was buffered before the first.
pub proof fn lemma_quiet_ticks_agree(v: InputView)
    ensures
        v.update().update().update() == v.update().update(),
{
    let once = v.update();
    lemma_update_settles(once);
    let twice = once.update();
    lemma_update_settles(twice);
    assert forall|k: u32| twice.update().keys[k] == twice.keys[k] by {
        assert(once.keys[k] == v.next_key_state(k));
        assert(twice.keys[k] == once.next_key_state(k));
        assert(twice.update().keys[k] == twice.next_key_state(k));
    }
    assert(twice.update().keys =~= twice.keys);
    assert(twice.update() =~= twice);
}

/// A button query yields a position exactly when the button is in the
/// state asked for and the pointer lies within the bounds; the position
/// is then the pointer mapped into the bounds.
pub proof fn lemma_query_needs_state_and_bounds(v: InputView, wanted: MouseState, button: MouseButton)
    ensures
        (v.mouse_query(wanted, button) matches Some(p) && p == v.mouse_position()) <==> (v.mouse_state(
            button,
        ) == wanted && v.bounds.spec_contains(v.pointer)),
{
}

/// Once the pointer has moved to a position outside the bounds, no button
/// query yields a position, whatever state the button is in.
pub proof fn lemma_pointer_outside_hides_buttons(
    v: InputView,
    pos: Point2D,
    wanted: MouseState,
    button: MouseButton,
)
    requires
        !v.bounds.spec_contains(pos),
    ensures
        v.process_mouse_move(pos).mouse_query(wanted, button) is None,
        v.process_mouse_move(pos).mouse_state(button) == v.mouse_state(button),
{
}

/// A buffered key event changes no key state before the next tick and
/// marks the input as needing one; right after a tick nothing is pending.
pub proof fn lemma_events_wait_for_update(v: InputView, key: VirtualKeyCode, other: VirtualKeyCode)
    ensures
        v.process_pressed(key).key_state(other) == v.key_state(other),
        v.process_released(key).key_state(other) == v.key_state(other),
        v.process_pressed(key).needs_update(),
        v.process_released(key).needs_update(),
        !v.update().needs_update(),
{
}

} // verus!
