use xenon::input::{Input, KeyState, MouseButton, MouseState, VirtualKeyCode, SPACE};
use xenon::math::{Box2D, Point2D};

fn region() -> Box2D {
    Box2D::new(Point2D::new(0, 0), Point2D::new(100, 100))
}

fn key(code: u32) -> VirtualKeyCode {
    VirtualKeyCode(code)
}

#[test]
fn click_inside_bounds_is_reported_once() {
    let mut input = Input::new(region());
    input.process_mouse_move(Point2D::new(50, 50));
    input.process_mouse_click(MouseButton::Left);
    input.update();
    assert_eq!(input.is_mouse_clicked(MouseButton::Left), Some(Point2D::new(50, 50)));
    input.update();
    assert_eq!(input.is_mouse_down(MouseButton::Left), Some(Point2D::new(50, 50)));
    assert_eq!(input.is_mouse_clicked(MouseButton::Left), None);
}

#[test]
fn press_is_visible_for_one_tick() {
    let space = key(SPACE);
    let mut input = Input::new(region());
    input.process_pressed(space);
    assert!(!input.is_pressed(space));
    assert!(!input.is_down(space));
    input.update();
    assert!(input.is_pressed(space));
    assert!(input.is_down(space));
    input.update();
    assert!(!input.is_pressed(space));
    assert!(input.is_down(space));
}

#[test]
fn press_holds_for_every_key_code() {
    for code in [0u32, 1, 76, 162, 1000, u32::MAX] {
        let mut input = Input::new(region());
        input.process_pressed(key(code));
        input.update();
        assert!(input.is_pressed(key(code)) && input.is_down(key(code)));
        input.update();
        assert!(!input.is_pressed(key(code)) && input.is_down(key(code)));
    }
}

#[test]
fn release_is_visible_for_one_tick() {
    let a = key(10);
    let mut input = Input::new(region());
    input.process_pressed(a);
    input.update();
    input.process_released(a);
    assert!(!input.is_released(a));
    assert!(input.is_down(a));
    input.update();
    assert!(input.is_released(a));
    assert!(!input.is_down(a));
    assert!(!input.is_pressed(a));
    input.update();
    assert!(!input.is_released(a));
    assert!(!input.is_down(a));
    assert!(!input.is_pressed(a));
}

#[test]
fn release_of_a_key_never_seen_is_reported() {
    let a = key(3);
    let mut input = Input::new(region());
    input.process_released(a);
    input.update();
    assert!(input.is_released(a));
    input.update();
    assert!(!input.is_released(a) && !input.is_down(a) && !input.is_pressed(a));
}

#[test]
fn release_wins_over_press_in_one_tick() {
    let a = key(7);
    let mut input = Input::new(region());
    input.process_released(a);
    input.process_pressed(a);
    input.update();
    assert!(input.is_released(a));
    assert!(!input.is_pressed(a));
    assert!(!input.is_down(a));
}

#[test]
fn duplicate_presses_are_tolerated() {
    let a = key(7);
    let mut input = Input::new(region());
    input.process_pressed(a);
    input.process_pressed(a);
    input.process_pressed(a);
    input.update();
    assert!(input.is_pressed(a));
    input.update();
    assert!(input.is_down(a) && !input.is_pressed(a));
    input.update();
    assert!(input.is_down(a) && !input.is_pressed(a));
}

#[test]
fn keys_do_not_disturb_each_other() {
    let (a, b) = (key(1), key(2));
    let mut input = Input::new(region());
    input.process_pressed(a);
    input.update();
    input.process_pressed(b);
    input.update();
    assert!(input.is_down(a) && !input.is_pressed(a));
    assert!(input.is_pressed(b));
    input.process_released(a);
    input.update();
    assert!(input.is_released(a));
    assert!(input.is_down(b) && !input.is_pressed(b));
}

#[test]
fn quiet_updates_leave_the_state_alone() {
    let a = key(1);
    let mut input = Input::new(region());
    input.process_pressed(a);
    input.process_mouse_move(Point2D::new(5, 6));
    input.process_mouse_click(MouseButton::Right);
    input.update();
    input.update();
    let seen = |input: &Input| {
        (
            input.is_down(a),
            input.is_pressed(a),
            input.is_released(a),
            input.is_mouse_down(MouseButton::Right),
            input.is_mouse_clicked(MouseButton::Right),
            input.is_mouse_released(MouseButton::Right),
            input.is_mouse_down(MouseButton::Left),
            input.mouse_position(),
            input.needs_update(),
        )
    };
    let second = seen(&input);
    input.update();
    assert_eq!(seen(&input), second);
    input.update();
    assert_eq!(seen(&input), second);
    assert_eq!(second.0, true);
    assert_eq!(second.3, Some(Point2D::new(5, 6)));
}

#[test]
fn queries_do_not_change_anything() {
    let a = key(1);
    let mut input = Input::new(region());
    input.process_pressed(a);
    input.update();
    for _ in 0..3 {
        assert!(input.is_pressed(a));
        assert!(input.is_down(a));
        assert!(!input.is_released(a));
    }
}

#[test]
fn click_outside_bounds_is_hidden() {
    let mut input = Input::new(region());
    input.process_mouse_move(Point2D::new(50, 50));
    input.process_mouse_click(MouseButton::Left);
    input.update();
    assert_eq!(input.is_mouse_clicked(MouseButton::Left), Some(Point2D::new(50, 50)));
    input.process_mouse_move(Point2D::new(150, 50));
    assert_eq!(input.is_mouse_clicked(MouseButton::Left), None);
    input.process_mouse_move(Point2D::new(50, -1));
    assert_eq!(input.is_mouse_clicked(MouseButton::Left), None);
    input.process_mouse_move(Point2D::new(99, 0));
    assert_eq!(input.is_mouse_clicked(MouseButton::Left), Some(Point2D::new(99, 0)));
    input.process_mouse_move(Point2D::new(100, 0));
    assert_eq!(input.is_mouse_clicked(MouseButton::Left), None);
    input.process_mouse_move(Point2D::new(0, 100));
    assert_eq!(input.is_mouse_clicked(MouseButton::Left), None);
}

#[test]
fn query_needs_the_matching_state() {
    let mut input = Input::new(region());
    input.process_mouse_move(Point2D::new(10, 10));
    assert_eq!(input.is_mouse_clicked(MouseButton::Left), None);
    assert_eq!(input.is_mouse_down(MouseButton::Left), None);
    assert_eq!(input.is_mouse_released(MouseButton::Left), None);
    input.process_mouse_click(MouseButton::Middle);
    input.update();
    assert_eq!(input.is_mouse_clicked(MouseButton::Middle), Some(Point2D::new(10, 10)));
    assert_eq!(input.is_mouse_clicked(MouseButton::Left), None);
    assert_eq!(input.is_mouse_clicked(MouseButton::Right), None);
    assert_eq!(input.is_mouse_down(MouseButton::Middle), None);
    input.process_mouse_release(MouseButton::Middle);
    input.update();
    assert_eq!(input.is_mouse_released(MouseButton::Middle), Some(Point2D::new(10, 10)));
    assert_eq!(input.is_mouse_down(MouseButton::Middle), None);
    input.update();
    assert_eq!(input.is_mouse_released(MouseButton::Middle), None);
    assert_eq!(input.is_mouse_down(MouseButton::Middle), None);
    assert_eq!(input.is_mouse_clicked(MouseButton::Middle), None);
}

#[test]
fn first_button_event_of_a_tick_wins() {
    let mut input = Input::new(region());
    input.process_mouse_move(Point2D::new(1, 1));
    input.process_mouse_click(MouseButton::Left);
    input.process_mouse_release(MouseButton::Left);
    input.process_mouse_release(MouseButton::Right);
    input.process_mouse_click(MouseButton::Right);
    input.update();
    assert_eq!(input.is_mouse_clicked(MouseButton::Left), Some(Point2D::new(1, 1)));
    assert_eq!(input.is_mouse_released(MouseButton::Left), None);
    assert_eq!(input.is_mouse_released(MouseButton::Right), Some(Point2D::new(1, 1)));
    assert_eq!(input.is_mouse_clicked(MouseButton::Right), None);
}

#[test]
fn later_button_events_of_a_tick_are_dropped() {
    let mut input = Input::new(region());
    input.process_mouse_move(Point2D::new(1, 1));
    input.process_mouse_click(MouseButton::Left);
    input.process_mouse_release(MouseButton::Left);
    input.update();
    assert!(!input.needs_update());
    input.update();
    assert_eq!(input.is_mouse_down(MouseButton::Left), Some(Point2D::new(1, 1)));
    assert_eq!(input.is_mouse_released(MouseButton::Left), None);
}

#[test]
fn only_three_buttons_carry_state() {
    assert!(MouseButton::Left.is_supported());
    assert!(MouseButton::Middle.is_supported());
    assert!(MouseButton::Right.is_supported());
    assert!(!MouseButton::Other(0).is_supported());
    assert!(!MouseButton::Other(65535).is_supported());
}

#[test]
fn needs_update_tells_of_buffered_events() {
    let mut input = Input::new(region());
    assert!(!input.needs_update());
    input.process_mouse_move(Point2D::new(3, 3));
    assert!(!input.needs_update());
    input.process_pressed(key(1));
    assert!(input.needs_update());
    input.update();
    assert!(!input.needs_update());
    input.process_released(key(1));
    assert!(input.needs_update());
    input.update();
    assert!(!input.needs_update());
    input.process_mouse_click(MouseButton::Left);
    assert!(input.needs_update());
    input.update();
    assert!(!input.needs_update());
}

#[test]
fn mouse_move_takes_effect_at_once() {
    let mut input = Input::new(region());
    assert_eq!(input.mouse_position(), Point2D::new(0, 0));
    input.process_mouse_move(Point2D::new(12, 34));
    assert_eq!(input.mouse_position(), Point2D::new(12, 34));
    input.process_mouse_move(Point2D::new(56, 78));
    assert_eq!(input.mouse_position(), Point2D::new(56, 78));
}

#[test]
fn position_is_moved_by_the_origin_and_capped() {
    let mut input = Input::new(Box2D::new(Point2D::new(10, 20), Point2D::new(100, 60)));
    input.process_mouse_move(Point2D::new(30, 25));
    assert_eq!(input.mouse_position(), Point2D::new(40, 45));
    input.process_mouse_move(Point2D::new(95, 50));
    assert_eq!(input.mouse_position(), Point2D::new(100, 60));
    input.process_mouse_move(Point2D::new(-500, -500));
    assert_eq!(input.mouse_position(), Point2D::new(-490, -480));
    input.process_mouse_click(MouseButton::Left);
    input.update();
    assert_eq!(input.is_mouse_clicked(MouseButton::Left), None);
    input.process_mouse_move(Point2D::new(95, 50));
    assert_eq!(input.is_mouse_clicked(MouseButton::Left), Some(Point2D::new(100, 60)));
    input.process_mouse_move(Point2D::new(10, 20));
    assert_eq!(input.is_mouse_clicked(MouseButton::Left), Some(Point2D::new(20, 40)));
}

#[test]
fn position_is_held_at_the_smallest_coordinate() {
    let far = Box2D::new(Point2D::new(i32::MIN, i32::MIN), Point2D::new(i32::MAX, i32::MAX));
    let mut input = Input::new(far);
    input.process_mouse_move(Point2D::new(-5, i32::MIN));
    assert_eq!(input.mouse_position(), Point2D::new(i32::MIN, i32::MIN));
    input.process_mouse_move(Point2D::new(i32::MAX, 7));
    assert_eq!(input.mouse_position(), Point2D::new(-1, i32::MIN + 7));
    let high = Box2D::new(Point2D::new(i32::MAX, 1), Point2D::new(i32::MAX, i32::MAX));
    input.set_bounds(high);
    input.process_mouse_move(Point2D::new(i32::MAX, i32::MAX));
    assert_eq!(input.mouse_position(), Point2D::new(i32::MAX, i32::MAX));
}

#[test]
fn set_bounds_changes_only_the_region() {
    let a = key(1);
    let mut input = Input::new(region());
    input.process_pressed(a);
    input.process_mouse_move(Point2D::new(150, 150));
    input.process_mouse_click(MouseButton::Left);
    input.update();
    assert_eq!(input.is_mouse_clicked(MouseButton::Left), None);
    input.set_bounds(Box2D::new(Point2D::new(0, 0), Point2D::new(200, 200)));
    assert_eq!(input.is_mouse_clicked(MouseButton::Left), Some(Point2D::new(150, 150)));
    assert!(input.is_pressed(a));
}

#[test]
fn default_input_is_at_rest() {
    let input = Input::default();
    assert!(!input.needs_update());
    assert!(!input.is_down(key(0)));
    assert_eq!(input.mouse_position(), Point2D::new(0, 0));
    assert_eq!(input.is_mouse_down(MouseButton::Left), None);
    assert_eq!(MouseState::default(), MouseState::Idle);
    assert_ne!(KeyState::Pressed, KeyState::Down);
}

#[test]
fn states_survive_many_keys() {
    let mut input = Input::new(region());
    for code in 0..200u32 {
        input.process_pressed(key(code));
    }
    input.update();
    for code in 0..200u32 {
        assert!(input.is_pressed(key(code)));
    }
    for code in 0..100u32 {
        input.process_released(key(code));
    }
    input.update();
    for code in 0..100u32 {
        assert!(input.is_released(key(code)));
    }
    for code in 100..200u32 {
        assert!(input.is_down(key(code)) && !input.is_pressed(key(code)));
    }
    input.update();
    for code in 0..100u32 {
        assert!(!input.is_released(key(code)) && !input.is_down(key(code)));
    }
}
