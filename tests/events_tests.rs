use breakout_core::events::{
    get_button_from_direction, get_direction_button, get_direction_from_integer, is_left_keycode,
    is_right_keycode, Button, ButtonState, DirectionButton, Event, InputTracker, Key, WindowInput,
};

fn key(k: Key, pressed: bool) -> WindowInput {
    WindowInput::Keyboard { key: Some(k), pressed }
}

#[test]
fn directions_map_to_buttons() {
    assert_eq!(get_button_from_direction(DirectionButton::Left), Button::Left);
    assert_eq!(get_button_from_direction(DirectionButton::Right), Button::Right);
    assert_eq!(get_direction_from_integer(0), DirectionButton::Left);
    assert_eq!(get_direction_from_integer(1), DirectionButton::Right);
    assert_eq!(DirectionButton::Right.index(), 1);
}

#[test]
fn keys_map_to_directions() {
    assert!(is_left_keycode(&Some(Key::Left)));
    assert!(is_left_keycode(&Some(Key::A)));
    assert!(!is_left_keycode(&Some(Key::D)));
    assert!(is_right_keycode(&Some(Key::Right)));
    assert!(is_right_keycode(&Some(Key::D)));
    assert!(!is_right_keycode(&None));
    assert_eq!(get_direction_button(&Some(Key::A)), Some(DirectionButton::Left));
    assert_eq!(get_direction_button(&Some(Key::D)), Some(DirectionButton::Right));
    assert_eq!(get_direction_button(&Some(Key::Return)), None);
    assert_eq!(get_direction_button(&None), None);
}

#[test]
fn pressing_a_direction_releases_the_other() {
    let mut t = InputTracker::new();
    assert_eq!(
        t.handle_control(DirectionButton::Left, true),
        vec![Event::Button { button: Button::Left, state: ButtonState::Pressed }]
    );
    // Held already: nothing new.
    assert_eq!(t.handle_control(DirectionButton::Left, true), vec![]);
    assert_eq!(
        t.handle_control(DirectionButton::Right, true),
        vec![
            Event::Button { button: Button::Left, state: ButtonState::Released },
            Event::Button { button: Button::Right, state: ButtonState::Pressed },
        ]
    );
    // Left is no longer held: letting it go says nothing.
    assert_eq!(t.handle_control(DirectionButton::Left, false), vec![]);
    assert_eq!(
        t.handle_control(DirectionButton::Right, false),
        vec![Event::Button { button: Button::Right, state: ButtonState::Released }]
    );
}

#[test]
fn window_input_becomes_events() {
    let mut t = InputTracker::new();
    assert_eq!(t.handle_input(WindowInput::CloseRequested), vec![Event::CloseWindow]);
    assert_eq!(t.handle_input(key(Key::Escape, false)), vec![Event::CloseWindow]);
    assert_eq!(t.handle_input(WindowInput::Resized(640, 480)), vec![Event::WindowResized(640, 480)]);
    assert_eq!(t.handle_input(WindowInput::Other), vec![]);
    // Return without Alt does nothing.
    assert_eq!(t.handle_input(key(Key::Return, true)), vec![]);
    assert_eq!(t.handle_input(key(Key::LAlt, true)), vec![]);
    assert_eq!(t.handle_input(key(Key::Return, true)), vec![Event::GoFullscreen]);
    assert_eq!(t.handle_input(key(Key::Return, false)), vec![]);
    assert_eq!(t.handle_input(key(Key::Return, true)), vec![Event::ExitFullscreen]);
    assert_eq!(t.handle_input(key(Key::LAlt, false)), vec![]);
    assert_eq!(t.handle_input(key(Key::Return, true)), vec![]);
    assert_eq!(
        t.handle_input(key(Key::D, true)),
        vec![Event::Button { button: Button::Right, state: ButtonState::Pressed }]
    );
    assert_eq!(
        t.handle_input(key(Key::D, false)),
        vec![Event::Button { button: Button::Right, state: ButtonState::Released }]
    );
    assert_eq!(t.handle_input(key(Key::Other, true)), vec![]);
}
