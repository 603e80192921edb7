use fractal_explorer::event::{Command, ElementState, Event, Key, MouseButton, Turn};

fn pressed(key: Key) -> Event {
    Event::KeyboardInput { state: ElementState::Pressed, key }
}

#[test]
fn zoom_keys() {
    for key in [Key::Space, Key::Plus, Key::Up] {
        assert_eq!(Command::from_event(&pressed(key)), Some(Command::ZoomIn));
    }
    for key in [Key::Minus, Key::Down] {
        assert_eq!(Command::from_event(&pressed(key)), Some(Command::ZoomOut));
    }
}

#[test]
fn letter_keys() {
    assert_eq!(
        Command::from_event(&pressed(Key::C)),
        Some(Command::ToggleParameterFollowsPointer)
    );
    assert_eq!(Command::from_event(&pressed(Key::R)), Some(Command::ResetZoom));
    assert_eq!(Command::from_event(&pressed(Key::F5)), Some(Command::ResetZoom));
    assert_eq!(Command::from_event(&pressed(Key::M)), Some(Command::ShowMandelbrot));
    assert_eq!(Command::from_event(&pressed(Key::J)), Some(Command::ShowJulia));
    assert_eq!(Command::from_event(&pressed(Key::Other)), None);
}

#[test]
fn released_keys_are_not_bound() {
    for key in [
        Key::Space,
        Key::Plus,
        Key::Minus,
        Key::Up,
        Key::Down,
        Key::C,
        Key::R,
        Key::F5,
        Key::M,
        Key::J,
        Key::Other,
    ] {
        let event = Event::KeyboardInput { state: ElementState::Released, key };
        assert_eq!(Command::from_event(&event), None);
    }
}

#[test]
fn left_button_toggles_when_pressed() {
    let down = Event::MouseInput { state: ElementState::Pressed, button: MouseButton::Left };
    let up = Event::MouseInput { state: ElementState::Released, button: MouseButton::Left };
    assert_eq!(Command::from_event(&down), Some(Command::ToggleParameterFollowsPointer));
    assert_eq!(Command::from_event(&up), None);
}

#[test]
fn middle_and_right_button_drag() {
    for button in [MouseButton::Middle, MouseButton::Right] {
        let down = Event::MouseInput { state: ElementState::Pressed, button };
        let up = Event::MouseInput { state: ElementState::Released, button };
        assert_eq!(Command::from_event(&down), Some(Command::BeginDrag));
        assert_eq!(Command::from_event(&up), Some(Command::EndDrag));
    }
    let other = Event::MouseInput { state: ElementState::Pressed, button: MouseButton::Other };
    assert_eq!(Command::from_event(&other), None);
}

#[test]
fn wheel_scrolls_by_its_turn() {
    for fast in [false, true] {
        assert_eq!(
            Command::from_event(&Event::MouseWheel { turn: Turn::Forward, fast }),
            Some(Command::Scroll { zoom_in: true, fast })
        );
        assert_eq!(
            Command::from_event(&Event::MouseWheel { turn: Turn::Backward, fast }),
            Some(Command::Scroll { zoom_in: false, fast })
        );
        assert_eq!(Command::from_event(&Event::MouseWheel { turn: Turn::Still, fast }), None);
    }
}

#[test]
fn pointer_and_other_events() {
    assert_eq!(Command::from_event(&Event::CursorMoved), Some(Command::PointerMoved));
    assert_eq!(Command::from_event(&Event::Other), None);
}
