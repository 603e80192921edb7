//! Input events as the explorer reads them, and the commands they stand for.

use vstd::prelude::*;

verus! {

/// Whether a key or a button went down or came up.
#[derive(Clone, Copy, Debug, PartialEq, Eq, Structural)]
pub enum ElementState {
    Pressed,
    Released,
}

/// The keys that the explorer tells apart.
#[derive(Clone, Copy, Debug, PartialEq, Eq, Structural)]
pub enum Key {
    Space,
    Plus,
    Minus,
    Up,
    Down,
    C,
    R,
    F5,
    M,
    J,
    /// Any key without a binding.
    Other,
}

/// The pointer buttons that the explorer tells apart.
#[derive(Clone, Copy, Debug, PartialEq, Eq, Structural)]
pub enum MouseButton {
    Left,
    Middle,
    Right,
    /// Any further button.
    Other,
}

/// How the wheel turned, read off the sign of its vertical delta.
#[derive(Clone, Copy, Debug, PartialEq, Eq, Structural)]
pub enum Turn {
    /// The delta is zero or not a number.
    Still,
    /// The delta is positive.
    Forward,
    /// The delta is negative.
    Backward,
}

/// A window event, reduced to what the explorer's bindings depend on.
#[derive(Clone, Copy, Debug, PartialEq, Eq, Structural)]
pub enum Event {
    /// A key changed state.
    KeyboardInput { state: ElementState, key: Key },
    /// A pointer button changed state.
    MouseInput { state: ElementState, button: MouseButton },
    /// The pointer moved.
    CursorMoved,
    /// The wheel turned; `fast` holds when the delta exceeds one in
    /// magnitude.
    MouseWheel { turn: Turn, fast: bool },
    /// Any event without a binding.
    Other,
}

/// One request to the viewport.
#[derive(Clone, Copy, Debug, PartialEq, Eq, Structural)]
pub enum Command {
    /// Zoom one step towards the pointer and stop following the pointer.
    ZoomIn,
    /// Zoom one step away from the pointer and stop following the pointer.
    ZoomOut,
    /// Zoom by the wheel: towards the pointer when `zoom_in` holds, in
    /// several steps when `fast` holds.
    Scroll { zoom_in: bool, fast: bool },
    /// Switch between a fixed parameter and one that follows the pointer.
    ToggleParameterFollowsPointer,
    /// Take note that the pointer moved.
    PointerMoved,
    /// Show the default rectangle again.
    ResetZoom,
    /// Start panning with the pointer.
    BeginDrag,
    /// Stop panning.
    EndDrag,
    /// Show the Mandelbrot set.
    ShowMandelbrot,
    /// Show the Julia set of the default parameter.
    ShowJulia,
}

impl Command {
    /// The command bound to an event, if any.
    ///
    /// Space, plus and the up arrow zoom in; minus and the down arrow zoom
    /// out; C and the left button toggle pointer following; R and F5 reset the
    /// zoom; M and J choose the set. These act when pressed. The middle and
    /// the right button start a drag when pressed and end it when released.
    /// A wheel that turned scrolls, and a pointer that moved is reported.
    pub open spec fn bound_to(event: Event) -> Option<Command> {
        match event {
            Event::KeyboardInput { state: ElementState::Pressed, key } => match key {
                Key::Space | Key::Plus | Key::Up => Some(Command::ZoomIn),
                Key::Minus | Key::Down => Some(Command::ZoomOut),
                Key::C => Some(Command::ToggleParameterFollowsPointer),
                Key::R | Key::F5 => Some(Command::ResetZoom),
                Key::M => Some(Command::ShowMandelbrot),
                Key::J => Some(Command::ShowJulia),
                Key::Other => None,
            },
            Event::KeyboardInput { state: ElementState::Released, key } => None,
            Event::MouseInput { state, button } => match button {
                MouseButton::Left => match state {
                    ElementState::Pressed => Some(Command::ToggleParameterFollowsPointer),
                    ElementState::Released => None,
                },
                MouseButton::Middle | MouseButton::Right => match state {
                    ElementState::Pressed => Some(Command::BeginDrag),
                    ElementState::Released => Some(Command::EndDrag),
                },
                MouseButton::Other => None,
            },
            Event::CursorMoved => Some(Command::PointerMoved),
            Event::MouseWheel { turn, fast } => match turn {
                Turn::Still => None,
                Turn::Forward => Some(Command::Scroll { zoom_in: true, fast }),
                Turn::Backward => Some(Command::Scroll { zoom_in: false, fast }),
            },
            Event::Other => None,
        }
    }

    /// Returns the command bound to an event; `None` for an event without a
    /// binding.
    pub fn from_event(event: &Event) -> (r: Option<Command>)
        ensures
            r == Command::bound_to(*event),
    {
        match *event {
            Event::KeyboardInput { state: ElementState::Pressed, key } => match key {
                Key::Space | Key::Plus | Key::Up => Some(Command::ZoomIn),
                Key::Minus | Key::Down => Some(Command::ZoomOut),
                Key::C => Some(Command::ToggleParameterFollowsPointer),
                Key::R | Key::F5 => Some(Command::ResetZoom),
                Key::M => Some(Command::ShowMandelbrot),
                Key::J => Some(Command::ShowJulia),
                Key::Other => None,
            },
            Event::KeyboardInput { state: ElementState::Released, key: _ } => None,
            Event::MouseInput { state, button } => match button {
                MouseButton::Left => match state {
                    ElementState::Pressed => Some(Command::ToggleParameterFollowsPointer),
                    ElementState::Released => None,
                },
                MouseButton::Middle | MouseButton::Right => match state {
                    ElementState::Pressed => Some(Command::BeginDrag),
                    ElementState::Released => Some(Command::EndDrag),
                },
                MouseButton::Other => None,
            },
            Event::CursorMoved => Some(Command::PointerMoved),
            Event::MouseWheel { turn, fast } => match turn {
                Turn::Still => None,
                Turn::Forward => Some(Command::Scroll { zoom_in: true, fast }),
                Turn::Backward => Some(Command::Scroll { zoom_in: false, fast }),
            },
            Event::Other => None,
        }
    }
}

} // verus!
