//! Values shared between the window layer and the bridges.

use vstd::prelude::*;

verus! {

/// A cursor shape the window can show; `Hidden` hides the cursor.
#[derive(Debug, Clone, Copy, PartialEq, Eq, Structural)]
pub enum Cursor {
    Default,
    Pointer,
    Text,
    Move,
    ZoomIn,
    ZoomOut,
    Wait,
    Hidden,
}

#[derive(Debug, Default, Clone, Copy, PartialEq, Eq, Structural)]
pub struct MousePosition(pub i32, pub i32);

#[derive(Debug, Default, Clone, Copy, PartialEq, Eq, Structural)]
pub struct MouseDelta(pub i32, pub i32);

#[derive(Debug, Clone, Copy, PartialEq, Eq, Structural)]
pub struct WindowSize(pub i32, pub i32);

/// A mouse button as the window reports it.
#[derive(Debug, Clone, Copy, PartialEq, Eq, Structural)]
pub enum MouseButton {
    Left,
    Right,
    Middle,
    Back,
    Forward,
    Other(u16),
}

/// The pointer as last reported: button, position, wheel delta, and
/// whether it is over the window.
#[derive(Debug, Clone, Copy, PartialEq, Eq, Structural)]
pub struct MouseState {
    pub button: MouseButton,
    pub pressed: bool,
    pub position: MousePosition,
    pub delta: MouseDelta,
    pub over: bool,
}

impl Default for MouseState {
    fn default() -> (r: MouseState)
        ensures
            r == (MouseState {
                button: MouseButton::Left,
                pressed: false,
                position: MousePosition(0, 0),
                delta: MouseDelta(0, 0),
                over: false,
            }),
    {
        MouseState {
            button: MouseButton::Left,
            pressed: false,
            position: MousePosition(0, 0),
            delta: MouseDelta(0, 0),
            over: false,
        }
    }
}

/// A mouse event for the browser engine: position and button flags.
#[derive(Debug, Clone, Copy, PartialEq, Eq, Structural)]
pub struct MouseEventData {
    pub x: i32,
    pub y: i32,
    pub modifiers: u32,
}

/// The engine's flag for a held button: left 16, right 32, middle 64.
pub open spec fn button_flag(button: MouseButton, pressed: bool) -> u32 {
    if !pressed {
        0
    } else {
        match button {
            MouseButton::Left => 16,
            MouseButton::Right => 32,
            MouseButton::Middle => 64,
            _ => 0,
        }
    }
}

pub fn mouse_event(state: &MouseState) -> (r: MouseEventData)
    ensures
        r == (MouseEventData {
            x: state.position.0,
            y: state.position.1,
            modifiers: button_flag(state.button, state.pressed),
        }),
{
    let modifiers: u32 = match state.button {
        MouseButton::Left if state.pressed => 16,
        MouseButton::Right if state.pressed => 32,
        MouseButton::Middle if state.pressed => 64,
        _ => 0,
    };
    MouseEventData { x: state.position.0, y: state.position.1, modifiers }
}

/// A click button of the browser engine.
#[derive(Debug, Clone, Copy, PartialEq, Eq, Structural)]
pub enum ClickButton {
    Left,
    Right,
    Middle,
}

/// What a mouse button press or release does in the browser.
#[derive(Debug, Clone, Copy, PartialEq, Eq, Structural)]
pub enum ClickAction {
    GoBack,
    GoForward,
    Click(ClickButton),
    Ignore,
}

/// Back and forward navigate on release; the three main buttons click.
pub fn click_action(state: &MouseState) -> (r: ClickAction)
    ensures
        r == match state.button {
            MouseButton::Back => if state.pressed { ClickAction::Ignore } else { ClickAction::GoBack },
            MouseButton::Forward => if state.pressed { ClickAction::Ignore } else { ClickAction::GoForward },
            MouseButton::Left => ClickAction::Click(ClickButton::Left),
            MouseButton::Right => ClickAction::Click(ClickButton::Right),
            MouseButton::Middle => ClickAction::Click(ClickButton::Middle),
            MouseButton::Other(_) => ClickAction::Ignore,
        },
{
    match state.button {
        MouseButton::Back if !state.pressed => ClickAction::GoBack,
        MouseButton::Forward if !state.pressed => ClickAction::GoForward,
        MouseButton::Left => ClickAction::Click(ClickButton::Left),
        MouseButton::Right => ClickAction::Click(ClickButton::Right),
        MouseButton::Middle => ClickAction::Click(ClickButton::Middle),
        _ => ClickAction::Ignore,
    }
}

/// Requests to the window from outside the event loop.
#[derive(Debug, Clone, Copy, PartialEq, Eq, Structural)]
pub enum UserEvent {
    Show,
    Hide,
    Raise,
    Quit,
}

/// A message from a second instance of the program.
#[derive(Debug)]
pub enum InstanceEvent {
    Open(String),
}

} // verus!
