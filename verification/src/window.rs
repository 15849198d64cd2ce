//! What the events of the window and of the game controllers mean for the
//! input.

use vstd::prelude::*;

use crate::input::utils::{after_key_event, KeyEvent};
use crate::input::{InputUpdater, Keys};
use crate::utils::TimeMilliseconds;

verus! {

/// The keys that the launcher knows.
#[derive(Clone, Copy, Debug, PartialEq, Eq, Structural)]
pub enum VirtualKeyCode {
    Escape,
    Return,
    Left,
    Right,
    Up,
    Down,
    /// Any other key.
    Other,
}

/// Whether a key or a button went down or up.
#[derive(Clone, Copy, Debug, PartialEq, Eq, Structural)]
pub enum ElementState {
    Pressed,
    Released,
}

/// An event of the keyboard.
#[derive(Clone, Copy, Debug, PartialEq, Eq, Structural)]
pub struct KeyboardInput {
    /// The key, where the window system could name it.
    pub virtual_keycode: Option<VirtualKeyCode>,
    pub state: ElementState,
}

/// The buttons of a game controller that the launcher knows.
#[derive(Clone, Copy, Debug, PartialEq, Eq, Structural)]
pub enum Button {
    South,
    DPadUp,
    DPadDown,
    DPadLeft,
    DPadRight,
    /// Any other button.
    Other,
}

/// The axes of a game controller that the launcher knows.
#[derive(Clone, Copy, Debug, PartialEq, Eq, Structural)]
pub enum Axis {
    LeftStickX,
    LeftStickY,
    /// Any other axis.
    Other,
}

/// Where a stick stands on an axis.
#[derive(Clone, Copy, Debug, PartialEq, Eq, Structural)]
pub enum AxisPosition {
    /// At or beyond the limit, to the right or upwards.
    Positive,
    /// At or beyond the limit, to the left or downwards.
    Negative,
    /// Within the limits.
    Centered,
}

/// An event of a game controller.
#[derive(Clone, Copy, Debug, PartialEq, Eq, Structural)]
pub enum ControllerEvent {
    ButtonPressed(Button),
    ButtonReleased(Button),
    AxisChanged(Axis, AxisPosition),
    /// Any other event.
    Other,
}

/// The key event that a state of a key amounts to.
pub open spec fn key_event_of(state: ElementState) -> KeyEvent {
    match state {
        ElementState::Pressed => KeyEvent::KeyDown,
        ElementState::Released => KeyEvent::KeyUp,
    }
}

/// Whether an event of the keyboard changes the input: Escape, the release
/// of Return, and the arrow keys do.
pub open spec fn keyboard_input_counts(keyboard_input: KeyboardInput) -> bool {
    match keyboard_input.virtual_keycode {
        Some(VirtualKeyCode::Escape) => true,
        Some(VirtualKeyCode::Return) => keyboard_input.state is Released,
        Some(VirtualKeyCode::Left) | Some(VirtualKeyCode::Right) | Some(VirtualKeyCode::Up) | Some(
            VirtualKeyCode::Down,
        ) => true,
        _ => false,
    }
}

/// The input after an event of the keyboard at `now`: Escape asks to quit,
/// the release of Return asks to launch, and an arrow key is the key of its
/// direction.
pub open spec fn keys_after_keyboard_input(
    keys: Keys,
    keyboard_input: KeyboardInput,
    now: u32,
) -> Keys {
    let key_event = key_event_of(keyboard_input.state);
    match keyboard_input.virtual_keycode {
        Some(VirtualKeyCode::Escape) => Keys { quit: true, ..keys },
        Some(VirtualKeyCode::Return) => if keyboard_input.state is Released {
            Keys { select: true, ..keys }
        } else {
            keys
        },
        Some(VirtualKeyCode::Left) => Keys {
            left: after_key_event(keys.left, key_event, now),
            ..keys
        },
        Some(VirtualKeyCode::Right) => Keys {
            right: after_key_event(keys.right, key_event, now),
            ..keys
        },
        Some(VirtualKeyCode::Up) => Keys { up: after_key_event(keys.up, key_event, now), ..keys },
        Some(VirtualKeyCode::Down) => Keys {
            down: after_key_event(keys.down, key_event, now),
            ..keys
        },
        _ => keys,
    }
}

/// Hands an event of the keyboard to the input, and tells whether the input
/// was updated.
pub fn handle_keyboard_input<T: InputUpdater>(
    update: &mut T,
    keyboard_input: KeyboardInput,
    current_time: &TimeMilliseconds,
) -> (updated: bool)
    ensures
        updated == keyboard_input_counts(keyboard_input),
        final(update).keys() == keys_after_keyboard_input(
            old(update).keys(),
            keyboard_input,
            current_time.0,
        ),
{
    let key_event = match keyboard_input.state {
        ElementState::Pressed => KeyEvent::KeyDown,
        ElementState::Released => KeyEvent::KeyUp,
    };
    match keyboard_input.virtual_keycode {
        Some(VirtualKeyCode::Escape) => {
            update.set_quit(true);
            true
        },
        Some(VirtualKeyCode::Return) => {
            match keyboard_input.state {
                ElementState::Released => {
                    update.set_select(true);
                    true
                },
                ElementState::Pressed => false,
            }
        },
        Some(VirtualKeyCode::Left) => {
            update.update_left(key_event, current_time);
            true
        },
        Some(VirtualKeyCode::Right) => {
            update.update_right(key_event, current_time);
            true
        },
        Some(VirtualKeyCode::Up) => {
            update.update_up(key_event, current_time);
            true
        },
        Some(VirtualKeyCode::Down) => {
            update.update_down(key_event, current_time);
            true
        },
        _ => false,
    }
}

/// Whether an event of a game controller changes the input: the release of
/// the south button, the buttons of the directional pad, and the two axes of
/// the left stick do.
pub open spec fn controller_event_counts(event: ControllerEvent) -> bool {
    match event {
        ControllerEvent::ButtonReleased(button) => !(button is Other),
        ControllerEvent::ButtonPressed(button) => !(button is Other) && !(button is South),
        ControllerEvent::AxisChanged(axis, _) => !(axis is Other),
        ControllerEvent::Other => false,
    }
}

/// The input after a button went down or up: a button of the directional
/// pad is the key of its direction, any other button changes nothing.
pub open spec fn keys_after_button(keys: Keys, button: Button, key_event: KeyEvent, now: u32) -> Keys {
    match button {
        Button::DPadLeft => Keys { left: after_key_event(keys.left, key_event, now), ..keys },
        Button::DPadRight => Keys { right: after_key_event(keys.right, key_event, now), ..keys },
        Button::DPadUp => Keys { up: after_key_event(keys.up, key_event, now), ..keys },
        Button::DPadDown => Keys { down: after_key_event(keys.down, key_event, now), ..keys },
        _ => keys,
    }
}

/// The input after an event of a game controller at `now`. The release of
/// the south button asks to launch. A button of the directional pad is the
/// key of its direction. A stick beyond a limit holds the key of that
/// direction down; a stick within the limits releases both keys of its axis.
pub open spec fn keys_after_controller_event(keys: Keys, event: ControllerEvent, now: u32) -> Keys {
    match event {
        ControllerEvent::ButtonReleased(Button::South) => Keys { select: true, ..keys },
        ControllerEvent::ButtonPressed(button) => keys_after_button(
            keys,
            button,
            KeyEvent::KeyDown,
            now,
        ),
        ControllerEvent::ButtonReleased(button) => keys_after_button(
            keys,
            button,
            KeyEvent::KeyUp,
            now,
        ),
        ControllerEvent::AxisChanged(Axis::LeftStickX, position) => match position {
            AxisPosition::Positive => Keys {
                right: after_key_event(keys.right, KeyEvent::KeyDown, now),
                ..keys
            },
            AxisPosition::Negative => Keys {
                left: after_key_event(keys.left, KeyEvent::KeyDown, now),
                ..keys
            },
            AxisPosition::Centered => Keys {
                left: after_key_event(keys.left, KeyEvent::KeyUp, now),
                right: after_key_event(keys.right, KeyEvent::KeyUp, now),
                ..keys
            },
        },
        ControllerEvent::AxisChanged(Axis::LeftStickY, position) => match position {
            AxisPosition::Positive => Keys {
                up: after_key_event(keys.up, KeyEvent::KeyDown, now),
                ..keys
            },
            AxisPosition::Negative => Keys {
                down: after_key_event(keys.down, KeyEvent::KeyDown, now),
                ..keys
            },
            AxisPosition::Centered => Keys {
                up: after_key_event(keys.up, KeyEvent::KeyUp, now),
                down: after_key_event(keys.down, KeyEvent::KeyUp, now),
                ..keys
            },
        },
        _ => keys,
    }
}

/// Hands an event of a game controller to the input, and tells whether the
/// input was updated.
pub fn handle_game_controller_input<T: InputUpdater>(
    update: &mut T,
    event: ControllerEvent,
    current_time: &TimeMilliseconds,
) -> (updated: bool)
    ensures
        updated == controller_event_counts(event),
        final(update).keys() == keys_after_controller_event(
            old(update).keys(),
            event,
            current_time.0,
        ),
{
    match event {
        ControllerEvent::ButtonReleased(Button::South) => {
            update.set_select(true);
            true
        },
        ControllerEvent::ButtonPressed(Button::DPadLeft) => {
            update.update_left(KeyEvent::KeyDown, current_time);
            true
        },
        ControllerEvent::ButtonPressed(Button::DPadRight) => {
            update.update_right(KeyEvent::KeyDown, current_time);
            true
        },
        ControllerEvent::ButtonPressed(Button::DPadUp) => {
            update.update_up(KeyEvent::KeyDown, current_time);
            true
        },
        ControllerEvent::ButtonPressed(Button::DPadDown) => {
            update.update_down(KeyEvent::KeyDown, current_time);
            true
        },
        ControllerEvent::ButtonReleased(Button::DPadLeft) => {
            update.update_left(KeyEvent::KeyUp, current_time);
            true
        },
        ControllerEvent::ButtonReleased(Button::DPadRight) => {
            update.update_right(KeyEvent::KeyUp, current_time);
            true
        },
        ControllerEvent::ButtonReleased(Button::DPadUp) => {
            update.update_up(KeyEvent::KeyUp, current_time);
            true
        },
        ControllerEvent::ButtonReleased(Button::DPadDown) => {
            update.update_down(KeyEvent::KeyUp, current_time);
            true
        },
        ControllerEvent::AxisChanged(Axis::LeftStickX, position) => {
            match position {
                AxisPosition::Positive => {
                    update.update_right(KeyEvent::KeyDown, current_time);
                },
                AxisPosition::Negative => {
                    update.update_left(KeyEvent::KeyDown, current_time);
                },
                AxisPosition::Centered => {
                    update.update_left(KeyEvent::KeyUp, current_time);
                    update.update_right(KeyEvent::KeyUp, current_time);
                },
            }
            true
        },
        ControllerEvent::AxisChanged(Axis::LeftStickY, position) => {
            match position {
                AxisPosition::Positive => {
                    update.update_up(KeyEvent::KeyDown, current_time);
                },
                AxisPosition::Negative => {
                    update.update_down(KeyEvent::KeyDown, current_time);
                },
                AxisPosition::Centered => {
                    update.update_up(KeyEvent::KeyUp, current_time);
                    update.update_down(KeyEvent::KeyUp, current_time);
                },
            }
            true
        },
        _ => false,
    }
}

} // verus!
