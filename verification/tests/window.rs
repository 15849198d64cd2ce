use program_launcher::input::{Input, InputManager};
use program_launcher::utils::TimeMilliseconds;
use program_launcher::window::{
    handle_game_controller_input, handle_keyboard_input, Axis, AxisPosition, Button,
    ControllerEvent, ElementState, KeyboardInput, VirtualKeyCode,
};

fn at(milliseconds: u32) -> TimeMilliseconds {
    TimeMilliseconds::new(milliseconds)
}

fn key(code: VirtualKeyCode, state: ElementState) -> KeyboardInput {
    KeyboardInput { virtual_keycode: Some(code), state }
}

/// What the input tells after the events: quit, select, right, left, up, down.
fn told(input: &mut InputManager) -> [bool; 6] {
    [input.quit(), input.select(), input.right(), input.left(), input.up(), input.down()]
}

fn press_and_release(code: VirtualKeyCode) -> [bool; 6] {
    let mut input = InputManager::new();
    assert!(handle_keyboard_input(&mut input, key(code, ElementState::Pressed), &at(0)));
    assert_eq!(told(&mut input), [false; 6]);
    assert!(handle_keyboard_input(&mut input, key(code, ElementState::Released), &at(10)));
    told(&mut input)
}

#[test]
fn escape_asks_to_quit_on_press_and_on_release() {
    let mut input = InputManager::new();
    assert!(handle_keyboard_input(&mut input, key(VirtualKeyCode::Escape, ElementState::Pressed), &at(0)));
    assert_eq!(told(&mut input), [true, false, false, false, false, false]);
    let mut input = InputManager::new();
    assert!(handle_keyboard_input(&mut input, key(VirtualKeyCode::Escape, ElementState::Released), &at(0)));
    assert_eq!(told(&mut input), [true, false, false, false, false, false]);
}

#[test]
fn return_asks_to_launch_on_release_only() {
    let mut input = InputManager::new();
    assert!(!handle_keyboard_input(&mut input, key(VirtualKeyCode::Return, ElementState::Pressed), &at(0)));
    assert_eq!(told(&mut input), [false; 6]);
    assert!(handle_keyboard_input(&mut input, key(VirtualKeyCode::Return, ElementState::Released), &at(0)));
    assert_eq!(told(&mut input), [false, true, false, false, false, false]);
}

#[test]
fn arrow_keys_are_the_keys_of_their_directions() {
    assert_eq!(press_and_release(VirtualKeyCode::Right), [false, false, true, false, false, false]);
    assert_eq!(press_and_release(VirtualKeyCode::Left), [false, false, false, true, false, false]);
    assert_eq!(press_and_release(VirtualKeyCode::Up), [false, false, false, false, true, false]);
    assert_eq!(press_and_release(VirtualKeyCode::Down), [false, false, false, false, false, true]);
}

#[test]
fn other_keys_and_unnamed_keys_change_nothing() {
    let mut input = InputManager::new();
    assert!(!handle_keyboard_input(&mut input, key(VirtualKeyCode::Other, ElementState::Pressed), &at(0)));
    assert!(!handle_keyboard_input(&mut input, key(VirtualKeyCode::Other, ElementState::Released), &at(0)));
    let unnamed = KeyboardInput { virtual_keycode: None, state: ElementState::Released };
    assert!(!handle_keyboard_input(&mut input, unnamed, &at(0)));
    assert_eq!(told(&mut input), [false; 6]);
}

fn button_press_and_release(button: Button) -> [bool; 6] {
    let mut input = InputManager::new();
    assert!(handle_game_controller_input(&mut input, ControllerEvent::ButtonPressed(button), &at(0)));
    assert_eq!(told(&mut input), [false; 6]);
    assert!(handle_game_controller_input(&mut input, ControllerEvent::ButtonReleased(button), &at(10)));
    told(&mut input)
}

#[test]
fn directional_pad_is_the_keys_of_its_directions() {
    assert_eq!(button_press_and_release(Button::DPadRight), [false, false, true, false, false, false]);
    assert_eq!(button_press_and_release(Button::DPadLeft), [false, false, false, true, false, false]);
    assert_eq!(button_press_and_release(Button::DPadUp), [false, false, false, false, true, false]);
    assert_eq!(button_press_and_release(Button::DPadDown), [false, false, false, false, false, true]);
}

#[test]
fn south_button_asks_to_launch_on_release_only() {
    let mut input = InputManager::new();
    assert!(!handle_game_controller_input(&mut input, ControllerEvent::ButtonPressed(Button::South), &at(0)));
    assert_eq!(told(&mut input), [false; 6]);
    assert!(handle_game_controller_input(&mut input, ControllerEvent::ButtonReleased(Button::South), &at(0)));
    assert_eq!(told(&mut input), [false, true, false, false, false, false]);
}

#[test]
fn other_controller_events_change_nothing() {
    let mut input = InputManager::new();
    assert!(!handle_game_controller_input(&mut input, ControllerEvent::Other, &at(0)));
    assert!(!handle_game_controller_input(&mut input, ControllerEvent::ButtonPressed(Button::Other), &at(0)));
    assert!(!handle_game_controller_input(&mut input, ControllerEvent::ButtonReleased(Button::Other), &at(0)));
    assert!(!handle_game_controller_input(
        &mut input,
        ControllerEvent::AxisChanged(Axis::Other, AxisPosition::Positive),
        &at(0)
    ));
    assert_eq!(told(&mut input), [false; 6]);
}

fn stick(axis: Axis, position: AxisPosition) -> [bool; 6] {
    let mut input = InputManager::new();
    assert!(handle_game_controller_input(&mut input, ControllerEvent::AxisChanged(axis, position), &at(0)));
    assert_eq!(told(&mut input), [false; 6]);
    assert!(handle_game_controller_input(
        &mut input,
        ControllerEvent::AxisChanged(axis, AxisPosition::Centered),
        &at(10)
    ));
    told(&mut input)
}

#[test]
fn left_stick_holds_the_key_of_its_direction_until_it_is_centered() {
    assert_eq!(stick(Axis::LeftStickX, AxisPosition::Positive), [false, false, true, false, false, false]);
    assert_eq!(stick(Axis::LeftStickX, AxisPosition::Negative), [false, false, false, true, false, false]);
    assert_eq!(stick(Axis::LeftStickY, AxisPosition::Positive), [false, false, false, false, true, false]);
    assert_eq!(stick(Axis::LeftStickY, AxisPosition::Negative), [false, false, false, false, false, true]);
}

#[test]
fn centered_stick_alone_makes_no_hit() {
    assert_eq!(stick(Axis::LeftStickX, AxisPosition::Centered), [false; 6]);
    assert_eq!(stick(Axis::LeftStickY, AxisPosition::Centered), [false; 6]);
}
