use crate::controller::Button;
use crate::Emulator;
use vstd::prelude::*;

verus! {

/// The keys of the keyboard that play a part; every other key is `Other`.
#[derive(Clone, Copy, Debug, PartialEq, Eq, Structural)]
pub enum Key {
    Z,
    X,
    N,
    M,
    Up,
    Down,
    Left,
    Right,
    Other,
}

/// The buttons of a game pad that play a part; every other one is `Other`.
#[derive(Clone, Copy, Debug, PartialEq, Eq, Structural)]
pub enum PadButton {
    A,
    B,
    Start,
    Back,
    DPadUp,
    DPadDown,
    DPadLeft,
    DPadRight,
    Other,
}

/// What the window system reports, as far as the console cares.
#[derive(Clone, Copy, Debug, PartialEq, Eq, Structural)]
pub enum InputEvent {
    /// A key went down; `repeat` marks the repeats of a key that is held.
    KeyDown { key: Key, repeat: bool },
    /// A key went up.
    KeyUp { key: Key, repeat: bool },
    ControllerButtonDown { button: PadButton },
    ControllerButtonUp { button: PadButton },
    Other,
}

/// The button of the console that a key stands for.
pub open spec fn key_button(key: Key) -> Option<Button> {
    match key {
        Key::Z => Some(Button::A),
        Key::X => Some(Button::B),
        Key::N => Some(Button::Start),
        Key::M => Some(Button::Select),
        Key::Up => Some(Button::Up),
        Key::Down => Some(Button::Down),
        Key::Left => Some(Button::Left),
        Key::Right => Some(Button::Right),
        Key::Other => None,
    }
}

/// The button of the console that a button of a game pad stands for.
pub open spec fn pad_button(button: PadButton) -> Option<Button> {
    match button {
        PadButton::A => Some(Button::A),
        PadButton::B => Some(Button::B),
        PadButton::Start => Some(Button::Start),
        PadButton::Back => Some(Button::Select),
        PadButton::DPadUp => Some(Button::Up),
        PadButton::DPadDown => Some(Button::Down),
        PadButton::DPadLeft => Some(Button::Left),
        PadButton::DPadRight => Some(Button::Right),
        PadButton::Other => None,
    }
}

/// The button that an event presses (`true`) or releases, if it does
/// either. The repeats of a held key change nothing.
pub open spec fn button_change(event: InputEvent) -> Option<(Button, bool)> {
    match event {
        InputEvent::KeyDown { key, repeat } => if repeat {
            None
        } else {
            match key_button(key) {
                Some(button) => Some((button, true)),
                None => None,
            }
        },
        InputEvent::KeyUp { key, repeat } => if repeat {
            None
        } else {
            match key_button(key) {
                Some(button) => Some((button, false)),
                None => None,
            }
        },
        InputEvent::ControllerButtonDown { button } => match pad_button(button) {
            Some(button) => Some((button, true)),
            None => None,
        },
        InputEvent::ControllerButtonUp { button } => match pad_button(button) {
            Some(button) => Some((button, false)),
            None => None,
        },
        InputEvent::Other => None,
    }
}

fn button_for_key(key: Key) -> (button: Option<Button>)
    ensures
        button == key_button(key),
{
    match key {
        Key::Z => Some(Button::A),
        Key::X => Some(Button::B),
        Key::N => Some(Button::Start),
        Key::M => Some(Button::Select),
        Key::Up => Some(Button::Up),
        Key::Down => Some(Button::Down),
        Key::Left => Some(Button::Left),
        Key::Right => Some(Button::Right),
        Key::Other => None,
    }
}

fn button_for_pad(button: PadButton) -> (mapped: Option<Button>)
    ensures
        mapped == pad_button(button),
{
    match button {
        PadButton::A => Some(Button::A),
        PadButton::B => Some(Button::B),
        PadButton::Start => Some(Button::Start),
        PadButton::Back => Some(Button::Select),
        PadButton::DPadUp => Some(Button::Up),
        PadButton::DPadDown => Some(Button::Down),
        PadButton::DPadLeft => Some(Button::Left),
        PadButton::DPadRight => Some(Button::Right),
        PadButton::Other => None,
    }
}

/// Hands an event of the window system to the controller of the console.
pub fn handle_emulator_input(event: InputEvent, emulator: &mut Emulator)
    requires
        old(emulator).wf(),
    ensures
        final(emulator).wf(),
        final(emulator)@ == (match button_change(event) {
            Some(change) => old(emulator)@.set_controller_state(change.0, change.1),
            None => old(emulator)@,
        }),
{
    let button_down: bool = match event {
        InputEvent::KeyDown { key: _, repeat: true } => {
            return ;
        },
        InputEvent::KeyUp { key: _, repeat: true } => {
            return ;
        },
        InputEvent::KeyDown { key: _, repeat: _ } => true,
        InputEvent::ControllerButtonDown { button: _ } => true,
        _ => false,
    };
    let button: Option<Button> = match event {
        InputEvent::KeyDown { key, repeat: _ } => button_for_key(key),
        InputEvent::KeyUp { key, repeat: _ } => button_for_key(key),
        InputEvent::ControllerButtonDown { button } => button_for_pad(button),
        InputEvent::ControllerButtonUp { button } => button_for_pad(button),
        InputEvent::Other => None,
    };
    match button {
        Some(button) => {
            emulator.set_controller_state(button, button_down);
        },
        None => {},
    }
}

} // verus!
