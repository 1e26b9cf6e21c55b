//! Static mapping from physical input codes to logical controller buttons.
//!
//! The mapping is fixed data, read-only after construction; the host
//! front-end translates its own key events into [`KeyCode`] values.

use vstd::prelude::*;

verus! {

/// A logical button of the emulated machine's first game pad.
#[derive(Clone, Copy, PartialEq, Eq, Structural, Debug)]
pub enum Button {
    A,
    B,
    Select,
    Start,
    Up,
    Down,
    Left,
    Right,
}

/// A physical key the front-end distinguishes; `Other` stands for every key
/// the static keymap leaves unmapped.
#[derive(Clone, Copy, PartialEq, Eq, Structural, Debug)]
pub enum KeyCode {
    KeyX,
    KeyZ,
    Space,
    Enter,
    ArrowUp,
    ArrowDown,
    ArrowLeft,
    ArrowRight,
    Other,
}

/// The static keymap: which controller button, if any, a physical key drives.
pub open spec fn keymap_spec(key_code: KeyCode) -> Option<Button> {
    match key_code {
        KeyCode::KeyX => Some(Button::A),
        KeyCode::KeyZ => Some(Button::B),
        KeyCode::Space => Some(Button::Select),
        KeyCode::Enter => Some(Button::Start),
        KeyCode::ArrowUp => Some(Button::Up),
        KeyCode::ArrowDown => Some(Button::Down),
        KeyCode::ArrowLeft => Some(Button::Left),
        KeyCode::ArrowRight => Some(Button::Right),
        KeyCode::Other => None,
    }
}

/// Look a physical key up in the static keymap.
pub fn keymap(key_code: KeyCode) -> (r: Option<Button>)
    ensures
        r == keymap_spec(key_code),
{
    match key_code {
        KeyCode::KeyX => Some(Button::A),
        KeyCode::KeyZ => Some(Button::B),
        KeyCode::Space => Some(Button::Select),
        KeyCode::Enter => Some(Button::Start),
        KeyCode::ArrowUp => Some(Button::Up),
        KeyCode::ArrowDown => Some(Button::Down),
        KeyCode::ArrowLeft => Some(Button::Left),
        KeyCode::ArrowRight => Some(Button::Right),
        KeyCode::Other => None,
    }
}

} // verus!
