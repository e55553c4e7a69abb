//! The key presses of one frame.

use bevy::input::keyboard::KeyCode;
use bevy::input::ButtonInput;
use vstd::prelude::*;

verus! {

/// A key that the controller listens to, named as the engine names it.
#[derive(Clone, Copy, Debug, PartialEq, Eq)]
pub enum Key {
    Backspace,
    Space,
    ArrowUp,
    ArrowDown,
    ControlLeft,
    KeyA,
    KeyZ,
    ArrowLeft,
    AltRight,
    Enter,
}

/// The engine's record of the buttons of one kind of device. Verus is told
/// only that the type exists.
#[verifier::external_type_specification]
#[verifier::external_body]
#[verifier::reject_recursive_types(T)]
pub struct ExButtonInput<T: Copy + Eq + core::hash::Hash + Send + Sync + 'static>(ButtonInput<T>);

/// The engine's name for a key of the keyboard. Verus is told only that the
/// type exists.
#[verifier::external_type_specification]
#[verifier::external_body]
pub struct ExKeyCode(KeyCode);

/// Those of the controller's keys that the engine's keyboard record holds as
/// having gone down during the frame.
pub uninterp spec fn just_pressed_keys(input: ButtonInput<KeyCode>) -> Set<Key>;

/// Asks the engine's keyboard record whether `key` went down during the frame,
/// by `ButtonInput::just_pressed`.
///
/// Not proved: that the answer is membership in [`just_pressed_keys`], which
/// is to say that it depends on the record and the key alone.
#[verifier::external_body]
fn just_pressed(input: &ButtonInput<KeyCode>, key: Key) -> (pressed: bool)
    ensures
        pressed == just_pressed_keys(*input).contains(key),
{
    input.just_pressed(
        match key {
            Key::Backspace => KeyCode::Backspace,
            Key::Space => KeyCode::Space,
            Key::ArrowUp => KeyCode::ArrowUp,
            Key::ArrowDown => KeyCode::ArrowDown,
            Key::ControlLeft => KeyCode::ControlLeft,
            Key::KeyA => KeyCode::KeyA,
            Key::KeyZ => KeyCode::KeyZ,
            Key::ArrowLeft => KeyCode::ArrowLeft,
            Key::AltRight => KeyCode::AltRight,
            Key::Enter => KeyCode::Enter,
        },
    )
}

/// Which of the keys that the controller listens to went down during one frame.
///
/// A field is `true` in the frame in which its key was pressed and `false`
/// while the key is merely held.
#[derive(Clone, Copy, Debug, PartialEq, Eq)]
pub struct KeyPresses {
    /// Turns the reference lines of the overlay by a quarter.
    pub backspace: bool,
    /// Pauses or resumes playback.
    pub space: bool,
    /// Raises the scroll velocity.
    pub arrow_up: bool,
    /// Lowers the scroll velocity.
    pub arrow_down: bool,
    /// Switches between the clip's configured speed and manual speed.
    pub control_left: bool,
    /// Raises the playback speed.
    pub key_a: bool,
    /// Lowers the playback speed.
    pub key_z: bool,
    /// Seeks backward.
    pub arrow_left: bool,
    /// Seeks forward.
    pub alt_right: bool,
    /// Advances to the next clip.
    pub enter: bool,
}

impl KeyPresses {
    /// The key presses of a frame in which the keys in `down` went down.
    pub open spec fn of(down: Set<Key>) -> KeyPresses {
        KeyPresses {
            backspace: down.contains(Key::Backspace),
            space: down.contains(Key::Space),
            arrow_up: down.contains(Key::ArrowUp),
            arrow_down: down.contains(Key::ArrowDown),
            control_left: down.contains(Key::ControlLeft),
            key_a: down.contains(Key::KeyA),
            key_z: down.contains(Key::KeyZ),
            arrow_left: down.contains(Key::ArrowLeft),
            alt_right: down.contains(Key::AltRight),
            enter: down.contains(Key::Enter),
        }
    }

    /// A frame in which no key went down.
    pub fn none() -> (keys: KeyPresses)
        ensures
            keys == KeyPresses::of(Set::empty()),
    {
        KeyPresses {
            backspace: false,
            space: false,
            arrow_up: false,
            arrow_down: false,
            control_left: false,
            key_a: false,
            key_z: false,
            arrow_left: false,
            alt_right: false,
            enter: false,
        }
    }

    /// Reads the key presses of the frame off the engine's keyboard record.
    pub fn read(input: &ButtonInput<KeyCode>) -> (keys: KeyPresses)
        ensures
            keys == KeyPresses::of(just_pressed_keys(*input)),
    {
        KeyPresses {
            backspace: just_pressed(input, Key::Backspace),
            space: just_pressed(input, Key::Space),
            arrow_up: just_pressed(input, Key::ArrowUp),
            arrow_down: just_pressed(input, Key::ArrowDown),
            control_left: just_pressed(input, Key::ControlLeft),
            key_a: just_pressed(input, Key::KeyA),
            key_z: just_pressed(input, Key::KeyZ),
            arrow_left: just_pressed(input, Key::ArrowLeft),
            alt_right: just_pressed(input, Key::AltRight),
            enter: just_pressed(input, Key::Enter),
        }
    }
}

} // verus!
