//! Keyboard control of skeletal animation playback, as a verified state machine.
//!
//! A viewer shows one character model and lets the user pause, speed up, seek
//! and cycle through the clips bundled with it. This crate holds the part of
//! such a viewer that decides: the clip catalogue, the controller state, and
//! the transition that one frame of key presses causes. The engine that
//! renders and blends is not part of it. The host reads each animation player
//! into a [`PlayerState`], calls [`keyboard_animation_control`] with the
//! engine's keyboard record, and carries out the [`Action`]s that come back.
//!
//! Speeds, the scroll velocity and clip times are fixed-point numbers, held in
//! thousandths in an `i64`: a speed of `1000` is normal speed, and a clip time
//! of `1000` is one second.

pub mod catalogue;
pub mod controller;
pub mod keys;
pub mod laws;
pub mod playback;
pub mod units;

pub use catalogue::{AnimationParams, AnimationParamsView, AnimationsMetadata};
pub use controller::{
    control_player, control_players, keyboard_animation_control, ControllerState,
};
pub use keys::{Key, KeyPresses};
pub use playback::{Action, ActiveClip, PlayerState};
