//! The controller: what the key presses of one frame do to the controller's
//! state and to each animation player.

use crate::catalogue::{AnimationParamsView, AnimationsMetadata};
use crate::keys::{just_pressed_keys, KeyPresses};
use crate::playback::{all_paused, applied, first_speed, Action, ActiveClip, PlayerState};
use crate::units::{shift, shifted, BLEND_MS, SEEK_STEP, SPEED_STEP, VELOCITY_STEP};
use bevy::input::keyboard::KeyCode;
use bevy::input::ButtonInput;
use vstd::prelude::*;

verus! {

/// What the controller remembers from frame to frame.
#[derive(Clone, Copy, Debug, PartialEq, Eq)]
pub struct ControllerState {
    /// The index in the catalogue of the clip that was chosen last.
    pub current_animation: usize,
    /// The velocity at which the reference lines of the overlay scroll, in
    /// thousandths.
    pub velocity: i64,
    /// Whether each clip plays at the speed that the catalogue gives it. While
    /// this is off, the speed keys set the speed.
    pub use_params: bool,
    /// Whether the reference lines of the overlay are spread along the y axis.
    pub lines_along_y: bool,
}

impl ControllerState {
    /// Whether this state fits a catalogue of `len` clips: the current clip is
    /// one of them.
    pub open spec fn valid_for(self, len: nat) -> bool {
        self.current_animation < len
    }

    /// The state in which a viewer starts: the first clip, at rest, with
    /// manual speed.
    pub fn new() -> (state: ControllerState)
        ensures
            state == (ControllerState {
                current_animation: 0,
                velocity: 0,
                use_params: false,
                lines_along_y: false,
            }),
    {
        ControllerState {
            current_animation: 0,
            velocity: 0,
            use_params: false,
            lines_along_y: false,
        }
    }
}

/// Where one player's turn stands: the controller's state, the clips of the
/// player, and what the host has been asked to do so far.
pub struct Outcome {
    pub state: ControllerState,
    pub clips: Seq<ActiveClip>,
    pub actions: Seq<Action>,
}

impl Outcome {
    /// The turn after `action` has been carried out and noted.
    pub open spec fn perform(self, action: Action) -> Outcome {
        Outcome {
            state: self.state,
            clips: applied(self.clips, action),
            actions: self.actions.push(action),
        }
    }

    /// The turn with another controller state.
    pub open spec fn with_state(self, state: ControllerState) -> Outcome {
        Outcome { state, clips: self.clips, actions: self.actions }
    }

    /// The report of the speed and velocity as they stand.
    pub open spec fn report(self) -> Action {
        Action::Report { playback_speed: first_speed(self.clips), velocity: self.state.velocity }
    }
}

/// Space: resume if every clip is paused, else pause.
#[verifier::opaque]
pub open spec fn toggle_pause(o: Outcome) -> Outcome {
    if all_paused(o.clips) {
        o.perform(Action::ResumeAll)
    } else {
        o.perform(Action::PauseAll)
    }
}

/// Arrow up or down: change the scroll velocity by `delta` and report.
#[verifier::opaque]
pub open spec fn nudge_velocity(o: Outcome, delta: i64) -> Outcome {
    let moved = o.with_state(
        ControllerState {
            current_animation: o.state.current_animation,
            velocity: shifted(o.state.velocity, delta),
            use_params: o.state.use_params,
            lines_along_y: o.state.lines_along_y,
        },
    );
    moved.perform(moved.report())
}

/// Left control: switch between configured and manual speed.
#[verifier::opaque]
pub open spec fn toggle_mode(o: Outcome) -> Outcome {
    o.with_state(
        ControllerState {
            current_animation: o.state.current_animation,
            velocity: o.state.velocity,
            use_params: !o.state.use_params,
            lines_along_y: o.state.lines_along_y,
        },
    )
}

/// A speed key: give every clip the speed of the first clip changed by
/// `delta`, and report. Where nothing plays there is no speed to change.
#[verifier::opaque]
pub open spec fn nudge_speed(o: Outcome, delta: i64) -> Outcome {
    match first_speed(o.clips) {
        Some(speed) => {
            let nudged = o.perform(Action::SetSpeed { speed: shifted(speed, delta) });
            nudged.perform(nudged.report())
        },
        None => o.perform(o.report()),
    }
}

/// The speed for this frame. With configured speed, every clip gets the speed
/// that the catalogue gives the current clip, whatever the speed keys say.
/// With manual speed, `A` raises the speed and `Z` lowers it.
#[verifier::opaque]
pub open spec fn govern_speed(
    keys: KeyPresses,
    o: Outcome,
    catalogue: Seq<AnimationParamsView>,
) -> Outcome {
    if o.state.use_params {
        o.perform(
            Action::SetSpeed { speed: catalogue[o.state.current_animation as int].playback_speed },
        )
    } else {
        let raised = if keys.key_a {
            nudge_speed(o, SPEED_STEP)
        } else {
            o
        };
        if keys.key_z {
            nudge_speed(raised, (-SPEED_STEP) as i64)
        } else {
            raised
        }
    }
}

/// Left control, once the speed is set: report the mode that was chosen.
#[verifier::opaque]
pub open spec fn report_mode(o: Outcome) -> Outcome {
    o.perform(
        Action::ReportMode {
            use_params: o.state.use_params,
            playback_speed: first_speed(o.clips),
            velocity: o.state.velocity,
        },
    )
}

/// A seek key: move the time of every clip by `delta`.
#[verifier::opaque]
pub open spec fn seek(o: Outcome, delta: i64) -> Outcome {
    o.perform(Action::Seek { delta })
}

/// The index of the clip that follows `current` in a catalogue of `len` clips.
pub open spec fn next_index(current: usize, len: nat) -> usize {
    ((current + 1) % (len as int)) as usize
}

/// Enter: move on to the next clip of the catalogue, the first one after the
/// last, and blend into it.
#[verifier::opaque]
pub open spec fn advance(o: Outcome, len: nat) -> Outcome {
    let next = next_index(o.state.current_animation, len);
    o.with_state(
        ControllerState {
            current_animation: next,
            velocity: o.state.velocity,
            use_params: o.state.use_params,
            lines_along_y: o.state.lines_along_y,
        },
    ).perform(Action::Transition { clip: next, blend_ms: BLEND_MS, repeat: true })
}

/// What the key presses of one frame do for one player: each key that went
/// down has its effect, in this order.
pub open spec fn player_step(
    keys: KeyPresses,
    state: ControllerState,
    catalogue: Seq<AnimationParamsView>,
    clips: Seq<ActiveClip>,
) -> Outcome {
    let o = Outcome { state, clips, actions: Seq::empty() };
    let o = if keys.space {
        toggle_pause(o)
    } else {
        o
    };
    let o = if keys.arrow_up {
        nudge_velocity(o, VELOCITY_STEP)
    } else {
        o
    };
    let o = if keys.arrow_down {
        nudge_velocity(o, (-VELOCITY_STEP) as i64)
    } else {
        o
    };
    let o = if keys.control_left {
        toggle_mode(o)
    } else {
        o
    };
    let o = govern_speed(keys, o, catalogue);
    let o = if keys.control_left {
        report_mode(o)
    } else {
        o
    };
    let o = if keys.arrow_left {
        seek(o, (-SEEK_STEP) as i64)
    } else {
        o
    };
    let o = if keys.alt_right {
        seek(o, SEEK_STEP)
    } else {
        o
    };
    if keys.enter {
        advance(o, catalogue.len())
    } else {
        o
    }
}

/// Where a frame stands: the controller's state, the clips of each player, and
/// what the host has been asked to do for each player.
pub struct FrameOutcome {
    pub state: ControllerState,
    pub players: Seq<Seq<ActiveClip>>,
    pub actions: Seq<Seq<Action>>,
}

/// Backspace: turn the reference lines of the overlay.
pub open spec fn turn_lines(keys: KeyPresses, state: ControllerState) -> ControllerState {
    ControllerState {
        current_animation: state.current_animation,
        velocity: state.velocity,
        use_params: state.use_params,
        lines_along_y: if keys.backspace {
            !state.lines_along_y
        } else {
            state.lines_along_y
        },
    }
}

/// What the key presses of one frame do to the controller's state, whatever
/// the players play: each key that went down has its effect once.
pub open spec fn stepped(keys: KeyPresses, state: ControllerState, len: nat) -> ControllerState {
    ControllerState {
        current_animation: if keys.enter {
            next_index(state.current_animation, len)
        } else {
            state.current_animation
        },
        velocity: {
            let raised = if keys.arrow_up {
                shifted(state.velocity, VELOCITY_STEP)
            } else {
                state.velocity
            };
            if keys.arrow_down {
                shifted(raised, (-VELOCITY_STEP) as i64)
            } else {
                raised
            }
        },
        use_params: keys.control_left != state.use_params,
        lines_along_y: state.lines_along_y,
    }
}

/// What the key presses of one frame do. The lines are turned once. The state
/// then takes one step, and every player takes its turn from the same state,
/// so that one press moves the velocity by one step, switches the mode once,
/// and sends every player to the same next clip. Where there is no player, the
/// keys other than Backspace have no effect.
pub open spec fn frame(
    keys: KeyPresses,
    state: ControllerState,
    catalogue: Seq<AnimationParamsView>,
    players: Seq<Seq<ActiveClip>>,
) -> FrameOutcome {
    let start = turn_lines(keys, state);
    FrameOutcome {
        state: if players.len() == 0 {
            start
        } else {
            stepped(keys, start, catalogue.len())
        },
        players: Seq::new(
            players.len(),
            |i: int| player_step(keys, start, catalogue, players[i]).clips,
        ),
        actions: Seq::new(
            players.len(),
            |i: int| player_step(keys, start, catalogue, players[i]).actions,
        ),
    }
}

/// A player's turn leaves the controller's state one step on, whatever the
/// player plays, and leaves the player with as many clips as it had.
pub proof fn lemma_step_state(
    keys: KeyPresses,
    state: ControllerState,
    catalogue: Seq<AnimationParamsView>,
    clips: Seq<ActiveClip>,
)
    ensures
        player_step(keys, state, catalogue, clips).state == stepped(keys, state, catalogue.len()),
        player_step(keys, state, catalogue, clips).clips.len() == clips.len(),
{
    reveal(toggle_pause);
    reveal(nudge_velocity);
    reveal(toggle_mode);
    reveal(govern_speed);
    reveal(nudge_speed);
    reveal(report_mode);
    reveal(seek);
    reveal(advance);
}

/// The clips of each player.
pub open spec fn clips_of(players: Seq<PlayerState>) -> Seq<Seq<ActiveClip>> {
    Seq::new(players.len(), |i: int| players[i]@)
}

/// The actions for each player.
pub open spec fn actions_of(actions: Seq<Vec<Action>>) -> Seq<Seq<Action>> {
    Seq::new(actions.len(), |i: int| actions[i]@)
}

/// Whether the state, the player and the noted actions are those of `o`.
pub open spec fn stands_at(
    state: ControllerState,
    player: PlayerState,
    actions: Vec<Action>,
    o: Outcome,
) -> bool {
    &&& state == o.state
    &&& player@ == o.clips
    &&& actions@ == o.actions
}

/// The turn that the state, the player and the noted actions make up.
pub open spec fn turn_of(
    state: ControllerState,
    player: PlayerState,
    actions: Vec<Action>,
) -> Outcome {
    Outcome { state, clips: player@, actions: actions@ }
}

/// Carries out `action` on the player and notes it for the host.
fn perform(player: &mut PlayerState, actions: &mut Vec<Action>, action: Action)
    ensures
        final(player)@ == applied(old(player)@, action),
        final(actions)@ == old(actions)@.push(action),
{
    player.apply(action);
    actions.push(action);
}

/// Arrow up or down.
fn change_velocity(
    state: &mut ControllerState,
    player: &mut PlayerState,
    actions: &mut Vec<Action>,
    delta: i64,
)
    ensures
        final(state).current_animation == old(state).current_animation,
        stands_at(
            *final(state),
            *final(player),
            *final(actions),
            nudge_velocity(turn_of(*old(state), *old(player), *old(actions)), delta),
        ),
{
    reveal(nudge_velocity);
    state.velocity = shift(state.velocity, delta);
    let report = Action::Report { playback_speed: player.speed(), velocity: state.velocity };
    perform(player, actions, report);
}

/// A speed key.
fn change_speed(
    state: &ControllerState,
    player: &mut PlayerState,
    actions: &mut Vec<Action>,
    delta: i64,
)
    ensures
        stands_at(
            *state,
            *final(player),
            *final(actions),
            nudge_speed(turn_of(*state, *old(player), *old(actions)), delta),
        ),
{
    reveal(nudge_speed);
    match player.speed() {
        Some(speed) => {
            perform(player, actions, Action::SetSpeed { speed: shift(speed, delta) });
        },
        None => {},
    }
    let report = Action::Report { playback_speed: player.speed(), velocity: state.velocity };
    perform(player, actions, report);
}

/// The speed for this frame, configured or manual.
fn set_speed(
    keys: &KeyPresses,
    state: &ControllerState,
    animation_meta: &AnimationsMetadata,
    player: &mut PlayerState,
    actions: &mut Vec<Action>,
)
    requires
        state.valid_for(animation_meta@.len()),
    ensures
        stands_at(
            *state,
            *final(player),
            *final(actions),
            govern_speed(*keys, turn_of(*state, *old(player), *old(actions)), animation_meta@),
        ),
{
    reveal(govern_speed);
    if state.use_params {
        let speed = animation_meta.0[state.current_animation].playback_speed;
        perform(player, actions, Action::SetSpeed { speed });
    } else {
        if keys.key_a {
            change_speed(state, player, actions, SPEED_STEP);
        }
        if keys.key_z {
            change_speed(state, player, actions, -SPEED_STEP);
        }
    }
}

/// Left control, once the speed is set.
fn announce_mode(state: &ControllerState, player: &mut PlayerState, actions: &mut Vec<Action>)
    ensures
        stands_at(
            *state,
            *final(player),
            *final(actions),
            report_mode(turn_of(*state, *old(player), *old(actions))),
        ),
{
    reveal(report_mode);
    let report = Action::ReportMode {
        use_params: state.use_params,
        playback_speed: player.speed(),
        velocity: state.velocity,
    };
    perform(player, actions, report);
}

/// Enter.
fn next_clip(
    state: &mut ControllerState,
    animation_meta: &AnimationsMetadata,
    player: &mut PlayerState,
    actions: &mut Vec<Action>,
)
    requires
        old(state).valid_for(animation_meta@.len()),
    ensures
        final(state).valid_for(animation_meta@.len()),
        stands_at(
            *final(state),
            *final(player),
            *final(actions),
            advance(turn_of(*old(state), *old(player), *old(actions)), animation_meta@.len()),
        ),
{
    reveal(advance);
    let len = animation_meta.len();
    state.current_animation = (state.current_animation + 1) % len;
    let transition = Action::Transition {
        clip: state.current_animation,
        blend_ms: BLEND_MS,
        repeat: true,
    };
    perform(player, actions, transition);
}

/// Lets the key presses of one frame act on one player.
///
/// Returns what the host is to do for this player, in order. The state and the
/// player's clips are left as they are after those actions.
pub fn control_player(
    keys: &KeyPresses,
    state: &mut ControllerState,
    animation_meta: &AnimationsMetadata,
    player: &mut PlayerState,
) -> (actions: Vec<Action>)
    requires
        old(state).valid_for(animation_meta@.len()),
    ensures
        final(state).valid_for(animation_meta@.len()),
        *final(state) == stepped(*keys, *old(state), animation_meta@.len()),
        *final(state) == player_step(*keys, *old(state), animation_meta@, old(player)@).state,
        final(player)@ == player_step(*keys, *old(state), animation_meta@, old(player)@).clips,
        actions@ == player_step(*keys, *old(state), animation_meta@, old(player)@).actions,
{
    let mut actions: Vec<Action> = Vec::new();
    proof {
        lemma_step_state(*keys, *state, animation_meta@, player@);
        reveal(toggle_pause);
        reveal(toggle_mode);
        reveal(seek);
    }
    if keys.space {
        if player.all_paused() {
            perform(player, &mut actions, Action::ResumeAll);
        } else {
            perform(player, &mut actions, Action::PauseAll);
        }
    }
    if keys.arrow_up {
        change_velocity(state, player, &mut actions, VELOCITY_STEP);
    }
    if keys.arrow_down {
        change_velocity(state, player, &mut actions, -VELOCITY_STEP);
    }
    if keys.control_left {
        state.use_params = !state.use_params;
    }
    set_speed(keys, state, animation_meta, player, &mut actions);
    if keys.control_left {
        announce_mode(state, player, &mut actions);
    }
    if keys.arrow_left {
        perform(player, &mut actions, Action::Seek { delta: -SEEK_STEP });
    }
    if keys.alt_right {
        perform(player, &mut actions, Action::Seek { delta: SEEK_STEP });
    }
    if keys.enter {
        next_clip(state, animation_meta, player, &mut actions);
    }
    actions
}

/// Lets the key presses of one frame act on every player.
///
/// The state takes one step, and every player takes its turn from the state
/// as it was when the lines were turned. Returns, for each player, what the
/// host is to do for it, in order.
pub fn control_players(
    keys: &KeyPresses,
    state: &mut ControllerState,
    animation_meta: &AnimationsMetadata,
    players: &mut Vec<PlayerState>,
) -> (actions: Vec<Vec<Action>>)
    requires
        old(state).valid_for(animation_meta@.len()),
    ensures
        final(state).valid_for(animation_meta@.len()),
        final(players)@.len() == old(players)@.len(),
        actions@.len() == old(players)@.len(),
        *final(state) == frame(*keys, *old(state), animation_meta@, clips_of(old(players)@)).state,
        clips_of(final(players)@) == frame(
            *keys,
            *old(state),
            animation_meta@,
            clips_of(old(players)@),
        ).players,
        actions_of(actions@) == frame(
            *keys,
            *old(state),
            animation_meta@,
            clips_of(old(players)@),
        ).actions,
{
    if keys.backspace {
        state.lines_along_y = !state.lines_along_y;
    }
    let start = *state;
    let ghost before = clips_of(old(players)@);
    let mut actions: Vec<Vec<Action>> = Vec::new();
    let mut i: usize = 0;
    while i < players.len()
        invariant
            i <= players.len(),
            players.len() == old(players).len(),
            before == clips_of(old(players)@),
            start == turn_lines(*keys, *old(state)),
            start.valid_for(animation_meta@.len()),
            *state == if i == 0 {
                start
            } else {
                stepped(*keys, start, animation_meta@.len())
            },
            state.valid_for(animation_meta@.len()),
            actions.len() == i,
            forall|j: int|
                0 <= j < i ==> (#[trigger] players@[j])@ == player_step(
                    *keys,
                    start,
                    animation_meta@,
                    before[j],
                ).clips,
            forall|j: int|
                0 <= j < i ==> (#[trigger] actions@[j])@ == player_step(
                    *keys,
                    start,
                    animation_meta@,
                    before[j],
                ).actions,
            forall|j: int| i <= j < players.len() ==> (#[trigger] players@[j])@ == before[j],
        decreases players.len() - i,
    {
        let mut turned = start;
        let turn = control_player(keys, &mut turned, animation_meta, &mut players[i]);
        *state = turned;
        actions.push(turn);
        i += 1;
    }
    actions
}

/// Reads the key presses of the frame off the engine's keyboard record and
/// lets them act on every player.
///
/// Returns, for each player, what the host is to do for it, in order.
pub fn keyboard_animation_control(
    keyboard_input: &ButtonInput<KeyCode>,
    state: &mut ControllerState,
    animation_meta: &AnimationsMetadata,
    players: &mut Vec<PlayerState>,
) -> (actions: Vec<Vec<Action>>)
    requires
        old(state).valid_for(animation_meta@.len()),
    ensures
        final(state).valid_for(animation_meta@.len()),
        final(players)@.len() == old(players)@.len(),
        actions@.len() == old(players)@.len(),
        *final(state) == frame(
            KeyPresses::of(just_pressed_keys(*keyboard_input)),
            *old(state),
            animation_meta@,
            clips_of(old(players)@),
        ).state,
        clips_of(final(players)@) == frame(
            KeyPresses::of(just_pressed_keys(*keyboard_input)),
            *old(state),
            animation_meta@,
            clips_of(old(players)@),
        ).players,
        actions_of(actions@) == frame(
            KeyPresses::of(just_pressed_keys(*keyboard_input)),
            *old(state),
            animation_meta@,
            clips_of(old(players)@),
        ).actions,
{
    let keys = KeyPresses::read(keyboard_input);
    control_players(&keys, state, animation_meta, players)
}

} // verus!
