//! What holds of the controller over several frames.
//!
//! Most laws speak of one player's turns. In a frame every player takes the
//! turn that it would take alone, and the state takes the one step that such
//! a turn makes, so that one press is one step however many players there are.
//! A frame in which a key "is pressed" may have other keys pressed with it,
//! unless a law says otherwise.

use crate::catalogue::AnimationParamsView;
use crate::controller::{
    advance, frame, govern_speed, lemma_step_state, next_index, nudge_speed, nudge_velocity,
    player_step, report_mode, seek, stepped, toggle_mode, toggle_pause, turn_lines,
    ControllerState, FrameOutcome, Outcome,
};
use crate::keys::KeyPresses;
use crate::playback::{all_paused, applied_all, first_speed, Action, ActiveClip};
use crate::units::{shifted, BLEND_MS, SEEK_STEP, SPEED_STEP, VELOCITY_STEP};
use vstd::prelude::*;

verus! {

/// Where one player stands after one frame for each entry of `presses`, in
/// order. The actions are those of the last frame.
pub open spec fn player_steps(
    presses: Seq<KeyPresses>,
    state: ControllerState,
    catalogue: Seq<AnimationParamsView>,
    clips: Seq<ActiveClip>,
) -> Outcome
    decreases presses.len(),
{
    if presses.len() == 0 {
        Outcome { state, clips, actions: Seq::empty() }
    } else {
        let before = player_steps(presses.drop_last(), state, catalogue, clips);
        player_step(presses.last(), before.state, catalogue, before.clips)
    }
}

/// The paused flag of a clip after a frame: Space pauses what runs and
/// resumes what is all paused.
pub open spec fn paused_after(keys: KeyPresses, clips: Seq<ActiveClip>, i: int) -> bool {
    if keys.space {
        !all_paused(clips)
    } else {
        clips[i].paused
    }
}

/// The time of a clip after a frame: arrow left moves it back by a step, right
/// alt moves it forward by a step.
pub open spec fn elapsed_after(keys: KeyPresses, clips: Seq<ActiveClip>, i: int) -> i64 {
    let back = if keys.arrow_left {
        shifted(clips[i].elapsed, (-SEEK_STEP) as i64)
    } else {
        clips[i].elapsed
    };
    if keys.alt_right {
        shifted(back, SEEK_STEP)
    } else {
        back
    }
}

/// The speed of a clip after a frame. With configured speed it is the speed
/// that the catalogue gives the current clip. With manual speed it is the
/// speed of the first clip, raised by `A` and lowered by `Z`, or the clip's own
/// speed where neither is pressed.
pub open spec fn speed_after(
    keys: KeyPresses,
    state: ControllerState,
    catalogue: Seq<AnimationParamsView>,
    clips: Seq<ActiveClip>,
    i: int,
) -> i64 {
    if keys.control_left != state.use_params {
        catalogue[state.current_animation as int].playback_speed
    } else {
        manual_speed(keys, clips, i)
    }
}

/// The speed of a clip once the speed keys have acted.
pub open spec fn manual_speed(keys: KeyPresses, clips: Seq<ActiveClip>, i: int) -> i64 {
    if keys.key_a && keys.key_z {
        shifted(shifted(clips[0].speed, SPEED_STEP), (-SPEED_STEP) as i64)
    } else if keys.key_a {
        shifted(clips[0].speed, SPEED_STEP)
    } else if keys.key_z {
        shifted(clips[0].speed, (-SPEED_STEP) as i64)
    } else {
        clips[i].speed
    }
}

/// Whether `after` has the speed mode and the current clip of `before` and as
/// many clips, and clip `i` and the speed of the first clip are as they were.
pub open spec fn keeps_clip(before: Outcome, after: Outcome, i: int) -> bool {
    &&& after.state.use_params == before.state.use_params
    &&& after.state.current_animation == before.state.current_animation
    &&& after.clips.len() == before.clips.len()
    &&& after.clips[i] == before.clips[i]
    &&& after.clips[0].speed == before.clips[0].speed
}

/// What one frame does to each clip.
pub proof fn lemma_step_clip(
    keys: KeyPresses,
    state: ControllerState,
    catalogue: Seq<AnimationParamsView>,
    clips: Seq<ActiveClip>,
    i: int,
)
    requires
        0 <= i < clips.len(),
    ensures
        player_step(keys, state, catalogue, clips).clips.len() == clips.len(),
        player_step(keys, state, catalogue, clips).clips[i] == (ActiveClip {
            paused: paused_after(keys, clips, i),
            speed: speed_after(keys, state, catalogue, clips, i),
            elapsed: elapsed_after(keys, clips, i),
        }),
{
    let o0 = Outcome { state, clips, actions: Seq::empty() };
    let o1 = if keys.space {
        toggle_pause(o0)
    } else {
        o0
    };
    assert(o1.state == state && o1.clips.len() == clips.len() && o1.clips[0].speed
        == clips[0].speed && o1.clips[i] == (ActiveClip {
        paused: paused_after(keys, clips, i),
        speed: clips[i].speed,
        elapsed: clips[i].elapsed,
    })) by {
        reveal(toggle_pause);
    }
    let o2 = if keys.arrow_up {
        nudge_velocity(o1, VELOCITY_STEP)
    } else {
        o1
    };
    assert(keeps_clip(o1, o2, i)) by {
        reveal(nudge_velocity);
    }
    let o3 = if keys.arrow_down {
        nudge_velocity(o2, (-VELOCITY_STEP) as i64)
    } else {
        o2
    };
    assert(keeps_clip(o2, o3, i)) by {
        reveal(nudge_velocity);
    }
    let o4 = if keys.control_left {
        toggle_mode(o3)
    } else {
        o3
    };
    assert(o4.clips == o3.clips && o4.state.current_animation == state.current_animation
        && o4.state.use_params == (keys.control_left != state.use_params)) by {
        reveal(toggle_mode);
    }
    let o5 = govern_speed(keys, o4, catalogue);
    assert(o5.state == o4.state && o5.clips.len() == clips.len() && o5.clips[i] == (ActiveClip {
        paused: paused_after(keys, clips, i),
        speed: speed_after(keys, state, catalogue, clips, i),
        elapsed: clips[i].elapsed,
    })) by {
        lemma_governed_speed(keys, o4, catalogue, i);
    }
    let o6 = if keys.control_left {
        report_mode(o5)
    } else {
        o5
    };
    assert(keeps_clip(o5, o6, i)) by {
        reveal(report_mode);
    }
    let o7 = if keys.arrow_left {
        seek(o6, (-SEEK_STEP) as i64)
    } else {
        o6
    };
    let o8 = if keys.alt_right {
        seek(o7, SEEK_STEP)
    } else {
        o7
    };
    assert(o8.clips.len() == clips.len() && o8.clips[i] == (ActiveClip {
        paused: paused_after(keys, clips, i),
        speed: speed_after(keys, state, catalogue, clips, i),
        elapsed: elapsed_after(keys, clips, i),
    })) by {
        reveal(seek);
    }
    let o9 = if keys.enter {
        advance(o8, catalogue.len())
    } else {
        o8
    };
    assert(o9.clips.len() == o8.clips.len() && o9.clips[i] == o8.clips[i]) by {
        reveal(advance);
    }
    assert(o9 == player_step(keys, state, catalogue, clips));
}

/// What setting the speed for the frame does to each clip.
proof fn lemma_governed_speed(
    keys: KeyPresses,
    o: Outcome,
    catalogue: Seq<AnimationParamsView>,
    i: int,
)
    requires
        0 <= i < o.clips.len(),
    ensures
        govern_speed(keys, o, catalogue).state == o.state,
        govern_speed(keys, o, catalogue).clips.len() == o.clips.len(),
        govern_speed(keys, o, catalogue).clips[i] == (ActiveClip {
            paused: o.clips[i].paused,
            speed: if o.state.use_params {
                catalogue[o.state.current_animation as int].playback_speed
            } else {
                manual_speed(keys, o.clips, i)
            },
            elapsed: o.clips[i].elapsed,
        }),
{
    reveal(govern_speed);
    reveal(nudge_speed);
}

/// The current clip is always one of the catalogue: a frame leaves a valid
/// state valid.
pub proof fn law_current_clip_stays_valid(
    keys: KeyPresses,
    state: ControllerState,
    catalogue: Seq<AnimationParamsView>,
    clips: Seq<ActiveClip>,
)
    requires
        state.valid_for(catalogue.len()),
        catalogue.len() <= usize::MAX,
    ensures
        player_step(keys, state, catalogue, clips).state.valid_for(catalogue.len()),
{
    lemma_step_state(keys, state, catalogue, clips);
}

/// After as many frames with Enter pressed as the catalogue has clips, the
/// current clip is the one it was: the index has gone once round.
pub proof fn law_advance_wraps(
    presses: Seq<KeyPresses>,
    state: ControllerState,
    catalogue: Seq<AnimationParamsView>,
    clips: Seq<ActiveClip>,
)
    requires
        state.valid_for(catalogue.len()),
        catalogue.len() <= usize::MAX,
        presses.len() == catalogue.len(),
        forall|i: int| 0 <= i < presses.len() ==> (#[trigger] presses[i]).enter,
    ensures
        player_steps(presses, state, catalogue, clips).state.current_animation
            == state.current_animation,
{
    let len = catalogue.len() as int;
    let current = state.current_animation as int;
    lemma_advanced_by(presses, state, catalogue, clips);
    vstd::arithmetic::div_mod::lemma_mod_add_multiples_vanish(current, len);
    vstd::arithmetic::div_mod::lemma_small_mod(current as nat, len as nat);
}

/// Each frame with Enter pressed moves the current clip on by one, the first
/// clip following the last.
pub proof fn lemma_advanced_by(
    presses: Seq<KeyPresses>,
    state: ControllerState,
    catalogue: Seq<AnimationParamsView>,
    clips: Seq<ActiveClip>,
)
    requires
        state.valid_for(catalogue.len()),
        catalogue.len() <= usize::MAX,
        forall|i: int| 0 <= i < presses.len() ==> (#[trigger] presses[i]).enter,
    ensures
        player_steps(presses, state, catalogue, clips).state.current_animation == (
        state.current_animation + presses.len()) % (catalogue.len() as int),
    decreases presses.len(),
{
    let len = catalogue.len() as int;
    let current = state.current_animation as int;
    if presses.len() == 0 {
        vstd::arithmetic::div_mod::lemma_small_mod(current as nat, len as nat);
    } else {
        let earlier = presses.drop_last();
        assert forall|i: int| 0 <= i < earlier.len() implies (#[trigger] earlier[i]).enter by {
            assert(earlier[i] == presses[i]);
        }
        lemma_advanced_by(earlier, state, catalogue, clips);
        let before = player_steps(earlier, state, catalogue, clips);
        assert(presses.last() == presses[presses.len() - 1]);
        lemma_step_state(presses.last(), before.state, catalogue, before.clips);
        vstd::arithmetic::div_mod::lemma_add_mod_noop_right(1, current + earlier.len(), len);
    }
}

/// After two frames with Space pressed, playback is paused if and only if it
/// was paused before. Where the clips were all paused or all running, each
/// clip is again as it was.
pub proof fn law_pause_twice(
    first: KeyPresses,
    second: KeyPresses,
    state: ControllerState,
    catalogue: Seq<AnimationParamsView>,
    clips: Seq<ActiveClip>,
)
    requires
        first.space,
        second.space,
    ensures
        ({
            let one = player_step(first, state, catalogue, clips);
            let two = player_step(second, one.state, catalogue, one.clips);
            &&& two.clips.len() == clips.len()
            &&& all_paused(two.clips) == all_paused(clips)
            &&& (forall|i: int| 0 <= i < clips.len() ==> (#[trigger] clips[i]).paused
                == clips[0].paused) ==> forall|i: int|
                0 <= i < clips.len() ==> (#[trigger] two.clips[i]).paused == clips[i].paused
        }),
{
    let one = player_step(first, state, catalogue, clips);
    let two = player_step(second, one.state, catalogue, one.clips);
    lemma_step_state(first, state, catalogue, clips);
    lemma_step_state(second, one.state, catalogue, one.clips);
    assert forall|i: int| 0 <= i < clips.len() implies (#[trigger] one.clips[i]).paused
        == !all_paused(clips) by {
        lemma_step_clip(first, state, catalogue, clips, i);
    }
    assert forall|i: int| 0 <= i < clips.len() implies (#[trigger] two.clips[i]).paused
        == !all_paused(one.clips) by {
        lemma_step_clip(second, one.state, catalogue, one.clips, i);
    }
    if clips.len() > 0 {
        assert(one.clips[0].paused == !all_paused(clips));
        assert(two.clips[0].paused == !all_paused(one.clips));
        assert(all_paused(one.clips) == !all_paused(clips));
        assert(all_paused(two.clips) == all_paused(clips));
        if forall|i: int| 0 <= i < clips.len() ==> (#[trigger] clips[i]).paused == clips[0].paused {
            assert(all_paused(clips) == clips[0].paused);
        }
    }
}

/// The velocity moves by one step with each press: after `ups` frames with
/// arrow up pressed it has risen by as many steps, and after as many frames
/// with arrow down pressed it is what it was. This holds as long as an `i64`
/// can hold the risen velocity.
pub proof fn law_velocity_symmetric(
    ups: Seq<KeyPresses>,
    downs: Seq<KeyPresses>,
    state: ControllerState,
    catalogue: Seq<AnimationParamsView>,
    clips: Seq<ActiveClip>,
)
    requires
        ups.len() == downs.len(),
        forall|i: int| 0 <= i < ups.len() ==> (#[trigger] ups[i]).arrow_up && !ups[i].arrow_down,
        forall|i: int|
            0 <= i < downs.len() ==> (#[trigger] downs[i]).arrow_down && !downs[i].arrow_up,
        state.velocity + ups.len() * VELOCITY_STEP <= i64::MAX,
    ensures
        player_steps(ups, state, catalogue, clips).state.velocity == state.velocity + ups.len()
            * VELOCITY_STEP,
        player_steps(ups + downs, state, catalogue, clips).state.velocity == state.velocity,
{
    lemma_velocity_moved(ups, 1, state, catalogue, clips);
    let risen = player_steps(ups, state, catalogue, clips);
    lemma_velocity_moved(downs, -1, risen.state, catalogue, risen.clips);
    lemma_steps_in_two(ups, downs, state, catalogue, clips);
}

/// Frames that all press the arrow of one direction, and not the other, move
/// the velocity by one step each, as long as an `i64` can hold it.
pub proof fn lemma_velocity_moved(
    presses: Seq<KeyPresses>,
    direction: int,
    state: ControllerState,
    catalogue: Seq<AnimationParamsView>,
    clips: Seq<ActiveClip>,
)
    requires
        direction == 1 || direction == -1,
        forall|i: int|
            0 <= i < presses.len() ==> (#[trigger] presses[i]).arrow_up == (direction == 1)
                && presses[i].arrow_down == (direction == -1),
        i64::MIN <= state.velocity + direction * presses.len() * VELOCITY_STEP <= i64::MAX,
    ensures
        player_steps(presses, state, catalogue, clips).state.velocity == state.velocity + direction
            * presses.len() * VELOCITY_STEP,
    decreases presses.len(),
{
    if presses.len() > 0 {
        let earlier = presses.drop_last();
        assert forall|i: int| 0 <= i < earlier.len() implies (#[trigger] earlier[i]).arrow_up == (
        direction == 1) && earlier[i].arrow_down == (direction == -1) by {
            assert(earlier[i] == presses[i]);
        }
        let moved = direction * presses.len() * VELOCITY_STEP;
        let earlier_moved = direction * earlier.len() * VELOCITY_STEP;
        assert(moved == earlier_moved + direction * VELOCITY_STEP && (0 <= earlier_moved <= moved
            || moved <= earlier_moved <= 0)) by (nonlinear_arith)
            requires
                presses.len() == earlier.len() + 1,
                direction == 1 || direction == -1,
                VELOCITY_STEP == 100,
                moved == direction * presses.len() * VELOCITY_STEP,
                earlier_moved == direction * earlier.len() * VELOCITY_STEP,
        ;
        lemma_velocity_moved(earlier, direction, state, catalogue, clips);
        let before = player_steps(earlier, state, catalogue, clips);
        assert(presses.last() == presses[presses.len() - 1]);
        lemma_step_state(presses.last(), before.state, catalogue, before.clips);
    }
}

/// Two series of frames, one after the other, leave the player where the one
/// series made of both leaves it.
pub proof fn lemma_steps_in_two(
    first: Seq<KeyPresses>,
    second: Seq<KeyPresses>,
    state: ControllerState,
    catalogue: Seq<AnimationParamsView>,
    clips: Seq<ActiveClip>,
)
    ensures
        ({
            let half = player_steps(first, state, catalogue, clips);
            let whole = player_steps(first + second, state, catalogue, clips);
            &&& whole.state == player_steps(second, half.state, catalogue, half.clips).state
            &&& whole.clips == player_steps(second, half.state, catalogue, half.clips).clips
        }),
    decreases second.len(),
{
    if second.len() == 0 {
        assert(first + second == first);
    } else {
        assert((first + second).drop_last() == first + second.drop_last());
        assert((first + second).last() == second.last());
        lemma_steps_in_two(first, second.drop_last(), state, catalogue, clips);
    }
}

/// A frame that seeks backward and a frame that seeks forward, one after the
/// other, leave each clip at the time at which it was, unless the time was
/// within one step of the least that an `i64` can hold.
pub proof fn law_seek_round_trip(
    back: KeyPresses,
    forth: KeyPresses,
    state: ControllerState,
    catalogue: Seq<AnimationParamsView>,
    clips: Seq<ActiveClip>,
)
    requires
        back.arrow_left && !back.alt_right,
        forth.alt_right && !forth.arrow_left,
    ensures
        ({
            let one = player_step(back, state, catalogue, clips);
            let two = player_step(forth, one.state, catalogue, one.clips);
            &&& two.clips.len() == clips.len()
            &&& forall|i: int|
                0 <= i < clips.len() && clips[i].elapsed - SEEK_STEP >= i64::MIN ==> (
                #[trigger] two.clips[i]).elapsed == clips[i].elapsed
        }),
{
    let one = player_step(back, state, catalogue, clips);
    let two = player_step(forth, one.state, catalogue, one.clips);
    lemma_step_state(back, state, catalogue, clips);
    lemma_step_state(forth, one.state, catalogue, one.clips);
    assert forall|i: int|
        0 <= i < clips.len() && clips[i].elapsed - SEEK_STEP >= i64::MIN implies (
    #[trigger] two.clips[i]).elapsed == clips[i].elapsed by {
        lemma_step_clip(back, state, catalogue, clips, i);
        lemma_step_clip(forth, one.state, catalogue, one.clips, i);
    }
}

/// Switching to configured speed and back leaves the speed to the speed keys.
///
/// From manual speed, a frame with left control pressed gives every clip the
/// speed that the catalogue gives the current clip. A second such frame
/// returns to manual speed. In a frame after that, without left control, the
/// speed keys decide alone: `A` raises the speed of the first clip by a step,
/// `Z` lowers it by a step, and without them each clip keeps its speed. No
/// clip is given the catalogue's speed any more.
pub proof fn law_mode_round_trip(
    on: KeyPresses,
    off: KeyPresses,
    next: KeyPresses,
    state: ControllerState,
    catalogue: Seq<AnimationParamsView>,
    clips: Seq<ActiveClip>,
)
    requires
        !state.use_params,
        on.control_left,
        off.control_left,
        !next.control_left,
    ensures
        ({
            let one = player_step(on, state, catalogue, clips);
            let two = player_step(off, one.state, catalogue, one.clips);
            let three = player_step(next, two.state, catalogue, two.clips);
            &&& one.state.use_params
            &&& !two.state.use_params
            &&& !three.state.use_params
            &&& three.clips.len() == clips.len()
            &&& forall|i: int|
                0 <= i < clips.len() ==> (#[trigger] one.clips[i]).speed
                    == catalogue[state.current_animation as int].playback_speed
            &&& forall|i: int|
                0 <= i < clips.len() ==> (#[trigger] three.clips[i]).speed == manual_speed(
                    next,
                    two.clips,
                    i,
                )
        }),
{
    let one = player_step(on, state, catalogue, clips);
    let two = player_step(off, one.state, catalogue, one.clips);
    let three = player_step(next, two.state, catalogue, two.clips);
    lemma_step_state(on, state, catalogue, clips);
    lemma_step_state(off, one.state, catalogue, one.clips);
    lemma_step_state(next, two.state, catalogue, two.clips);
    assert forall|i: int| 0 <= i < clips.len() implies (#[trigger] one.clips[i]).speed
        == catalogue[state.current_animation as int].playback_speed by {
        lemma_step_clip(on, state, catalogue, clips, i);
    }
    assert forall|i: int| 0 <= i < clips.len() implies (#[trigger] three.clips[i]).speed
        == manual_speed(next, two.clips, i) by {
        lemma_step_clip(next, two.state, catalogue, two.clips, i);
    }
}

/// Whether the clips of `o` are `clips` with the actions of `o` carried out.
pub open spec fn replays(clips: Seq<ActiveClip>, o: Outcome) -> bool {
    o.clips == applied_all(clips, o.actions)
}

/// Carrying out one more action and noting it keeps the noted actions in step
/// with the clips.
proof fn lemma_perform_replays(clips: Seq<ActiveClip>, o: Outcome, action: Action)
    requires
        replays(clips, o),
    ensures
        replays(clips, o.perform(action)),
{
    let noted = o.actions.push(action);
    assert(noted.drop_last() == o.actions);
    assert(noted.last() == action);
}

/// A speed key keeps the noted actions in step with the clips.
proof fn lemma_nudge_speed_replays(clips: Seq<ActiveClip>, o: Outcome, delta: i64)
    requires
        replays(clips, o),
    ensures
        replays(clips, nudge_speed(o, delta)),
{
    reveal(nudge_speed);
    match first_speed(o.clips) {
        Some(speed) => {
            let set = Action::SetSpeed { speed: shifted(speed, delta) };
            lemma_perform_replays(clips, o, set);
            let nudged = o.perform(set);
            lemma_perform_replays(clips, nudged, nudged.report());
        },
        None => {
            lemma_perform_replays(clips, o, o.report());
        },
    }
}

/// The actions of a frame say all that the frame does to the player: carried
/// out in order on the clips as they were, they give the clips as they are.
pub proof fn law_actions_replay(
    keys: KeyPresses,
    state: ControllerState,
    catalogue: Seq<AnimationParamsView>,
    clips: Seq<ActiveClip>,
)
    ensures
        player_step(keys, state, catalogue, clips).clips == applied_all(
            clips,
            player_step(keys, state, catalogue, clips).actions,
        ),
{
    let o0 = Outcome { state, clips, actions: Seq::empty() };
    assert(replays(clips, o0));
    let o1 = if keys.space {
        toggle_pause(o0)
    } else {
        o0
    };
    assert(replays(clips, o1)) by {
        reveal(toggle_pause);
        lemma_perform_replays(clips, o0, Action::ResumeAll);
        lemma_perform_replays(clips, o0, Action::PauseAll);
    }
    let o2 = if keys.arrow_up {
        nudge_velocity(o1, VELOCITY_STEP)
    } else {
        o1
    };
    assert(replays(clips, o2)) by {
        lemma_nudge_velocity_replays(clips, o1, VELOCITY_STEP);
    }
    let o3 = if keys.arrow_down {
        nudge_velocity(o2, (-VELOCITY_STEP) as i64)
    } else {
        o2
    };
    assert(replays(clips, o3)) by {
        lemma_nudge_velocity_replays(clips, o2, (-VELOCITY_STEP) as i64);
    }
    let o4 = if keys.control_left {
        toggle_mode(o3)
    } else {
        o3
    };
    assert(replays(clips, o4)) by {
        reveal(toggle_mode);
    }
    let o5 = govern_speed(keys, o4, catalogue);
    assert(replays(clips, o5)) by {
        reveal(govern_speed);
        if o4.state.use_params {
            lemma_perform_replays(
                clips,
                o4,
                Action::SetSpeed {
                    speed: catalogue[o4.state.current_animation as int].playback_speed,
                },
            );
        } else {
            let raised = if keys.key_a {
                nudge_speed(o4, SPEED_STEP)
            } else {
                o4
            };
            lemma_nudge_speed_replays(clips, o4, SPEED_STEP);
            lemma_nudge_speed_replays(clips, raised, (-SPEED_STEP) as i64);
        }
    }
    let o6 = if keys.control_left {
        report_mode(o5)
    } else {
        o5
    };
    assert(replays(clips, o6)) by {
        reveal(report_mode);
        lemma_perform_replays(
            clips,
            o5,
            Action::ReportMode {
                use_params: o5.state.use_params,
                playback_speed: first_speed(o5.clips),
                velocity: o5.state.velocity,
            },
        );
    }
    let o7 = if keys.arrow_left {
        seek(o6, (-SEEK_STEP) as i64)
    } else {
        o6
    };
    assert(replays(clips, o7)) by {
        reveal(seek);
        lemma_perform_replays(clips, o6, Action::Seek { delta: (-SEEK_STEP) as i64 });
    }
    let o8 = if keys.alt_right {
        seek(o7, SEEK_STEP)
    } else {
        o7
    };
    assert(replays(clips, o8)) by {
        reveal(seek);
        lemma_perform_replays(clips, o7, Action::Seek { delta: SEEK_STEP });
    }
    let o9 = if keys.enter {
        advance(o8, catalogue.len())
    } else {
        o8
    };
    assert(replays(clips, o9)) by {
        reveal(advance);
        let next = next_index(o8.state.current_animation, catalogue.len());
        let moved = o8.with_state(
            ControllerState {
                current_animation: next,
                velocity: o8.state.velocity,
                use_params: o8.state.use_params,
                lines_along_y: o8.state.lines_along_y,
            },
        );
        lemma_perform_replays(
            clips,
            moved,
            Action::Transition { clip: next, blend_ms: BLEND_MS, repeat: true },
        );
    }
    assert(o9 == player_step(keys, state, catalogue, clips));
}

/// An arrow key keeps the noted actions in step with the clips.
proof fn lemma_nudge_velocity_replays(clips: Seq<ActiveClip>, o: Outcome, delta: i64)
    requires
        replays(clips, o),
    ensures
        replays(clips, nudge_velocity(o, delta)),
{
    reveal(nudge_velocity);
    let moved = o.with_state(
        ControllerState {
            current_animation: o.state.current_animation,
            velocity: shifted(o.state.velocity, delta),
            use_params: o.state.use_params,
            lines_along_y: o.state.lines_along_y,
        },
    );
    lemma_perform_replays(clips, moved, moved.report());
}

/// With one player, a frame is that player's turn, taken once the lines are
/// turned.
pub proof fn law_single_player_frame(
    keys: KeyPresses,
    state: ControllerState,
    catalogue: Seq<AnimationParamsView>,
    clips: Seq<ActiveClip>,
)
    ensures
        ({
            let whole = frame(keys, state, catalogue, seq![clips]);
            let turn = player_step(keys, turn_lines(keys, state), catalogue, clips);
            &&& whole.state == turn.state
            &&& whole.players == seq![turn.clips]
            &&& whole.actions == seq![turn.actions]
        }),
{
    lemma_step_state(keys, turn_lines(keys, state), catalogue, clips);
}

/// One press is one step, however many players there are. In a frame with at
/// least one player the state is the one that a single player's turn leaves,
/// and each player has taken the turn that it would take alone.
pub proof fn law_one_press_one_step(
    keys: KeyPresses,
    state: ControllerState,
    catalogue: Seq<AnimationParamsView>,
    players: Seq<Seq<ActiveClip>>,
    i: int,
)
    requires
        0 <= i < players.len(),
    ensures
        ({
            let whole = frame(keys, state, catalogue, players);
            let turn = player_step(keys, turn_lines(keys, state), catalogue, players[i]);
            &&& whole.state == turn.state
            &&& whole.players.len() == players.len()
            &&& whole.actions.len() == players.len()
            &&& whole.players[i] == turn.clips
            &&& whole.actions[i] == turn.actions
        }),
{
    lemma_step_state(keys, turn_lines(keys, state), catalogue, players[i]);
}

/// In a frame with Enter pressed every player is sent to the same clip, the
/// one that follows the current clip, and that clip is the current one
/// afterwards. The blend is the last thing asked for each player.
pub proof fn law_enter_sends_every_player_to_the_next_clip(
    keys: KeyPresses,
    state: ControllerState,
    catalogue: Seq<AnimationParamsView>,
    players: Seq<Seq<ActiveClip>>,
    i: int,
)
    requires
        keys.enter,
        0 <= i < players.len(),
    ensures
        ({
            let whole = frame(keys, state, catalogue, players);
            let next = next_index(state.current_animation, catalogue.len());
            &&& whole.state.current_animation == next
            &&& whole.actions[i].len() > 0
            &&& whole.actions[i].last() == (Action::Transition {
                clip: next,
                blend_ms: BLEND_MS,
                repeat: true,
            })
        }),
{
    reveal(toggle_pause);
    reveal(nudge_velocity);
    reveal(toggle_mode);
    reveal(govern_speed);
    reveal(nudge_speed);
    reveal(report_mode);
    reveal(seek);
    reveal(advance);
}

/// Where the players stand after one frame for each entry of `presses`, in
/// order. The actions are those of the last frame.
pub open spec fn frames(
    presses: Seq<KeyPresses>,
    state: ControllerState,
    catalogue: Seq<AnimationParamsView>,
    players: Seq<Seq<ActiveClip>>,
) -> FrameOutcome
    decreases presses.len(),
{
    if presses.len() == 0 {
        FrameOutcome { state, players, actions: Seq::empty() }
    } else {
        let before = frames(presses.drop_last(), state, catalogue, players);
        frame(presses.last(), before.state, catalogue, before.players)
    }
}

/// After as many frames with Enter pressed as the catalogue has clips, the
/// current clip is the one it was, however many players there are: the index
/// has gone once round, or has not moved where there is no player.
pub proof fn law_advance_wraps_for_all_players(
    presses: Seq<KeyPresses>,
    state: ControllerState,
    catalogue: Seq<AnimationParamsView>,
    players: Seq<Seq<ActiveClip>>,
)
    requires
        state.valid_for(catalogue.len()),
        catalogue.len() <= usize::MAX,
        presses.len() == catalogue.len(),
        forall|i: int| 0 <= i < presses.len() ==> (#[trigger] presses[i]).enter,
    ensures
        frames(presses, state, catalogue, players).state.current_animation
            == state.current_animation,
{
    let len = catalogue.len() as int;
    let current = state.current_animation as int;
    lemma_frames_advanced_by(presses, state, catalogue, players);
    vstd::arithmetic::div_mod::lemma_mod_add_multiples_vanish(current, len);
    vstd::arithmetic::div_mod::lemma_small_mod(current as nat, len as nat);
}

/// Each frame with Enter pressed moves the current clip on by one, however
/// many players there are, unless there is none. The players stay as many.
pub proof fn lemma_frames_advanced_by(
    presses: Seq<KeyPresses>,
    state: ControllerState,
    catalogue: Seq<AnimationParamsView>,
    players: Seq<Seq<ActiveClip>>,
)
    requires
        state.valid_for(catalogue.len()),
        catalogue.len() <= usize::MAX,
        forall|i: int| 0 <= i < presses.len() ==> (#[trigger] presses[i]).enter,
    ensures
        frames(presses, state, catalogue, players).players.len() == players.len(),
        frames(presses, state, catalogue, players).state.current_animation == if players.len()
            == 0 {
            state.current_animation as int
        } else {
            (state.current_animation + presses.len()) % (catalogue.len() as int)
        },
    decreases presses.len(),
{
    let len = catalogue.len() as int;
    let current = state.current_animation as int;
    if presses.len() == 0 {
        vstd::arithmetic::div_mod::lemma_small_mod(current as nat, len as nat);
    } else {
        let earlier = presses.drop_last();
        assert forall|i: int| 0 <= i < earlier.len() implies (#[trigger] earlier[i]).enter by {
            assert(earlier[i] == presses[i]);
        }
        lemma_frames_advanced_by(earlier, state, catalogue, players);
        assert(presses.last() == presses[presses.len() - 1]);
        vstd::arithmetic::div_mod::lemma_add_mod_noop_right(1, current + earlier.len(), len);
    }
}

/// Whether two turns stand alike: the same clips, the same actions, and the
/// same state but for the direction of the overlay's lines.
pub open spec fn alike(a: Outcome, b: Outcome) -> bool {
    &&& a.clips == b.clips
    &&& a.actions == b.actions
    &&& same_but_for_lines(a.state, b.state)
}

/// Whether two states are the same but for the direction of the overlay's
/// lines.
pub open spec fn same_but_for_lines(a: ControllerState, b: ControllerState) -> bool {
    &&& a.current_animation == b.current_animation
    &&& a.velocity == b.velocity
    &&& a.use_params == b.use_params
}

/// The direction of the overlay's lines plays no part in a player's turn.
pub proof fn lemma_turn_ignores_lines(
    keys: KeyPresses,
    a: ControllerState,
    b: ControllerState,
    catalogue: Seq<AnimationParamsView>,
    clips: Seq<ActiveClip>,
)
    requires
        same_but_for_lines(a, b),
    ensures
        alike(player_step(keys, a, catalogue, clips), player_step(keys, b, catalogue, clips)),
{
    let a0 = Outcome { state: a, clips, actions: Seq::empty() };
    let b0 = Outcome { state: b, clips, actions: Seq::empty() };
    let a1 = if keys.space {
        toggle_pause(a0)
    } else {
        a0
    };
    let b1 = if keys.space {
        toggle_pause(b0)
    } else {
        b0
    };
    assert(alike(a1, b1)) by {
        reveal(toggle_pause);
    }
    let a2 = if keys.arrow_up {
        nudge_velocity(a1, VELOCITY_STEP)
    } else {
        a1
    };
    let b2 = if keys.arrow_up {
        nudge_velocity(b1, VELOCITY_STEP)
    } else {
        b1
    };
    assert(alike(a2, b2)) by {
        reveal(nudge_velocity);
    }
    let a3 = if keys.arrow_down {
        nudge_velocity(a2, (-VELOCITY_STEP) as i64)
    } else {
        a2
    };
    let b3 = if keys.arrow_down {
        nudge_velocity(b2, (-VELOCITY_STEP) as i64)
    } else {
        b2
    };
    assert(alike(a3, b3)) by {
        reveal(nudge_velocity);
    }
    let a4 = if keys.control_left {
        toggle_mode(a3)
    } else {
        a3
    };
    let b4 = if keys.control_left {
        toggle_mode(b3)
    } else {
        b3
    };
    assert(alike(a4, b4)) by {
        reveal(toggle_mode);
    }
    let a5 = govern_speed(keys, a4, catalogue);
    let b5 = govern_speed(keys, b4, catalogue);
    assert(alike(a5, b5)) by {
        reveal(govern_speed);
        let raised_a = if keys.key_a {
            nudge_speed(a4, SPEED_STEP)
        } else {
            a4
        };
        let raised_b = if keys.key_a {
            nudge_speed(b4, SPEED_STEP)
        } else {
            b4
        };
        assert(alike(raised_a, raised_b)) by {
            reveal(nudge_speed);
        }
        assert(alike(
            nudge_speed(raised_a, (-SPEED_STEP) as i64),
            nudge_speed(raised_b, (-SPEED_STEP) as i64),
        )) by {
            reveal(nudge_speed);
        }
    }
    let a6 = if keys.control_left {
        report_mode(a5)
    } else {
        a5
    };
    let b6 = if keys.control_left {
        report_mode(b5)
    } else {
        b5
    };
    assert(alike(a6, b6)) by {
        reveal(report_mode);
    }
    let a7 = if keys.arrow_left {
        seek(a6, (-SEEK_STEP) as i64)
    } else {
        a6
    };
    let b7 = if keys.arrow_left {
        seek(b6, (-SEEK_STEP) as i64)
    } else {
        b6
    };
    assert(alike(a7, b7)) by {
        reveal(seek);
    }
    let a8 = if keys.alt_right {
        seek(a7, SEEK_STEP)
    } else {
        a7
    };
    let b8 = if keys.alt_right {
        seek(b7, SEEK_STEP)
    } else {
        b7
    };
    assert(alike(a8, b8)) by {
        reveal(seek);
    }
    let a9 = if keys.enter {
        advance(a8, catalogue.len())
    } else {
        a8
    };
    let b9 = if keys.enter {
        advance(b8, catalogue.len())
    } else {
        b8
    };
    assert(alike(a9, b9)) by {
        reveal(advance);
    }
    assert(a9 == player_step(keys, a, catalogue, clips));
    assert(b9 == player_step(keys, b, catalogue, clips));
}

/// Over any number of frames, each player of several takes the turns that it
/// would take alone, and the state moves as it would with that player alone.
/// So what the laws above say of one player's turns holds of every player.
pub proof fn law_every_player_takes_its_own_turns(
    presses: Seq<KeyPresses>,
    state: ControllerState,
    catalogue: Seq<AnimationParamsView>,
    players: Seq<Seq<ActiveClip>>,
    i: int,
)
    requires
        0 <= i < players.len(),
    ensures
        ({
            let whole = frames(presses, state, catalogue, players);
            let own = player_steps(presses, state, catalogue, players[i]);
            &&& whole.players.len() == players.len()
            &&& whole.players[i] == own.clips
            &&& same_but_for_lines(whole.state, own.state)
            &&& presses.len() > 0 ==> whole.actions.len() == players.len() && whole.actions[i]
                == own.actions
        }),
    decreases presses.len(),
{
    if presses.len() > 0 {
        let earlier = presses.drop_last();
        law_every_player_takes_its_own_turns(earlier, state, catalogue, players, i);
        let before = frames(earlier, state, catalogue, players);
        let own_before = player_steps(earlier, state, catalogue, players[i]);
        let start = turn_lines(presses.last(), before.state);
        lemma_step_state(presses.last(), start, catalogue, before.players[i]);
        lemma_turn_ignores_lines(
            presses.last(),
            start,
            own_before.state,
            catalogue,
            own_before.clips,
        );
    }
}

} // verus!
