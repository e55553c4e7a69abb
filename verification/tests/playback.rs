use animation_control::units::{
    shift, BLEND_MS, NORMAL_SPEED, SEEK_STEP, SPEED_STEP, VELOCITY_STEP,
};
use animation_control::{Action, ActiveClip, PlayerState};

fn clip(paused: bool, speed: i64, elapsed: i64) -> ActiveClip {
    ActiveClip { paused, speed, elapsed }
}

fn player(clips: Vec<ActiveClip>) -> PlayerState {
    PlayerState { clips }
}

#[test]
fn steps_are_a_tenth_and_the_blend_a_quarter_second() {
    assert_eq!(NORMAL_SPEED, 1000);
    assert_eq!(SPEED_STEP, 100);
    assert_eq!(VELOCITY_STEP, 100);
    assert_eq!(SEEK_STEP, 100);
    assert_eq!(BLEND_MS, 250);
}

#[test]
fn shift_adds() {
    assert_eq!(shift(0, 100), 100);
    assert_eq!(shift(1000, -100), 900);
    assert_eq!(shift(-50, -100), -150);
    assert_eq!(shift(50, -100), -50);
    assert_eq!(shift(7, 0), 7);
}

#[test]
fn shift_reaches_the_bounds_exactly() {
    assert_eq!(shift(i64::MAX - 100, 100), i64::MAX);
    assert_eq!(shift(i64::MIN + 100, -100), i64::MIN);
}

#[test]
fn shift_stays_at_the_bounds() {
    assert_eq!(shift(i64::MAX, 100), i64::MAX);
    assert_eq!(shift(i64::MAX - 99, 100), i64::MAX);
    assert_eq!(shift(i64::MIN, -100), i64::MIN);
    assert_eq!(shift(i64::MIN + 99, -100), i64::MIN);
    assert_eq!(shift(i64::MIN, i64::MIN), i64::MIN);
    assert_eq!(shift(i64::MAX, i64::MAX), i64::MAX);
    assert_eq!(shift(i64::MIN, i64::MAX), -1);
}

#[test]
fn clip_after_pause_and_resume() {
    let running = clip(false, 1000, 40);
    assert_eq!(running.after(Action::PauseAll), clip(true, 1000, 40));
    assert_eq!(running.after(Action::ResumeAll), clip(false, 1000, 40));
    let paused = clip(true, -300, 40);
    assert_eq!(paused.after(Action::PauseAll), clip(true, -300, 40));
    assert_eq!(paused.after(Action::ResumeAll), clip(false, -300, 40));
}

#[test]
fn clip_after_set_speed_and_seek() {
    let c = clip(true, 1000, 40);
    assert_eq!(c.after(Action::SetSpeed { speed: -200 }), clip(true, -200, 40));
    assert_eq!(c.after(Action::Seek { delta: -100 }), clip(true, 1000, -60));
    assert_eq!(c.after(Action::Seek { delta: 100 }), clip(true, 1000, 140));
    assert_eq!(
        clip(false, 1, i64::MIN + 5).after(Action::Seek { delta: -100 }),
        clip(false, 1, i64::MIN)
    );
}

#[test]
fn clip_is_untouched_by_transition_and_reports() {
    let c = clip(false, 1100, 250);
    assert_eq!(c.after(Action::Transition { clip: 3, blend_ms: 250, repeat: true }), c);
    assert_eq!(c.after(Action::Report { playback_speed: Some(5), velocity: 7 }), c);
    assert_eq!(
        c.after(Action::ReportMode { use_params: true, playback_speed: None, velocity: 7 }),
        c
    );
}

#[test]
fn all_paused_needs_every_clip_paused() {
    assert!(player(vec![clip(true, 1, 0), clip(true, 2, 0)]).all_paused());
    assert!(!player(vec![clip(true, 1, 0), clip(false, 2, 0)]).all_paused());
    assert!(!player(vec![clip(false, 1, 0), clip(true, 2, 0)]).all_paused());
    assert!(!player(vec![clip(false, 1, 0)]).all_paused());
}

#[test]
fn a_player_that_plays_nothing_counts_as_paused() {
    assert!(player(vec![]).all_paused());
}

#[test]
fn speed_is_that_of_the_first_clip() {
    assert_eq!(player(vec![clip(false, 700, 0), clip(false, 900, 0)]).speed(), Some(700));
    assert_eq!(player(vec![]).speed(), None);
}

#[test]
fn apply_changes_every_clip() {
    let mut p = player(vec![clip(false, 1000, 10), clip(true, 500, 20), clip(false, -100, 30)]);
    p.apply(Action::PauseAll);
    assert_eq!(p.clips, vec![clip(true, 1000, 10), clip(true, 500, 20), clip(true, -100, 30)]);
    p.apply(Action::ResumeAll);
    assert_eq!(p.clips, vec![clip(false, 1000, 10), clip(false, 500, 20), clip(false, -100, 30)]);
    p.apply(Action::SetSpeed { speed: 1200 });
    assert_eq!(p.clips, vec![clip(false, 1200, 10), clip(false, 1200, 20), clip(false, 1200, 30)]);
    p.apply(Action::Seek { delta: -100 });
    assert_eq!(
        p.clips,
        vec![clip(false, 1200, -90), clip(false, 1200, -80), clip(false, 1200, -70)]
    );
}

#[test]
fn apply_leaves_the_model_alone_for_transition_and_reports() {
    let before = player(vec![clip(false, 1000, 10), clip(true, 500, 20)]);
    let mut p = before.clone();
    p.apply(Action::Transition { clip: 1, blend_ms: 250, repeat: true });
    assert_eq!(p, before);
    p.apply(Action::Report { playback_speed: Some(1000), velocity: 0 });
    assert_eq!(p, before);
    p.apply(Action::ReportMode { use_params: false, playback_speed: Some(1000), velocity: 0 });
    assert_eq!(p, before);
}

#[test]
fn apply_on_no_clips_does_nothing() {
    let mut p = player(vec![]);
    p.apply(Action::PauseAll);
    p.apply(Action::SetSpeed { speed: 5 });
    p.apply(Action::Seek { delta: 100 });
    assert!(p.clips.is_empty());
}

#[test]
fn clone_copies_the_clips() {
    let p = player(vec![clip(false, 1000, 10), clip(true, 500, 20)]);
    let copy = p.clone();
    assert_eq!(copy, p);
    assert_eq!(copy.clips, vec![clip(false, 1000, 10), clip(true, 500, 20)]);
}
