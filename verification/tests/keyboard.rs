use animation_control::{
    keyboard_animation_control, Action, ActiveClip, AnimationsMetadata, ControllerState,
    KeyPresses, PlayerState,
};
use bevy::input::keyboard::KeyCode;
use bevy::input::ButtonInput;

fn pressing(codes: &[KeyCode]) -> ButtonInput<KeyCode> {
    let mut input = ButtonInput::<KeyCode>::default();
    for code in codes {
        input.press(*code);
    }
    input
}

fn one_running() -> PlayerState {
    PlayerState { clips: vec![ActiveClip { paused: false, speed: 1000, elapsed: 500 }] }
}

#[test]
fn read_of_an_idle_keyboard_is_no_key() {
    let input = ButtonInput::<KeyCode>::default();
    assert_eq!(KeyPresses::read(&input), KeyPresses::none());
}

#[test]
fn read_sees_each_key_in_its_own_field() {
    let none = KeyPresses::none();
    assert_eq!(
        KeyPresses::read(&pressing(&[KeyCode::Backspace])),
        KeyPresses { backspace: true, ..none }
    );
    assert_eq!(KeyPresses::read(&pressing(&[KeyCode::Space])), KeyPresses { space: true, ..none });
    assert_eq!(
        KeyPresses::read(&pressing(&[KeyCode::ArrowUp])),
        KeyPresses { arrow_up: true, ..none }
    );
    assert_eq!(
        KeyPresses::read(&pressing(&[KeyCode::ArrowDown])),
        KeyPresses { arrow_down: true, ..none }
    );
    assert_eq!(
        KeyPresses::read(&pressing(&[KeyCode::ControlLeft])),
        KeyPresses { control_left: true, ..none }
    );
    assert_eq!(KeyPresses::read(&pressing(&[KeyCode::KeyA])), KeyPresses { key_a: true, ..none });
    assert_eq!(KeyPresses::read(&pressing(&[KeyCode::KeyZ])), KeyPresses { key_z: true, ..none });
    assert_eq!(
        KeyPresses::read(&pressing(&[KeyCode::ArrowLeft])),
        KeyPresses { arrow_left: true, ..none }
    );
    assert_eq!(
        KeyPresses::read(&pressing(&[KeyCode::AltRight])),
        KeyPresses { alt_right: true, ..none }
    );
    assert_eq!(KeyPresses::read(&pressing(&[KeyCode::Enter])), KeyPresses { enter: true, ..none });
}

#[test]
fn read_sees_several_keys_at_once() {
    let input = pressing(&[KeyCode::Enter, KeyCode::Space, KeyCode::KeyZ]);
    assert_eq!(
        KeyPresses::read(&input),
        KeyPresses { enter: true, space: true, key_z: true, ..KeyPresses::none() }
    );
}

#[test]
fn read_ignores_keys_that_the_controller_does_not_listen_to() {
    let input = pressing(&[
        KeyCode::ArrowRight,
        KeyCode::AltLeft,
        KeyCode::ControlRight,
        KeyCode::NumpadEnter,
        KeyCode::KeyB,
        KeyCode::Escape,
    ]);
    assert_eq!(KeyPresses::read(&input), KeyPresses::none());
}

#[test]
fn read_does_not_see_a_key_that_is_merely_held() {
    let mut input = pressing(&[KeyCode::Space, KeyCode::ArrowUp]);
    assert!(KeyPresses::read(&input).space);
    input.clear();
    assert!(input.pressed(KeyCode::Space));
    assert_eq!(KeyPresses::read(&input), KeyPresses::none());
    input.press(KeyCode::Space);
    assert_eq!(KeyPresses::read(&input), KeyPresses::none());
}

#[test]
fn read_sees_a_key_that_was_released_and_pressed_again() {
    let mut input = pressing(&[KeyCode::Enter]);
    input.clear();
    input.release(KeyCode::Enter);
    input.clear();
    input.press(KeyCode::Enter);
    assert_eq!(KeyPresses::read(&input), KeyPresses { enter: true, ..KeyPresses::none() });
}

#[test]
fn frame_reads_the_keyboard_and_acts_on_every_player() {
    let catalogue = AnimationsMetadata::new();
    let mut state = ControllerState::new();
    let mut players = vec![one_running(), PlayerState { clips: vec![] }];
    let input = pressing(&[KeyCode::Space, KeyCode::Backspace, KeyCode::ArrowLeft]);
    let actions = keyboard_animation_control(&input, &mut state, &catalogue, &mut players);
    assert_eq!(
        actions,
        vec![
            vec![Action::PauseAll, Action::Seek { delta: -100 }],
            vec![Action::ResumeAll, Action::Seek { delta: -100 }],
        ]
    );
    assert!(state.lines_along_y);
    assert_eq!(
        players[0],
        PlayerState { clips: vec![ActiveClip { paused: true, speed: 1000, elapsed: 400 }] }
    );
}

#[test]
fn frame_with_an_idle_keyboard_does_nothing() {
    let catalogue = AnimationsMetadata::new();
    let mut state = ControllerState::new();
    let mut players = vec![one_running()];
    let input = ButtonInput::<KeyCode>::default();
    let actions = keyboard_animation_control(&input, &mut state, &catalogue, &mut players);
    assert_eq!(actions, vec![vec![]]);
    assert_eq!(state, ControllerState::new());
    assert_eq!(players, vec![one_running()]);
}

#[test]
fn a_held_enter_key_advances_once() {
    let catalogue = AnimationsMetadata::new();
    let mut state = ControllerState::new();
    let mut players = vec![one_running()];
    let mut input = pressing(&[KeyCode::Enter]);
    let first = keyboard_animation_control(&input, &mut state, &catalogue, &mut players);
    assert_eq!(first, vec![vec![Action::Transition { clip: 1, blend_ms: 250, repeat: true }]]);
    input.clear();
    let second = keyboard_animation_control(&input, &mut state, &catalogue, &mut players);
    assert_eq!(second, vec![vec![]]);
    assert_eq!(state.current_animation, 1);
}

#[test]
fn eighteen_presses_of_enter_go_once_round_the_catalogue() {
    let catalogue = AnimationsMetadata::new();
    let mut state = ControllerState::new();
    let mut players = vec![one_running()];
    let mut input = ButtonInput::<KeyCode>::default();
    let mut names: Vec<String> = Vec::new();
    for _ in 0..18 {
        input.press(KeyCode::Enter);
        let actions = keyboard_animation_control(&input, &mut state, &catalogue, &mut players);
        for action in &actions[0] {
            if let Action::Transition { clip, .. } = action {
                names.push(catalogue.0[*clip].name.clone());
            }
        }
        input.release(KeyCode::Enter);
        input.clear();
    }
    assert_eq!(state.current_animation, 0);
    assert_eq!(
        names,
        vec![
            "ClimbDown",
            "CrouchWalk",
            "FallOpen",
            "FallDiagonal",
            "FallHeadDown",
            "RunSprint",
            "WallHang",
            "IdleStand",
            "DashPose",
            "RunFast",
            "RunJog",
            "Walk",
            "WalkStride",
            "JumpAscent",
            "LadderHandsWide",
            "LadderHandsMedium",
            "WallSlide",
            "TPose",
        ]
    );
}

#[test]
fn one_press_is_one_step_for_two_players() {
    let catalogue = AnimationsMetadata::new();
    let mut state = ControllerState { current_animation: 17, ..ControllerState::new() };
    let mut players = vec![one_running(), one_running()];
    let input = pressing(&[KeyCode::Enter, KeyCode::ArrowUp]);
    let actions = keyboard_animation_control(&input, &mut state, &catalogue, &mut players);
    assert_eq!(state.current_animation, 0);
    assert_eq!(state.velocity, 100);
    assert!(!state.use_params);
    let turn = vec![
        Action::Report { playback_speed: Some(1000), velocity: 100 },
        Action::Transition { clip: 0, blend_ms: 250, repeat: true },
    ];
    assert_eq!(actions, vec![turn.clone(), turn]);
    assert_eq!(catalogue.0[0].name, "TPose");
}
