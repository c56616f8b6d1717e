use cave_story::input::{Input, KeyState};

const LEFT: i32 = 1073741904;
const JUMP: i32 = 122;

#[test]
fn a_fresh_key_state_is_idle() {
    assert_eq!(KeyState::new(), KeyState { held: false, pressed: false, released: false });
}

#[test]
fn unseen_keys_read_false() {
    let input = Input::new();
    assert!(!input.key_held(LEFT));
    assert!(!input.key_pressed(LEFT));
    assert!(!input.key_released(LEFT));
}

#[test]
fn key_down_presses_and_holds() {
    let mut input = Input::new();
    input.on_key_down(LEFT);
    assert!(input.key_held(LEFT));
    assert!(input.key_pressed(LEFT));
    assert!(!input.key_released(LEFT));
    assert!(!input.key_held(JUMP));
    assert!(!input.key_pressed(JUMP));
}

#[test]
fn repeated_key_down_does_not_press_again() {
    let mut input = Input::new();
    input.on_key_down(LEFT);
    input.begin_new_frame();
    assert!(input.key_held(LEFT));
    assert!(!input.key_pressed(LEFT));
    input.on_key_down(LEFT);
    assert!(input.key_held(LEFT));
    assert!(!input.key_pressed(LEFT));
    assert!(!input.key_released(LEFT));
}

#[test]
fn key_up_releases_whatever_came_before() {
    let mut input = Input::new();
    input.on_key_up(JUMP);
    assert!(!input.key_held(JUMP));
    assert!(input.key_released(JUMP));
    assert!(!input.key_pressed(JUMP));

    input.on_key_down(LEFT);
    input.on_key_up(LEFT);
    assert!(!input.key_held(LEFT));
    assert!(input.key_pressed(LEFT));
    assert!(input.key_released(LEFT));
}

#[test]
fn key_down_keeps_a_release_of_the_same_frame() {
    let mut input = Input::new();
    input.on_key_down(LEFT);
    input.begin_new_frame();
    input.on_key_up(LEFT);
    input.on_key_down(LEFT);
    assert!(input.key_held(LEFT));
    assert!(input.key_pressed(LEFT));
    assert!(input.key_released(LEFT));
}

#[test]
fn begin_new_frame_clears_edges_and_keeps_levels() {
    let mut input = Input::new();
    input.on_key_down(LEFT);
    input.on_key_down(JUMP);
    input.on_key_up(JUMP);
    input.begin_new_frame();
    assert!(input.key_held(LEFT));
    assert!(!input.key_pressed(LEFT));
    assert!(!input.key_released(LEFT));
    assert!(!input.key_held(JUMP));
    assert!(!input.key_pressed(JUMP));
    assert!(!input.key_released(JUMP));
}

#[test]
fn held_follows_the_last_event_of_each_key() {
    let mut input = Input::new();
    let script: [(bool, i32); 9] = [
        (true, 1),
        (true, 2),
        (false, 1),
        (true, 3),
        (true, 1),
        (false, 3),
        (false, 3),
        (true, 2),
        (false, 4),
    ];
    for (down, key) in script {
        if down {
            input.on_key_down(key);
        } else {
            input.on_key_up(key);
        }
    }
    assert!(input.key_held(1));
    assert!(input.key_held(2));
    assert!(!input.key_held(3));
    assert!(!input.key_held(4));
    assert!(!input.key_held(5));
}
