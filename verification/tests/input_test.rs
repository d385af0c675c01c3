use rusty_runner::input::{GameInputMessage, KeySnapshot};

fn no_keys() -> KeySnapshot {
    KeySnapshot {
        a_held: false,
        d_held: false,
        w_held: false,
        space_held: false,
        arrow_left_held: false,
        arrow_right_held: false,
        arrow_up_held: false,
        w_just: false,
        space_just: false,
        arrow_up_just: false,
        shift_left_just: false,
        shift_right_just: false,
        escape_just: false,
    }
}

#[test]
fn keyboard_input_produces_game_input_messages() {
    let keys = KeySnapshot { d_held: true, ..no_keys() };
    let msg = GameInputMessage::from_keys(&keys);
    assert!(msg.move_right, "Expected move_right to be true");
}

#[test]
fn held_d_moves_right() {
    let keys = KeySnapshot { d_held: true, ..no_keys() };
    let msg = GameInputMessage::from_keys(&keys);
    assert!(msg.move_right);
    assert!(!msg.move_left && !msg.jump_pressed && !msg.jump_held && !msg.dash && !msg.pause);
}

#[test]
fn arrows_and_letters_are_equivalent() {
    let letters = KeySnapshot { a_held: true, w_held: true, w_just: true, ..no_keys() };
    let arrows = KeySnapshot { arrow_left_held: true, arrow_up_held: true, arrow_up_just: true, ..no_keys() };
    assert_eq!(GameInputMessage::from_keys(&letters), GameInputMessage::from_keys(&arrows));
    let msg = GameInputMessage::from_keys(&letters);
    assert!(msg.move_left && msg.jump_pressed && msg.jump_held);
}

#[test]
fn held_space_without_press_only_holds_jump() {
    let keys = KeySnapshot { space_held: true, ..no_keys() };
    let msg = GameInputMessage::from_keys(&keys);
    assert!(msg.jump_held && !msg.jump_pressed);
}

#[test]
fn shift_dashes_and_escape_pauses() {
    let keys = KeySnapshot { shift_right_just: true, escape_just: true, ..no_keys() };
    let msg = GameInputMessage::from_keys(&keys);
    assert!(msg.dash && msg.pause);
    let msg = GameInputMessage::from_keys(&no_keys());
    assert!(!msg.dash && !msg.pause);
}
