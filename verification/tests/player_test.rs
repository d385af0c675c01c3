use rusty_runner::input::{GameInputMessage, KeySnapshot};
use rusty_runner::player::{
    movement_intent, resolve_player_hit, tick_invincibility, velocity_command, DashCooldown,
    HitOutcome, InvincibilityTimer, MovementIntent, PowerUpState, VelocityCommand,
};
use rusty_runner::state::{GameData, LifeLoss};

fn msg(left: bool, right: bool, jump: bool) -> GameInputMessage {
    GameInputMessage {
        move_left: left,
        move_right: right,
        jump_pressed: jump,
        jump_held: jump,
        dash: false,
        pause: false,
    }
}

fn keys(left: bool, right: bool, jump: bool) -> KeySnapshot {
    KeySnapshot {
        a_held: left,
        d_held: right,
        w_held: false,
        space_held: jump,
        arrow_left_held: false,
        arrow_right_held: false,
        arrow_up_held: false,
        w_just: false,
        space_just: jump,
        arrow_up_just: false,
        shift_left_just: false,
        shift_right_just: false,
        escape_just: false,
    }
}

fn data(lives: u32) -> GameData {
    GameData { current_level: "1-1".to_string(), lives, score: 10, coins: 2 }
}

#[test]
fn no_input_means_no_movement() {
    let intent = movement_intent(&vec![]);
    assert_eq!(intent, MovementIntent { direction: 0, jump: false });
}

#[test]
fn bot_message_moves_right() {
    let intent = movement_intent(&vec![msg(false, true, false)]);
    assert_eq!(intent, MovementIntent { direction: 1, jump: false });
}

#[test]
fn many_requests_are_clamped_to_one_step() {
    let msgs = vec![msg(false, true, false), msg(false, true, false), msg(false, true, false)];
    assert_eq!(movement_intent(&msgs).direction, 1);
    let msgs = vec![
        msg(true, false, false),
        msg(true, false, false),
        GameInputMessage::from_keys(&keys(true, false, false)),
    ];
    assert_eq!(movement_intent(&msgs).direction, -1);
}

#[test]
fn clamping_happens_after_summing() {
    // two rights and one left sum to one step right
    let msgs = vec![msg(false, true, false), msg(false, true, false), msg(true, false, false)];
    assert_eq!(movement_intent(&msgs).direction, 1);
    // one right from a bot cancelled by the keyboard's left message
    let msgs = vec![msg(false, true, false), GameInputMessage::from_keys(&keys(true, false, false))];
    assert_eq!(movement_intent(&msgs).direction, 0);
    // left and right in one message cancel
    assert_eq!(movement_intent(&vec![msg(true, true, false)]).direction, 0);
}

#[test]
fn jump_from_any_source() {
    let msgs = vec![msg(false, false, false), msg(false, false, true)];
    assert!(movement_intent(&msgs).jump);
    assert!(movement_intent(&vec![GameInputMessage::from_keys(&keys(false, false, true))]).jump);
    let msgs = vec![msg(false, false, false), GameInputMessage::from_keys(&keys(false, true, false))];
    assert!(!movement_intent(&msgs).jump);
}

#[test]
fn keyboard_moves_only_through_its_message() {
    // a held D that was never turned into a message moves nothing
    assert_eq!(movement_intent(&vec![]), MovementIntent { direction: 0, jump: false });
    assert_eq!(velocity_command(movement_intent(&vec![]), true).horizontal, 0);
    // the same D as a message moves the player right, once
    let msgs = vec![GameInputMessage::from_keys(&keys(false, true, false))];
    assert_eq!(velocity_command(movement_intent(&msgs), true).horizontal, 300);
}

#[test]
fn velocity_follows_intent() {
    let cmd = velocity_command(MovementIntent { direction: 1, jump: true }, true);
    assert_eq!(cmd, VelocityCommand { horizontal: 300, vertical: Some(500) });
    let cmd = velocity_command(MovementIntent { direction: -1, jump: true }, false);
    assert_eq!(cmd, VelocityCommand { horizontal: -300, vertical: None });
    let cmd = velocity_command(MovementIntent { direction: 0, jump: false }, true);
    assert_eq!(cmd, VelocityCommand { horizontal: 0, vertical: None });
}

#[test]
fn invincible_player_ignores_hits() {
    let mut power = PowerUpState::Invincible;
    let mut d = data(3);
    assert_eq!(resolve_player_hit(true, &mut power, &mut d), HitOutcome::Ignored);
    assert_eq!(power, PowerUpState::Invincible);
    assert_eq!(d.lives, 3);
}

#[test]
fn powered_up_player_shrinks_instead_of_dying() {
    for start in [PowerUpState::Big, PowerUpState::Dash, PowerUpState::Invincible] {
        let mut power = start;
        let mut d = data(1);
        assert_eq!(resolve_player_hit(false, &mut power, &mut d), HitOutcome::PoweredDown);
        assert_eq!(power, PowerUpState::Small);
        assert_eq!(d.lives, 1);
    }
}

#[test]
fn small_player_loses_lives_until_game_over() {
    let mut power = PowerUpState::Small;
    let mut d = data(3);
    assert_eq!(resolve_player_hit(false, &mut power, &mut d), HitOutcome::LifeLost(LifeLoss::Dying));
    assert_eq!(d.lives, 2);
    assert_eq!(resolve_player_hit(false, &mut power, &mut d), HitOutcome::LifeLost(LifeLoss::Dying));
    assert_eq!(d.lives, 1);
    assert_eq!(resolve_player_hit(false, &mut power, &mut d), HitOutcome::LifeLost(LifeLoss::GameOver));
    assert_eq!(d.lives, 0);
    assert_eq!(resolve_player_hit(false, &mut power, &mut d), HitOutcome::LifeLost(LifeLoss::GameOver));
    assert_eq!(d.lives, 0);
    assert_eq!(d.score, 10);
    assert_eq!(d.coins, 2);
}

#[test]
fn big_player_survives_one_extra_hit() {
    let mut power = PowerUpState::Big;
    let mut d = data(1);
    assert_eq!(resolve_player_hit(false, &mut power, &mut d), HitOutcome::PoweredDown);
    assert_eq!(resolve_player_hit(false, &mut power, &mut d), HitOutcome::LifeLost(LifeLoss::GameOver));
}

const SECOND: u64 = 1_000_000_000;

#[test]
fn invincibility_lasts_ten_seconds() {
    let mut inv = InvincibilityTimer::new();
    let mut power = PowerUpState::Invincible;
    assert!(!tick_invincibility(&mut inv, &mut power, 9 * SECOND));
    assert_eq!(power, PowerUpState::Invincible);
    assert_eq!(inv.timer.elapsed_nanos, 9 * SECOND);
    assert!(tick_invincibility(&mut inv, &mut power, 2 * SECOND));
    assert_eq!(power, PowerUpState::Small);
    assert_eq!(inv.timer.elapsed_nanos, 10 * SECOND);
}

#[test]
fn dash_cooldown_restarts_after_two_seconds() {
    let mut c = DashCooldown::new();
    assert!(c.available);
    c.available = false;
    c.tick(SECOND);
    assert!(!c.available);
    assert_eq!(c.timer.elapsed_nanos, SECOND);
    c.tick(SECOND + 1);
    assert!(c.available);
    assert_eq!(c.timer.elapsed_nanos, 0);
    assert!(!c.timer.finished);
}

#[test]
fn power_up_default_is_small() {
    assert_eq!(PowerUpState::default(), PowerUpState::Small);
}

#[test]
fn player_moves_right_on_input() {
    let send_move_right = GameInputMessage {
        move_left: false,
        move_right: true,
        jump_pressed: false,
        jump_held: false,
        dash: false,
        pause: false,
    };
    let initial_x = 0.0f32;
    let mut final_x = initial_x;
    for _frame in 0..10 {
        let intent = movement_intent(&vec![send_move_right]);
        let cmd = velocity_command(intent, true);
        final_x += cmd.horizontal as f32 / 60.0;
    }
    assert!(
        final_x > initial_x,
        "Player should have moved right: initial_x={initial_x}, final_x={final_x}"
    );
}
