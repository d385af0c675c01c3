use rusty_runner::state::{
    lives_lost, menu_transition, AppState, GameData, GamePhase, LifeLoss, BOSS_STOMP_SCORE,
    COIN_SCORE, STOMP_SCORE,
};

#[test]
fn initial_state_is_main_menu() {
    assert_eq!(AppState::default(), AppState::MainMenu);
}

#[test]
fn default_play_phase_is_active() {
    assert_eq!(GamePhase::default(), GamePhase::Active);
}

#[test]
fn new_run_defaults() {
    let d = GameData::default();
    assert_eq!(d.current_level, "1-1");
    assert_eq!(d.lives, 3);
    assert_eq!(d.score, 0);
    assert_eq!(d.coins, 0);
}

#[test]
fn space_moves_through_menus() {
    assert_eq!(menu_transition(AppState::MainMenu, true, false), Some(AppState::Loading));
    assert_eq!(menu_transition(AppState::Paused, true, false), Some(AppState::Playing));
    assert_eq!(menu_transition(AppState::GameOver, true, false), Some(AppState::MainMenu));
    assert_eq!(menu_transition(AppState::LevelComplete, true, false), Some(AppState::Loading));
    assert_eq!(menu_transition(AppState::Victory, true, false), Some(AppState::MainMenu));
    assert_eq!(menu_transition(AppState::Playing, true, false), None);
    assert_eq!(menu_transition(AppState::Loading, true, true), None);
}

#[test]
fn escape_pauses_only_a_running_game() {
    assert_eq!(menu_transition(AppState::Playing, false, true), Some(AppState::Paused));
    assert_eq!(menu_transition(AppState::MainMenu, false, true), None);
    assert_eq!(menu_transition(AppState::Paused, false, true), None);
    assert_eq!(menu_transition(AppState::Playing, false, false), None);
}

#[test]
fn pause_and_resume_round_trip() {
    let paused = menu_transition(AppState::Playing, false, true).unwrap();
    assert_eq!(menu_transition(paused, true, false), Some(AppState::Playing));
}

#[test]
fn losing_lives() {
    let mut d = GameData::default();
    assert_eq!(d.lose_life(), LifeLoss::Dying);
    assert_eq!(d.lose_life(), LifeLoss::Dying);
    assert_eq!(d.lose_life(), LifeLoss::GameOver);
    assert_eq!(d.lives, 0);
    assert_eq!(d.lose_life(), LifeLoss::GameOver);
    assert_eq!(d.lives, 0);
}

#[test]
fn coins_and_stomps_score() {
    let mut d = GameData::default();
    d.collect_coin();
    d.collect_coin();
    d.stomp_enemy();
    assert_eq!(d.coins, 2);
    assert_eq!(d.score, 2 * COIN_SCORE + STOMP_SCORE);
    assert_eq!(d.score, 400);
    assert_eq!(d.lives, 3);
    assert_eq!(BOSS_STOMP_SCORE, 500);
}

#[test]
fn several_coins_in_one_frame_add_up() {
    let mut d = GameData::default();
    let k = 7u32;
    for _ in 0..k {
        d.collect_coin();
    }
    assert_eq!(d.coins, k);
    assert_eq!(d.score, COIN_SCORE * k);
    assert_eq!(d.lives, 3);
    assert_eq!(d.current_level, "1-1");
}

#[test]
fn lives_lost_saturates() {
    assert_eq!(lives_lost(3, 1), 2);
    assert_eq!(lives_lost(3, 3), 0);
    assert_eq!(lives_lost(3, 5), 0);
}
