use rusty_runner::enemy::EnemyType;
use rusty_runner::items::ItemType;
use rusty_runner::state::AppState;
use rusty_runner::text::{enemy_sprite, item_sprite, lives_text, menu_labels, push_decimal, score_text};

#[test]
fn hud_lines() {
    assert_eq!(score_text(0, 0), "Score: 0  Coins: 0");
    assert_eq!(score_text(1250, 7), "Score: 1250  Coins: 7");
    assert_eq!(lives_text(3), "Lives: 3");
    assert_eq!(lives_text(u32::MAX), "Lives: 4294967295");
}

#[test]
fn decimal_digits() {
    for n in [0u32, 9, 10, 99, 100, 101, 65536, 1_000_000_007] {
        let mut s = String::from("x");
        push_decimal(&mut s, n);
        assert_eq!(s, format!("x{}", n));
    }
}

#[test]
fn menus_have_titles() {
    assert_eq!(menu_labels(AppState::MainMenu), Some(("RUSTY RUNNER", "Press SPACE to Start")));
    assert_eq!(menu_labels(AppState::Paused), Some(("PAUSED", "Press SPACE to Resume")));
    assert_eq!(menu_labels(AppState::GameOver), Some(("GAME OVER", "Press SPACE to Restart")));
    assert_eq!(menu_labels(AppState::LevelComplete), Some(("LEVEL COMPLETE!", "Press SPACE to Continue")));
    assert_eq!(menu_labels(AppState::Victory), Some(("VICTORY!", "You defeated the boss!")));
    assert_eq!(menu_labels(AppState::Playing), None);
    assert_eq!(menu_labels(AppState::Loading), None);
}

#[test]
fn sprite_paths() {
    assert_eq!(enemy_sprite(Some(EnemyType::Jumper)), "sprites/enemy_jumper.png");
    assert_eq!(enemy_sprite(Some(EnemyType::Spiker)), "sprites/enemy_spiker.png");
    assert_eq!(enemy_sprite(Some(EnemyType::Flyer)), "sprites/enemy_flyer.png");
    assert_eq!(enemy_sprite(None), "sprites/enemy_walker.png");
    assert_eq!(enemy_sprite(Some(EnemyType::Walker)), "sprites/enemy_walker.png");
    assert_eq!(item_sprite(ItemType::Special), "sprites/powerup_dash.png");
    assert_eq!(item_sprite(ItemType::Growth), "sprites/powerup_growth.png");
    assert_eq!(item_sprite(ItemType::Invincible), "sprites/powerup_invincible.png");
}
