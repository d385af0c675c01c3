use vstd::prelude::*;

use crate::enemy::EnemyType;
use crate::items::ItemType;
use crate::state::AppState;

verus! {

/// The character of a decimal digit.
pub open spec fn digit_char(d: nat) -> char {
    if d == 0 {
        '0'
    } else if d == 1 {
        '1'
    } else if d == 2 {
        '2'
    } else if d == 3 {
        '3'
    } else if d == 4 {
        '4'
    } else if d == 5 {
        '5'
    } else if d == 6 {
        '6'
    } else if d == 7 {
        '7'
    } else if d == 8 {
        '8'
    } else {
        '9'
    }
}

/// The decimal notation of `n`, without leading zeros.
pub open spec fn decimal(n: nat) -> Seq<char>
    decreases n,
{
    if n < 10 {
        seq![digit_char(n)]
    } else {
        decimal(n / 10) + seq![digit_char(n % 10)]
    }
}

fn digit_str(d: u32) -> (s: &'static str)
    requires
        d < 10,
    ensures
        s@ == seq![digit_char(d as nat)],
{
    proof {
        reveal_strlit("0");
        reveal_strlit("1");
        reveal_strlit("2");
        reveal_strlit("3");
        reveal_strlit("4");
        reveal_strlit("5");
        reveal_strlit("6");
        reveal_strlit("7");
        reveal_strlit("8");
        reveal_strlit("9");
    }
    match d {
        0 => "0",
        1 => "1",
        2 => "2",
        3 => "3",
        4 => "4",
        5 => "5",
        6 => "6",
        7 => "7",
        8 => "8",
        _ => "9",
    }
}

/// Appends the decimal notation of `n` to `s`.
pub fn push_decimal(s: &mut String, n: u32)
    ensures
        final(s)@ == old(s)@ + decimal(n as nat),
    decreases n,
{
    if n >= 10 {
        push_decimal(s, n / 10);
    }
    s.append(digit_str(n % 10));
    assert(s@ =~= old(s)@ + decimal(n as nat));
}

/// The score line of the heads-up display.
pub fn score_text(score: u32, coins: u32) -> (text: String)
    ensures
        text@ == "Score: "@ + decimal(score as nat) + "  Coins: "@ + decimal(coins as nat),
{
    let mut text = String::from_str("Score: ");
    push_decimal(&mut text, score);
    text.append("  Coins: ");
    push_decimal(&mut text, coins);
    text
}

/// The lives line of the heads-up display.
pub fn lives_text(lives: u32) -> (text: String)
    ensures
        text@ == "Lives: "@ + decimal(lives as nat),
{
    let mut text = String::from_str("Lives: ");
    push_decimal(&mut text, lives);
    text
}

/// The title and the prompt of the menu shown on a screen; loading and
/// play show no menu.
pub open spec fn spec_menu_labels(state: AppState) -> Option<(Seq<char>, Seq<char>)> {
    match state {
        AppState::MainMenu => Some(("RUSTY RUNNER"@, "Press SPACE to Start"@)),
        AppState::Paused => Some(("PAUSED"@, "Press SPACE to Resume"@)),
        AppState::GameOver => Some(("GAME OVER"@, "Press SPACE to Restart"@)),
        AppState::LevelComplete => Some(("LEVEL COMPLETE!"@, "Press SPACE to Continue"@)),
        AppState::Victory => Some(("VICTORY!"@, "You defeated the boss!"@)),
        AppState::Loading => None,
        AppState::Playing => None,
    }
}

pub fn menu_labels(state: AppState) -> (labels: Option<(&'static str, &'static str)>)
    ensures
        match labels {
            Some((title, prompt)) => spec_menu_labels(state) == Some((title@, prompt@)),
            None => spec_menu_labels(state) is None,
        },
{
    match state {
        AppState::MainMenu => Some(("RUSTY RUNNER", "Press SPACE to Start")),
        AppState::Paused => Some(("PAUSED", "Press SPACE to Resume")),
        AppState::GameOver => Some(("GAME OVER", "Press SPACE to Restart")),
        AppState::LevelComplete => Some(("LEVEL COMPLETE!", "Press SPACE to Continue")),
        AppState::Victory => Some(("VICTORY!", "You defeated the boss!")),
        AppState::Loading => None,
        AppState::Playing => None,
    }
}

/// The picture of an enemy; one of unknown kind is drawn as a walker.
pub open spec fn spec_enemy_sprite(kind: Option<EnemyType>) -> Seq<char> {
    match kind {
        Some(EnemyType::Walker) => "sprites/enemy_walker.png"@,
        Some(EnemyType::Jumper) => "sprites/enemy_jumper.png"@,
        Some(EnemyType::Flyer) => "sprites/enemy_flyer.png"@,
        Some(EnemyType::Spiker) => "sprites/enemy_spiker.png"@,
        None => "sprites/enemy_walker.png"@,
    }
}

pub fn enemy_sprite(kind: Option<EnemyType>) -> (path: &'static str)
    ensures
        path@ == spec_enemy_sprite(kind),
{
    match kind {
        Some(EnemyType::Walker) => "sprites/enemy_walker.png",
        Some(EnemyType::Jumper) => "sprites/enemy_jumper.png",
        Some(EnemyType::Flyer) => "sprites/enemy_flyer.png",
        Some(EnemyType::Spiker) => "sprites/enemy_spiker.png",
        None => "sprites/enemy_walker.png",
    }
}

/// The picture of a power-up item.
pub open spec fn spec_item_sprite(item: ItemType) -> Seq<char> {
    match item {
        ItemType::Growth => "sprites/powerup_growth.png"@,
        ItemType::Special => "sprites/powerup_dash.png"@,
        ItemType::Invincible => "sprites/powerup_invincible.png"@,
    }
}

pub fn item_sprite(item: ItemType) -> (path: &'static str)
    ensures
        path@ == spec_item_sprite(item),
{
    match item {
        ItemType::Growth => "sprites/powerup_growth.png",
        ItemType::Special => "sprites/powerup_dash.png",
        ItemType::Invincible => "sprites/powerup_invincible.png",
    }
}

} // verus!
