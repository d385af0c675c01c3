use rusty_runner::bot::{
    pathfind_decision, BotStrategy, GameWorldState, PathfindSense, RandomBot, RightRunnerBot,
};

fn open_ground() -> GameWorldState {
    GameWorldState { ground_ahead: true, gap_ahead: false, enemy_ahead: false }
}

#[test]
fn right_runner_always_moves_right() {
    let mut bot = RightRunnerBot::new();
    let state = open_ground();
    let input = bot.decide(&state);
    assert!(input.move_right, "RightRunner should always move right");
}

#[test]
fn right_runner_jumps_over_gaps() {
    let mut bot = RightRunnerBot::new();
    let state = GameWorldState { ground_ahead: false, gap_ahead: true, enemy_ahead: false };
    let input = bot.decide(&state);
    assert!(input.move_right);
    assert!(input.jump_pressed, "Should jump over gap");
}

#[test]
fn right_runner_jumps_over_enemies_and_walks_otherwise() {
    let mut bot = RightRunnerBot::new();
    let input = bot.decide(&GameWorldState { ground_ahead: true, gap_ahead: false, enemy_ahead: true });
    assert!(input.jump_pressed && input.jump_held);
    let input = bot.decide(&open_ground());
    assert!(!input.jump_pressed && !input.jump_held);
    assert!(!input.move_left && !input.dash && !input.pause);
}

#[test]
fn random_bot_follows_xorshift() {
    // States after seed 42: 45454805674, 11532217803599905471, 10021416941527320954,
    // 2899061411254629736, 5661411637479084162, 10094803945545275427.
    let mut bot = RandomBot::new(42);
    let input = bot.decide(&open_ground());
    assert!(input.move_left);
    assert!(!input.move_right);
    assert!(input.jump_pressed);
    assert!(input.jump_held);
    assert!(input.dash);
    assert!(!input.pause);
    assert!(!bot.next_bool());
}

#[test]
fn random_bot_next_bool_first_coin() {
    let mut bot = RandomBot::new(42);
    assert!(bot.next_bool());
    assert!(!bot.next_bool());
}

#[test]
fn random_bots_with_equal_seeds_agree() {
    let mut a = RandomBot::new(7);
    let mut b = RandomBot::new(7);
    for _ in 0..20 {
        assert_eq!(a.decide(&open_ground()), b.decide(&open_ground()));
    }
}

#[test]
fn random_bot_ignores_the_world_it_is_shown() {
    let worlds = [
        open_ground(),
        GameWorldState { ground_ahead: false, gap_ahead: true, enemy_ahead: false },
        GameWorldState { ground_ahead: true, gap_ahead: false, enemy_ahead: true },
    ];
    let mut a = RandomBot::new(12345);
    let mut b = RandomBot::new(12345);
    for i in 0..30 {
        let x = a.decide(&worlds[i % 3]);
        let y = b.decide(&worlds[(i + 1) % 3]);
        assert_eq!(x, y);
        assert!(!x.pause);
    }
}

#[test]
fn pathfind_never_dashes_or_asks_both_ways() {
    for bits in 0u8..16 {
        let sense = PathfindSense {
            goal_right: bits & 1 != 0,
            goal_left: bits & 2 != 0 && bits & 1 == 0,
            goal_above: bits & 4 != 0,
            stuck: bits & 8 != 0,
        };
        let input = pathfind_decision(&open_ground(), &sense);
        assert!(!(input.move_left && input.move_right));
        assert!(!input.dash && !input.pause);
        assert_eq!(input.jump_pressed, input.jump_held);
    }
}

#[test]
fn random_bot_seeded_with_zero_presses_everything() {
    let mut bot = RandomBot::new(0);
    for _ in 0..3 {
        let input = bot.decide(&open_ground());
        assert!(input.move_left && input.move_right && input.jump_pressed && input.jump_held && input.dash);
        assert!(!input.pause);
    }
}

#[test]
fn pathfind_walks_toward_goal_and_jumps_when_needed() {
    let state = open_ground();
    let sense = PathfindSense { goal_right: true, goal_left: false, goal_above: false, stuck: false };
    let input = pathfind_decision(&state, &sense);
    assert!(input.move_right && !input.move_left && !input.jump_pressed);

    let sense = PathfindSense { goal_right: false, goal_left: true, goal_above: false, stuck: true };
    let input = pathfind_decision(&state, &sense);
    assert!(input.move_left && !input.move_right && input.jump_pressed && input.jump_held);

    let sense = PathfindSense { goal_right: false, goal_left: false, goal_above: true, stuck: false };
    let input = pathfind_decision(&state, &sense);
    assert!(input.jump_pressed && !input.dash && !input.pause);

    let sense = PathfindSense { goal_right: false, goal_left: false, goal_above: false, stuck: false };
    let gap = GameWorldState { ground_ahead: false, gap_ahead: true, enemy_ahead: false };
    assert!(pathfind_decision(&gap, &sense).jump_pressed);
    assert!(!pathfind_decision(&state, &sense).jump_pressed);
}
