use vstd::prelude::*;

use crate::input::GameInputMessage;

verus! {

/// What a bot knows about the world when it decides: whether there is
/// ground, a gap or an enemy just ahead of the player.
#[derive(Clone, Copy, Debug, PartialEq, Eq, Structural)]
pub struct GameWorldState {
    pub ground_ahead: bool,
    pub gap_ahead: bool,
    pub enemy_ahead: bool,
}

/// A strategy that turns the world state into one frame of input.
pub trait BotStrategy: Send + Sync {
    fn decide(&mut self, state: &GameWorldState) -> GameInputMessage;
}

/// Runs right and jumps whenever something is in the way.
pub struct RightRunnerBot;

impl RightRunnerBot {
    pub fn new() -> (bot: Self) {
        RightRunnerBot
    }
}

/// The input the right runner gives for a world state.
pub open spec fn right_runner_input(state: GameWorldState) -> GameInputMessage {
    let jump = state.gap_ahead || state.enemy_ahead;
    GameInputMessage {
        move_left: false,
        move_right: true,
        jump_pressed: jump,
        jump_held: jump,
        dash: false,
        pause: false,
    }
}

impl BotStrategy for RightRunnerBot {
    fn decide(&mut self, state: &GameWorldState) -> (msg: GameInputMessage)
        ensures
            msg == right_runner_input(*state),
            msg.move_right && !msg.move_left,
            msg.jump_pressed == (state.gap_ahead || state.enemy_ahead),
            msg.jump_held == msg.jump_pressed,
            !msg.dash && !msg.pause,
    {
        let should_jump = state.gap_ahead || state.enemy_ahead;
        GameInputMessage {
            move_left: false,
            move_right: true,
            jump_pressed: should_jump,
            jump_held: should_jump,
            dash: false,
            pause: false,
        }
    }
}

/// The right runner always runs right and never left, dashes or pauses; it
/// jumps, pressing and holding, exactly when a gap or an enemy is ahead,
/// and whether ground lies ahead plays no part.
pub proof fn lemma_right_runner_always_runs_right(state: GameWorldState, other_ground: bool)
    ensures
        right_runner_input(state).move_right,
        !right_runner_input(state).move_left,
        !right_runner_input(state).dash,
        !right_runner_input(state).pause,
        right_runner_input(state).jump_pressed <==> (state.gap_ahead || state.enemy_ahead),
        right_runner_input(state).jump_held <==> (state.gap_ahead || state.enemy_ahead),
        right_runner_input(state) == right_runner_input(GameWorldState { ground_ahead: other_ground, ..state }),
{
}

/// One step of the xorshift64 generator (shifts 13, 7, 17).
pub open spec fn xorshift_step(s: u64) -> u64 {
    let a = s ^ (s << 13u64);
    let b = a ^ (a >> 7u64);
    b ^ (b << 17u64)
}

/// The generator state after `n` steps.
pub open spec fn xorshift_iter(s: u64, n: nat) -> u64
    decreases n,
{
    if n == 0 {
        s
    } else {
        xorshift_step(xorshift_iter(s, (n - 1) as nat))
    }
}

/// The coin a generator state stands for: heads on even states.
pub open spec fn coin(s: u64) -> bool {
    s % 2 == 0
}

/// The input a random bot gives from generator state `s`: five successive
/// coins, in field order; it never pauses.
pub open spec fn random_input(s: u64) -> GameInputMessage {
    GameInputMessage {
        move_left: coin(xorshift_iter(s, 1)),
        move_right: coin(xorshift_iter(s, 2)),
        jump_pressed: coin(xorshift_iter(s, 3)),
        jump_held: coin(xorshift_iter(s, 4)),
        dash: coin(xorshift_iter(s, 5)),
        pause: false,
    }
}

/// Presses buttons at random, from a seeded xorshift64 generator.
pub struct RandomBot {
    rng_state: u64,
}

impl View for RandomBot {
    type V = u64;

    /// The generator state.
    closed spec fn view(&self) -> u64 {
        self.rng_state
    }
}

impl RandomBot {
    pub fn new(seed: u64) -> (bot: Self)
        ensures
            bot@ == seed,
    {
        RandomBot { rng_state: seed }
    }

    /// Advances the generator one step and flips a coin on the new state.
    pub fn next_bool(&mut self) -> (b: bool)
        ensures
            final(self)@ == xorshift_step(old(self)@),
            b == coin(final(self)@),
    {
        self.rng_state = self.rng_state ^ (self.rng_state << 13u64);
        self.rng_state = self.rng_state ^ (self.rng_state >> 7u64);
        self.rng_state = self.rng_state ^ (self.rng_state << 17u64);
        self.rng_state % 2 == 0
    }
}

impl BotStrategy for RandomBot {
    fn decide(&mut self, _state: &GameWorldState) -> (msg: GameInputMessage)
        ensures
            msg == random_input(old(self)@),
            final(self)@ == xorshift_iter(old(self)@, 5),
    {
        let ghost s = self@;
        let move_left = self.next_bool();
        let move_right = self.next_bool();
        let jump_pressed = self.next_bool();
        let jump_held = self.next_bool();
        let dash = self.next_bool();
        proof {
            reveal_with_fuel(xorshift_iter, 6);
        }
        GameInputMessage { move_left, move_right, jump_pressed, jump_held, dash, pause: false }
    }
}

/// A nonzero generator state never steps to zero, so a random bot seeded
/// with anything but zero keeps producing fresh states.
pub proof fn lemma_xorshift_keeps_nonzero(s: u64)
    requires
        s != 0,
    ensures
        xorshift_step(s) != 0,
{
    let a = s ^ (s << 13u64);
    let b = a ^ (a >> 7u64);
    assert(s != 0 ==> (s ^ (s << 13u64)) != 0) by (bit_vector);
    assert(a != 0 ==> (a ^ (a >> 7u64)) != 0) by (bit_vector);
    assert(b != 0 ==> (b ^ (b << 17u64)) != 0) by (bit_vector);
}

/// Seeded with zero, the generator stays at zero and every coin is heads.
pub proof fn lemma_zero_seed_is_fixed(n: nat)
    ensures
        xorshift_iter(0, n) == 0,
        coin(xorshift_iter(0, n)),
    decreases n,
{
    assert(xorshift_step(0) == 0) by (bit_vector);
    if n > 0 {
        lemma_zero_seed_is_fixed((n - 1) as nat);
    }
}

/// Stepping `a` times and then `b` times is stepping `a + b` times.
pub proof fn lemma_xorshift_iter_add(s: u64, a: nat, b: nat)
    ensures
        xorshift_iter(xorshift_iter(s, a), b) == xorshift_iter(s, a + b),
    decreases b,
{
    if b > 0 {
        lemma_xorshift_iter_add(s, a, (b - 1) as nat);
    }
}

/// The generator state of a random bot made with `seed` after `calls`
/// decisions: each decision steps it five times, whatever world state it
/// was shown.
pub open spec fn random_bot_state(seed: u64, calls: nat) -> u64
    decreases calls,
{
    if calls == 0 {
        seed
    } else {
        xorshift_iter(random_bot_state(seed, (calls - 1) as nat), 5)
    }
}

/// A random bot replays from its seed: its state after `calls` decisions is
/// the seed stepped `5 * calls` times, so its next input is fixed by the
/// seed and the number of earlier calls alone (the world states it was
/// shown play no part), and it never asks for a pause.
pub proof fn lemma_random_bot_replays(seed: u64, calls: nat)
    ensures
        random_bot_state(seed, calls) == xorshift_iter(seed, 5 * calls),
        random_input(random_bot_state(seed, calls)) == random_input(xorshift_iter(seed, 5 * calls)),
        !random_input(random_bot_state(seed, calls)).pause,
    decreases calls,
{
    if calls > 0 {
        lemma_random_bot_replays(seed, (calls - 1) as nat);
        lemma_xorshift_iter_add(seed, 5 * ((calls - 1) as nat), 5);
        assert(5 * ((calls - 1) as nat) + 5 == 5 * calls);
    }
}

/// What the path-finding bot senses besides the world state: where the goal
/// lies relative to the player (more than 5 units right or left, more than
/// 10 units up) and whether the player has stopped moving (less than one
/// unit since its last decision).
#[derive(Clone, Copy, Debug, PartialEq, Eq, Structural)]
pub struct PathfindSense {
    pub goal_right: bool,
    pub goal_left: bool,
    pub goal_above: bool,
    pub stuck: bool,
}

pub open spec fn pathfind_input(state: GameWorldState, sense: PathfindSense) -> GameInputMessage {
    let jump = sense.goal_above || state.gap_ahead || state.enemy_ahead || sense.stuck;
    GameInputMessage {
        move_left: sense.goal_left,
        move_right: sense.goal_right,
        jump_pressed: jump,
        jump_held: jump,
        dash: false,
        pause: false,
    }
}

/// The path-finding bot's rule: walk toward the goal, jump when the goal
/// is above, when something is in the way, or when stuck.
pub fn pathfind_decision(state: &GameWorldState, sense: &PathfindSense) -> (msg: GameInputMessage)
    ensures
        msg == pathfind_input(*state, *sense),
        msg.jump_pressed == (sense.goal_above || state.gap_ahead || state.enemy_ahead || sense.stuck),
        msg.jump_held == msg.jump_pressed,
        msg.move_left == sense.goal_left,
        msg.move_right == sense.goal_right,
        !msg.dash,
        !msg.pause,
{
    let should_jump = sense.goal_above || state.gap_ahead || state.enemy_ahead;
    GameInputMessage {
        move_left: sense.goal_left,
        move_right: sense.goal_right,
        jump_pressed: should_jump || sense.stuck,
        jump_held: should_jump || sense.stuck,
        dash: false,
        pause: false,
    }
}

/// The path-finding bot jumps, pressing and holding, whenever the goal is
/// above, a gap or an enemy is ahead, or it is stuck, and only then; it
/// walks toward the goal.
pub proof fn lemma_pathfind_jumps_for_every_obstacle(state: GameWorldState, sense: PathfindSense)
    ensures
        state.enemy_ahead ==> pathfind_input(state, sense).jump_pressed && pathfind_input(state, sense).jump_held,
        state.gap_ahead ==> pathfind_input(state, sense).jump_pressed && pathfind_input(state, sense).jump_held,
        sense.goal_above ==> pathfind_input(state, sense).jump_pressed && pathfind_input(state, sense).jump_held,
        sense.stuck ==> pathfind_input(state, sense).jump_pressed && pathfind_input(state, sense).jump_held,
        !state.enemy_ahead && !state.gap_ahead && !sense.goal_above && !sense.stuck
            ==> !pathfind_input(state, sense).jump_pressed && !pathfind_input(state, sense).jump_held,
        pathfind_input(state, sense).move_right == sense.goal_right,
        pathfind_input(state, sense).move_left == sense.goal_left,
{
}

/// The path-finding bot never dashes or pauses, holds jump exactly when it
/// presses it, and, as the goal cannot lie both right and left of the
/// player, never asks for both directions.
pub proof fn lemma_pathfind_moves_one_way(state: GameWorldState, sense: PathfindSense)
    requires
        !(sense.goal_left && sense.goal_right),
    ensures
        !(pathfind_input(state, sense).move_left && pathfind_input(state, sense).move_right),
        !pathfind_input(state, sense).dash,
        !pathfind_input(state, sense).pause,
        pathfind_input(state, sense).jump_pressed == pathfind_input(state, sense).jump_held,
{
}

} // verus!
