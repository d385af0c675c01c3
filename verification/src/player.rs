use vstd::prelude::*;

use crate::input::{GameInputMessage, KeySnapshot};
use crate::state::{GameData, LifeLoss};
use crate::timer::{GameTimer, TimerMode, NANOS_PER_MILLI};

verus! {

/// The player's current power-up.
#[derive(Clone, Copy, Debug, PartialEq, Eq, Hash, Structural)]
pub enum PowerUpState {
    Small,
    Big,
    Dash,
    Invincible,
}

impl Default for PowerUpState {
    fn default() -> (p: Self)
        ensures
            p == PowerUpState::Small,
    {
        PowerUpState::Small
    }
}

/// Horizontal speed of the player while a direction is held.
pub const MOVE_SPEED: i32 = 300;

/// Upward speed given by a jump.
pub const JUMP_VELOCITY: u32 = 500;

/// Net horizontal request of one message: +1 for right, -1 for left.
pub open spec fn message_dir(m: GameInputMessage) -> int {
    (if m.move_right { 1int } else { 0int }) - (if m.move_left { 1int } else { 0int })
}

/// Sum of the horizontal requests of a sequence of messages.
pub open spec fn messages_dir(s: Seq<GameInputMessage>) -> int
    decreases s.len(),
{
    if s.len() == 0 {
        0
    } else {
        messages_dir(s.drop_last()) + message_dir(s.last())
    }
}

pub open spec fn clamp_unit(x: int) -> int {
    if x < -1 {
        -1
    } else if x > 1 {
        1
    } else {
        x
    }
}

/// Some message asks for a jump this frame.
pub open spec fn wants_jump(s: Seq<GameInputMessage>) -> bool {
    exists|i: int| 0 <= i < s.len() && #[trigger] s[i].jump_pressed
}

/// What the player asked for in one frame: a direction (-1 left, 0 none,
/// 1 right) and whether to jump.
#[derive(Clone, Copy, Debug, PartialEq, Eq, Structural)]
pub struct MovementIntent {
    pub direction: i8,
    pub jump: bool,
}

/// Collects the movement requested by this frame's input messages, the
/// only input that gameplay reads. Every left request counts -1 and every
/// right request +1; the sum is clamped to one step either way.
pub fn movement_intent(messages: &Vec<GameInputMessage>) -> (intent: MovementIntent)
    ensures
        intent.direction == clamp_unit(messages_dir(messages@)),
        intent.jump == wants_jump(messages@),
{
    let mut dir: i128 = 0;
    let mut jump = false;
    let mut i: usize = 0;
    while i < messages.len()
        invariant
            i <= messages.len(),
            dir == messages_dir(messages@.take(i as int)),
            -(i as int) <= dir <= i as int,
            jump == (exists|j: int| 0 <= j < i && #[trigger] messages@[j].jump_pressed),
        decreases messages.len() - i,
    {
        let m = messages[i];
        assert(messages@.take(i + 1).drop_last() =~= messages@.take(i as int));
        if m.move_left {
            dir = dir - 1;
        }
        if m.move_right {
            dir = dir + 1;
        }
        if m.jump_pressed {
            jump = true;
        }
        i = i + 1;
    }
    assert(messages@.take(messages.len() as int) =~= messages@);
    let direction: i8 = if dir < -1 {
        -1
    } else if dir > 1 {
        1
    } else {
        dir as i8
    };
    MovementIntent { direction, jump }
}

/// Mirroring every message left for right negates the requested direction.
pub proof fn lemma_mirrored_messages_negate(s: Seq<GameInputMessage>, t: Seq<GameInputMessage>)
    requires
        s.len() == t.len(),
        forall|i: int|
            0 <= i < s.len() ==> #[trigger] t[i].move_left == s[i].move_right
                && t[i].move_right == s[i].move_left,
    ensures
        messages_dir(t) == -messages_dir(s),
    decreases s.len(),
{
    if s.len() > 0 {
        lemma_mirrored_messages_negate(s.drop_last(), t.drop_last());
        assert(t[t.len() - 1].move_left == s[s.len() - 1].move_right);
    }
}

/// However many messages arrive, the requested direction is one step at most.
pub proof fn lemma_direction_is_unit(s: Seq<GameInputMessage>)
    ensures
        -1 <= clamp_unit(messages_dir(s)) <= 1,
{
}

/// The keyboard moves the player only through the message it is turned
/// into: that single message asks for the direction of the held arrow or
/// letter keys (right minus left) and for a jump exactly when a jump key
/// went down, so a bot that sends the same message moves the player the
/// same way.
pub proof fn lemma_injected_input_matches_keyboard(keys: KeySnapshot)
    ensures
        messages_dir(seq![GameInputMessage::spec_from_keys(keys)])
            == (if keys.spec_right() { 1int } else { 0int }) - (if keys.spec_left() { 1int } else { 0int }),
        wants_jump(seq![GameInputMessage::spec_from_keys(keys)]) == keys.spec_jump_pressed(),
{
    let s = seq![GameInputMessage::spec_from_keys(keys)];
    assert(s.drop_last() =~= Seq::<GameInputMessage>::empty());
    assert(messages_dir(s.drop_last()) == 0);
    assert(s.last() == GameInputMessage::spec_from_keys(keys));
    assert(messages_dir(s) == messages_dir(s.drop_last()) + message_dir(s.last()));
    if keys.spec_jump_pressed() {
        assert(s[0].jump_pressed);
    }
}

/// The velocity change that goes with an intent.
#[derive(Clone, Copy, Debug, PartialEq, Eq, Structural)]
pub struct VelocityCommand {
    /// The new horizontal velocity.
    pub horizontal: i32,
    /// The new vertical velocity, when a jump starts; otherwise it is kept.
    pub vertical: Option<u32>,
}

/// Sets the horizontal speed from the direction and starts a jump only
/// when one is asked for and the player stands on the ground.
pub fn velocity_command(intent: MovementIntent, grounded: bool) -> (cmd: VelocityCommand)
    ensures
        cmd.horizontal == intent.direction * MOVE_SPEED,
        cmd.vertical == (if intent.jump && grounded { Some(JUMP_VELOCITY) } else { None::<u32> }),
{
    let horizontal = (intent.direction as i32) * MOVE_SPEED;
    let vertical = if intent.jump && grounded { Some(JUMP_VELOCITY) } else { None };
    VelocityCommand { horizontal, vertical }
}

/// What a hit by an enemy or a shockwave did.
#[derive(Clone, Copy, Debug, PartialEq, Eq, Structural)]
pub enum HitOutcome {
    /// The player is invincible: nothing happens.
    Ignored,
    /// The player loses the power-up and becomes small (and loses any dash).
    PoweredDown,
    /// A small player loses a life.
    LifeLost(LifeLoss),
}

/// The effect of a hit on the power-up and the lives:
/// (new power-up, new lives, outcome).
pub open spec fn spec_hit(invincible: bool, power: PowerUpState, lives: u32) -> (
    PowerUpState,
    u32,
    HitOutcome,
) {
    if invincible {
        (power, lives, HitOutcome::Ignored)
    } else if power != PowerUpState::Small {
        (PowerUpState::Small, lives, HitOutcome::PoweredDown)
    } else {
        let left: u32 = if lives > 0 { (lives - 1) as u32 } else { 0 };
        (
            power,
            left,
            HitOutcome::LifeLost(if left == 0 { LifeLoss::GameOver } else { LifeLoss::Dying }),
        )
    }
}

/// Resolves one hit on the player. `invincible` is true while an
/// invincibility timer runs. A protected player is untouched; a powered-up
/// player drops back to small; a small player loses a life.
pub fn resolve_player_hit(invincible: bool, power: &mut PowerUpState, data: &mut GameData) -> (outcome:
    HitOutcome)
    ensures
        (*final(power), final(data).lives, outcome) == spec_hit(invincible, *old(power), old(data).lives),
        final(data).score == old(data).score,
        final(data).coins == old(data).coins,
        final(data).current_level == old(data).current_level,
{
    if invincible {
        return HitOutcome::Ignored;
    }
    if *power != PowerUpState::Small {
        *power = PowerUpState::Small;
        return HitOutcome::PoweredDown;
    }
    let loss = data.lose_life();
    HitOutcome::LifeLost(loss)
}

/// The state after `k` unprotected hits.
pub open spec fn hits(power: PowerUpState, lives: u32, k: nat) -> (PowerUpState, u32)
    decreases k,
{
    if k == 0 {
        (power, lives)
    } else {
        let (p, l) = hits(power, lives, (k - 1) as nat);
        let (p2, l2, _) = spec_hit(false, p, l);
        (p2, l2)
    }
}

/// A powered-up player survives one more hit than a small one: the first
/// hit only takes the power-up, and every later hit takes one life, so a
/// small player with `n` lives is out after exactly `n` hits.
pub proof fn lemma_hits_count_down(power: PowerUpState, lives: u32, k: nat)
    ensures
        hits(power, lives, k).0 == (if k == 0 { power } else { PowerUpState::Small }),
        hits(power, lives, k).1 == (if power == PowerUpState::Small {
            if k >= lives { 0 } else { lives - k }
        } else {
            if k == 0 { lives as int } else if k - 1 >= lives { 0 } else { lives - (k - 1) }
        }),
    decreases k,
{
    if k > 0 {
        lemma_hits_count_down(power, lives, (k - 1) as nat);
    }
}

/// A protected player, or a powered-up one, never loses a life to a hit.
pub proof fn lemma_protection_saves_lives(invincible: bool, power: PowerUpState, lives: u32)
    requires
        invincible || power != PowerUpState::Small,
    ensures
        spec_hit(invincible, power, lives).1 == lives,
        !(spec_hit(invincible, power, lives).2 is LifeLost),
{
}

/// A hit on an invincible player changes nothing: the power-up and the
/// lives stay, and the hit is ignored.
pub proof fn lemma_invincible_ignores_hits(power: PowerUpState, lives: u32)
    ensures
        spec_hit(true, power, lives) == (power, lives, HitOutcome::Ignored),
{
}

/// Length of the dash cooldown, in milliseconds.
pub const DASH_COOLDOWN_MILLIS: u64 = 2000;

/// Length of invincibility, in milliseconds.
pub const INVINCIBILITY_MILLIS: u64 = 10000;

/// Runs while the player is invincible.
#[derive(Clone, Copy, Debug, PartialEq, Eq, Structural)]
pub struct InvincibilityTimer {
    pub timer: GameTimer,
}

impl InvincibilityTimer {
    /// A fresh invincibility of `INVINCIBILITY_MILLIS`.
    pub fn new() -> (t: Self)
        ensures
            t.timer == (GameTimer {
                mode: TimerMode::Once,
                duration_nanos: (INVINCIBILITY_MILLIS * NANOS_PER_MILLI) as u64,
                elapsed_nanos: 0,
                finished: false,
                just_finished: false,
            }),
    {
        InvincibilityTimer { timer: GameTimer::from_millis(INVINCIBILITY_MILLIS, TimerMode::Once) }
    }
}

/// Advances the invincibility by `delta_nanos`. When it has run out the
/// player is small again and `true` comes back: the timer is to be removed.
pub fn tick_invincibility(inv: &mut InvincibilityTimer, power: &mut PowerUpState, delta_nanos: u64) -> (expired: bool)
    requires
        old(inv).timer.fits_tick(delta_nanos),
    ensures
        final(inv).timer == old(inv).timer.spec_tick(delta_nanos),
        expired == final(inv).timer.finished,
        *final(power) == (if expired { PowerUpState::Small } else { *old(power) }),
{
    inv.timer.tick(delta_nanos);
    if inv.timer.finished {
        *power = PowerUpState::Small;
        true
    } else {
        false
    }
}

/// The dash: available once the cooldown has run.
#[derive(Clone, Copy, Debug, PartialEq, Eq, Structural)]
pub struct DashCooldown {
    pub timer: GameTimer,
    pub available: bool,
}

impl DashCooldown {
    /// A fresh cooldown of `DASH_COOLDOWN_MILLIS`, with a dash available.
    pub fn new() -> (c: Self)
        ensures
            c.available,
            c.timer == (GameTimer {
                mode: TimerMode::Once,
                duration_nanos: (DASH_COOLDOWN_MILLIS * NANOS_PER_MILLI) as u64,
                elapsed_nanos: 0,
                finished: false,
                just_finished: false,
            }),
    {
        DashCooldown { timer: GameTimer::from_millis(DASH_COOLDOWN_MILLIS, TimerMode::Once), available: true }
    }

    /// Advances the cooldown by `delta_nanos`; when it has run, the dash is
    /// available and the cooldown starts over.
    pub fn tick(&mut self, delta_nanos: u64)
        requires
            old(self).timer.fits_tick(delta_nanos),
        ensures
            ({
                let t = old(self).timer.spec_tick(delta_nanos);
                if t.finished {
                    &&& final(self).available
                    &&& final(self).timer == (GameTimer { elapsed_nanos: 0, finished: false, just_finished: false, ..t })
                } else {
                    &&& final(self).available == old(self).available
                    &&& final(self).timer == t
                }
            }),
    {
        self.timer.tick(delta_nanos);
        if self.timer.finished {
            self.available = true;
            self.timer.reset();
        }
    }
}

} // verus!
