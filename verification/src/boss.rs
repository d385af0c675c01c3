use vstd::prelude::*;

use crate::state::{AppState, GameData, BOSS_STOMP_SCORE};
use crate::timer::{GameTimer, TimerMode, NANOS_PER_MILLI};

verus! {

/// Charging speed of an undamaged boss.
pub const BOSS_BASE_SPEED: u64 = 250;

/// Extra charging speed per hit point lost.
pub const BOSS_SPEED_SCALE_PER_DAMAGE: u64 = 50;

/// How long the boss rests at a wall, in milliseconds.
pub const BOSS_PAUSE_MILLIS: u64 = 1500;

/// Upward speed of the boss's jump.
pub const BOSS_JUMP_VELOCITY: u32 = 600;

/// Time between two walker spawns, in milliseconds.
pub const WALKER_SPAWN_INTERVAL_MILLIS: u64 = 5000;

/// How long a shockwave lasts, in milliseconds.
pub const SHOCKWAVE_MILLIS: u64 = 500;

/// Size of a shockwave.
pub const SHOCKWAVE_WIDTH: u32 = 200;

pub const SHOCKWAVE_HEIGHT: u32 = 16;

/// Hit points of the boss.
#[derive(Clone, Copy, Debug, PartialEq, Eq, Structural)]
pub struct Boss {
    pub hp: u32,
    pub max_hp: u32,
}

/// A horizontal direction.
#[derive(Clone, Copy, Debug, PartialEq, Eq, Hash, Structural)]
pub enum Direction {
    Left,
    Right,
}

impl Direction {
    pub open spec fn spec_sign(self) -> int {
        match self {
            Direction::Left => -1,
            Direction::Right => 1,
        }
    }

    /// -1 for left, 1 for right.
    pub fn sign(self) -> (s: i8)
        ensures
            s == self.spec_sign(),
    {
        match self {
            Direction::Left => -1,
            Direction::Right => 1,
        }
    }
}

/// What the boss is doing.
#[derive(Clone, Copy, Debug, PartialEq, Eq, Structural)]
pub enum BossPhase {
    Charging { direction: Direction },
    /// Resting at a wall until the timer runs out.
    PausedAtWall { timer: GameTimer },
    Jumping,
}

/// The timer of a fresh pause at a wall.
pub open spec fn pause_timer() -> GameTimer {
    GameTimer {
        mode: TimerMode::Once,
        duration_nanos: (BOSS_PAUSE_MILLIS * NANOS_PER_MILLI) as u64,
        elapsed_nanos: 0,
        finished: false,
        just_finished: false,
    }
}

impl Boss {
    /// Hit points lost so far.
    pub open spec fn spec_damage_taken(self) -> int {
        if self.max_hp >= self.hp {
            self.max_hp - self.hp
        } else {
            0
        }
    }

    /// The charging speed: the base speed plus a step per hit point lost.
    pub open spec fn spec_speed(self) -> int {
        BOSS_BASE_SPEED + BOSS_SPEED_SCALE_PER_DAMAGE * self.spec_damage_taken()
    }

    pub fn damage_taken(&self) -> (d: u32)
        ensures
            d == self.spec_damage_taken(),
    {
        self.max_hp.saturating_sub(self.hp)
    }

    pub fn speed(&self) -> (s: u64)
        ensures
            s == self.spec_speed(),
            s <= BOSS_BASE_SPEED + BOSS_SPEED_SCALE_PER_DAMAGE * 0xffff_ffff,
    {
        BOSS_BASE_SPEED + BOSS_SPEED_SCALE_PER_DAMAGE * (self.damage_taken() as u64)
    }

    pub open spec fn spec_spawns_walkers(self) -> bool {
        !(self.hp > (if self.max_hp >= 1 { self.max_hp - 1 } else { 0 }))
    }

    /// Walkers are summoned only once the boss has lost a hit point.
    pub fn spawns_walkers(&self) -> (b: bool)
        ensures
            b == self.spec_spawns_walkers(),
    {
        !(self.hp > self.max_hp.saturating_sub(1))
    }
}

/// The more the boss is hurt, the faster it charges.
pub proof fn lemma_speed_grows_with_damage(a: Boss, b: Boss)
    requires
        a.max_hp == b.max_hp,
        b.hp <= a.hp,
    ensures
        a.spec_speed() <= b.spec_speed(),
{
}

/// A boss at full health summons no walkers; a hurt one does.
pub proof fn lemma_walkers_only_when_hurt(boss: Boss)
    requires
        boss.max_hp > 0,
    ensures
        boss.spec_spawns_walkers() <==> boss.hp < boss.max_hp,
{
}

/// The horizontal velocity the boss gets in its phase: its speed in the
/// charging direction, zero while paused, unchanged (`None`) in a jump.
pub open spec fn spec_boss_velocity(boss: Boss, phase: BossPhase) -> Option<int> {
    match phase {
        BossPhase::Charging { direction } => Some(direction.spec_sign() * boss.spec_speed()),
        BossPhase::PausedAtWall { .. } => Some(0),
        BossPhase::Jumping => None,
    }
}

pub fn boss_velocity(boss: &Boss, phase: BossPhase) -> (v: Option<i64>)
    ensures
        match v {
            Some(x) => spec_boss_velocity(*boss, phase) == Some(x as int),
            None => spec_boss_velocity(*boss, phase) is None,
        },
{
    match phase {
        BossPhase::Charging { direction } => {
            let s = boss.speed() as i64;
            match direction {
                Direction::Left => Some(-s),
                Direction::Right => Some(s),
            }
        },
        BossPhase::PausedAtWall { .. } => Some(0),
        BossPhase::Jumping => None,
    }
}

/// A charging boss moves at its speed (the base speed and a step per hit
/// point lost): rightward, positive, when charging right, leftward,
/// negative, when charging left; it stands still while it rests, and a jump
/// keeps the velocity it started with.
pub proof fn lemma_boss_velocity_follows_phase(boss: Boss, phase: BossPhase)
    ensures
        ({
            let lost: int = if boss.max_hp >= boss.hp { boss.max_hp - boss.hp } else { 0 };
            &&& phase == (BossPhase::Charging { direction: Direction::Right })
                ==> spec_boss_velocity(boss, phase) == Some(250 + 50 * lost)
            &&& phase == (BossPhase::Charging { direction: Direction::Left })
                ==> spec_boss_velocity(boss, phase) == Some(-(250 + 50 * lost))
            &&& phase is PausedAtWall ==> spec_boss_velocity(boss, phase) == Some(0int)
            &&& phase is Jumping ==> spec_boss_velocity(boss, phase) is None
        }),
{
}

/// What the engine sees of the boss in one step.
#[derive(Clone, Copy, Debug, PartialEq, Eq, Structural)]
pub struct BossSense {
    /// At or past the left wall of the arena.
    pub at_left_wall: bool,
    /// At or past the right wall of the arena.
    pub at_right_wall: bool,
    /// In the left half of the arena (the middle counts as left).
    pub in_left_half: bool,
    /// Near the ground (within 5 units) and not rising.
    pub landed: bool,
    /// Time since start-up, in nanoseconds; it decides whether a weakened
    /// boss jumps (one time in three).
    pub elapsed_nanos: u128,
}

/// What the engine has to do after a step of the boss.
#[derive(Clone, Copy, Debug, PartialEq, Eq, Structural)]
pub enum BossAction {
    Nothing,
    /// Give the boss this velocity.
    Jump { horizontal: i64, vertical: u32 },
    /// Spawn a shockwave under the boss, on the ground.
    Shockwave,
}

/// Toward the middle of the arena.
pub open spec fn toward_center(in_left_half: bool) -> Direction {
    if in_left_half {
        Direction::Right
    } else {
        Direction::Left
    }
}

/// The boss's behaviour over a step of `delta` nanoseconds: charge until
/// a wall, rest there for `BOSS_PAUSE_MILLIS`, then charge back toward the
/// middle; at its last hit point it sometimes jumps instead and makes a
/// shockwave where it lands.
pub open spec fn spec_boss_step(boss: Boss, phase: BossPhase, sense: BossSense, delta: u64) -> (BossPhase, BossAction) {
    match phase {
        BossPhase::Charging { direction } => {
            if sense.at_left_wall || sense.at_right_wall {
                (BossPhase::PausedAtWall { timer: pause_timer() }, BossAction::Nothing)
            } else {
                (phase, BossAction::Nothing)
            }
        },
        BossPhase::PausedAtWall { timer } => {
            let t = timer.spec_tick(delta);
            if t.just_finished {
                let d = toward_center(sense.in_left_half);
                if boss.hp == 1 && sense.elapsed_nanos % 3 == 0 {
                    (
                        BossPhase::Jumping,
                        BossAction::Jump {
                            horizontal: (d.spec_sign() * boss.spec_speed()) as i64,
                            vertical: BOSS_JUMP_VELOCITY,
                        },
                    )
                } else {
                    (BossPhase::Charging { direction: d }, BossAction::Nothing)
                }
            } else {
                (BossPhase::PausedAtWall { timer: t }, BossAction::Nothing)
            }
        },
        BossPhase::Jumping => {
            if sense.landed {
                (
                    BossPhase::Charging { direction: toward_center(sense.in_left_half) },
                    BossAction::Shockwave,
                )
            } else {
                (phase, BossAction::Nothing)
            }
        },
    }
}

/// The pause timer, if any, can take a tick of `delta` nanoseconds.
pub open spec fn can_tick(phase: BossPhase, delta: u64) -> bool {
    phase matches BossPhase::PausedAtWall { timer } ==> timer.fits_tick(delta)
}

/// Advances the boss's phase by a step of `delta_nanos` nanoseconds.
pub fn boss_step(boss: &Boss, phase: &mut BossPhase, sense: &BossSense, delta_nanos: u64) -> (action: BossAction)
    requires
        can_tick(*old(phase), delta_nanos),
    ensures
        (*final(phase), action) == spec_boss_step(*boss, *old(phase), *sense, delta_nanos),
{
    match *phase {
        BossPhase::Charging { direction: _ } => {
            if sense.at_left_wall || sense.at_right_wall {
                *phase = BossPhase::PausedAtWall {
                    timer: GameTimer::from_millis(BOSS_PAUSE_MILLIS, TimerMode::Once),
                };
            }
            BossAction::Nothing
        },
        BossPhase::PausedAtWall { timer } => {
            let mut t = timer;
            t.tick(delta_nanos);
            if t.just_finished {
                let d = if sense.in_left_half { Direction::Right } else { Direction::Left };
                if boss.hp == 1 && sense.elapsed_nanos % 3 == 0 {
                    *phase = BossPhase::Jumping;
                    let s = boss.speed() as i64;
                    let horizontal = match d {
                        Direction::Left => -s,
                        Direction::Right => s,
                    };
                    BossAction::Jump {
                        horizontal,
                        vertical: BOSS_JUMP_VELOCITY,
                    }
                } else {
                    *phase = BossPhase::Charging { direction: d };
                    BossAction::Nothing
                }
            } else {
                *phase = BossPhase::PausedAtWall { timer: t };
                BossAction::Nothing
            }
        },
        BossPhase::Jumping => {
            if sense.landed {
                let d = if sense.in_left_half { Direction::Right } else { Direction::Left };
                *phase = BossPhase::Charging { direction: d };
                BossAction::Shockwave
            } else {
                BossAction::Nothing
            }
        },
    }
}

/// A charging boss that reaches a wall rests there for the full pause.
pub proof fn lemma_wall_starts_full_pause(boss: Boss, direction: Direction, sense: BossSense, delta: u64)
    requires
        sense.at_left_wall || sense.at_right_wall,
    ensures
        spec_boss_step(boss, BossPhase::Charging { direction }, sense, delta).0
            == (BossPhase::PausedAtWall { timer: pause_timer() }),
        pause_timer().duration_nanos == 1_500_000_000,
{
}

/// A pause ends exactly in the step that takes its timer to the full
/// duration; until then the boss keeps resting.
pub proof fn lemma_pause_lasts_its_duration(boss: Boss, timer: GameTimer, sense: BossSense, delta: u64)
    requires
        timer.mode == TimerMode::Once,
        !timer.finished,
    ensures
        (spec_boss_step(boss, BossPhase::PausedAtWall { timer }, sense, delta).0 is PausedAtWall)
            <==> timer.elapsed_nanos + delta < timer.duration_nanos,
{
}

/// Only a boss at its last hit point ever jumps, and only out of a pause.
pub proof fn lemma_only_last_hit_point_jumps(boss: Boss, phase: BossPhase, sense: BossSense, delta: u64)
    requires
        spec_boss_step(boss, phase, sense, delta).0 == BossPhase::Jumping,
        phase != BossPhase::Jumping,
    ensures
        boss.hp == 1,
        phase is PausedAtWall,
        spec_boss_step(boss, phase, sense, delta).1 is Jump,
{
}

/// Leaving a pause or a jump, the boss always heads toward the middle:
/// right from the left half of the arena, left from the right half.
pub proof fn lemma_charges_toward_center(boss: Boss, phase: BossPhase, sense: BossSense, delta: u64)
    requires
        !(phase is Charging),
        spec_boss_step(boss, phase, sense, delta).0 is Charging,
    ensures
        spec_boss_step(boss, phase, sense, delta).0 == (BossPhase::Charging {
            direction: if sense.in_left_half { Direction::Right } else { Direction::Left },
        }),
{
}

/// A jump always heads for the middle of the arena at the boss's charging
/// speed (the base speed and a step per hit point lost): rightward, a
/// positive velocity, from the left half and leftward, a negative one,
/// from the right half; upward at `BOSS_JUMP_VELOCITY`. It comes only out
/// of a pause, at the last hit point, on a nanosecond count divisible by 3.
pub proof fn lemma_jump_heads_for_middle(boss: Boss, phase: BossPhase, sense: BossSense, delta: u64)
    requires
        spec_boss_step(boss, phase, sense, delta).1 is Jump,
    ensures
        ({
            let action = spec_boss_step(boss, phase, sense, delta).1;
            let lost: int = if boss.max_hp >= boss.hp { boss.max_hp - boss.hp } else { 0 };
            &&& action->horizontal == (if sense.in_left_half { 1int } else { -1int }) * (250 + 50 * lost)
            &&& sense.in_left_half ==> action->horizontal > 0
            &&& !sense.in_left_half ==> action->horizontal < 0
            &&& action->vertical == 600
            &&& spec_boss_step(boss, phase, sense, delta).0 == BossPhase::Jumping
            &&& phase is PausedAtWall
            &&& boss.hp == 1
            &&& sense.elapsed_nanos % 3 == 0
        }),
{
    let lost: int = if boss.max_hp >= boss.hp { boss.max_hp - boss.hp } else { 0 };
    assert(boss.spec_speed() == 250 + 50 * lost);
    assert(0 < boss.spec_speed() <= 250 + 50 * 0xffff_ffffint);
    let d = toward_center(sense.in_left_half);
    let v: int = d.spec_sign() * boss.spec_speed();
    if sense.in_left_half {
        assert(v == boss.spec_speed());
    } else {
        assert(v == -boss.spec_speed());
    }
    assert(i64::MIN <= v <= i64::MAX);
    assert((v as i64) as int == v);
}

/// What a stomp on the boss did.
#[derive(Clone, Copy, Debug, PartialEq, Eq, Structural)]
pub enum BossStomp {
    /// The boss is not resting at a wall and cannot be hurt.
    Immune,
    /// The boss lost a hit point and charges again, away from where it was
    /// hit (right if it stood left of the origin).
    Damaged,
    /// The boss lost its last hit point: the game is won.
    Defeated,
}

impl BossStomp {
    /// The screen a stomp leads to.
    pub open spec fn spec_next_state(self) -> Option<AppState> {
        match self {
            BossStomp::Defeated => Some(AppState::Victory),
            _ => None,
        }
    }
}

/// A stomp by a player landing on top of the boss. `left_of_origin` is true
/// when the boss stands left of x = 0. It hurts only while the boss rests
/// at a wall; it then costs a hit point (never below zero) and scores
/// `BOSS_STOMP_SCORE`.
pub fn stomp_boss(boss: &mut Boss, phase: &mut BossPhase, data: &mut GameData, left_of_origin: bool) -> (result: BossStomp)
    requires
        *old(phase) is PausedAtWall ==> old(data).score + BOSS_STOMP_SCORE <= u32::MAX,
    ensures
        !(*old(phase) is PausedAtWall) ==> {
            &&& result == BossStomp::Immune
            &&& *final(boss) == *old(boss)
            &&& *final(phase) == *old(phase)
            &&& final(data).score == old(data).score
        },
        *old(phase) is PausedAtWall ==> {
            &&& final(boss).hp == (if old(boss).hp > 0 { old(boss).hp - 1 } else { 0 })
            &&& final(data).score == old(data).score + BOSS_STOMP_SCORE
            &&& result == (if final(boss).hp == 0 { BossStomp::Defeated } else { BossStomp::Damaged })
            &&& *final(phase) == (if final(boss).hp == 0 {
                *old(phase)
            } else {
                BossPhase::Charging {
                    direction: if left_of_origin { Direction::Right } else { Direction::Left },
                }
            })
        },
        final(boss).max_hp == old(boss).max_hp,
        final(data).lives == old(data).lives,
        final(data).coins == old(data).coins,
        final(data).current_level == old(data).current_level,
{
    if !matches!(*phase, BossPhase::PausedAtWall { .. }) {
        return BossStomp::Immune;
    }
    boss.hp = boss.hp.saturating_sub(1);
    data.score = data.score + BOSS_STOMP_SCORE;
    if boss.hp == 0 {
        BossStomp::Defeated
    } else {
        *phase = BossPhase::Charging {
            direction: if left_of_origin { Direction::Right } else { Direction::Left },
        };
        BossStomp::Damaged
    }
}

/// Hit points left after `k` stomps that land while the boss rests.
pub open spec fn hp_after_stomps(hp: u32, k: nat) -> u32
    decreases k,
{
    if k == 0 {
        hp
    } else {
        let h = hp_after_stomps(hp, (k - 1) as nat);
        if h > 0 {
            (h - 1) as u32
        } else {
            0
        }
    }
}

/// Each landed stomp costs exactly one hit point, so a boss with `hp` hit
/// points is defeated by the `hp`-th landed stomp and not before.
pub proof fn lemma_stomps_to_defeat(hp: u32, k: nat)
    ensures
        hp_after_stomps(hp, k) == (if k >= hp { 0 } else { hp - k }),
        hp_after_stomps(hp, k) == 0 <==> k >= hp,
    decreases k,
{
    if k > 0 {
        lemma_stomps_to_defeat(hp, (k - 1) as nat);
    }
}

/// The clock of a fresh walker summoning cycle.
pub open spec fn walker_timer() -> GameTimer {
    GameTimer {
        mode: TimerMode::Repeating,
        duration_nanos: (WALKER_SPAWN_INTERVAL_MILLIS * NANOS_PER_MILLI) as u64,
        elapsed_nanos: 0,
        finished: false,
        just_finished: false,
    }
}

/// One step of the walker summoning for one boss. A boss at full health
/// leaves the clock alone and summons nothing. A hurt boss starts the clock
/// if it is not running, advances it by `delta_nanos`, and summons a walker
/// each time a `WALKER_SPAWN_INTERVAL_MILLIS` cycle completes, on the side
/// given by `walker_spawn_side`.
pub fn walker_spawn_step(clock: &mut Option<GameTimer>, boss: &Boss, delta_nanos: u64, elapsed_nanos: u128) -> (side: Option<Direction>)
    requires
        boss.spec_spawns_walkers() ==> (*old(clock) matches Some(t) ==> t.fits_tick(delta_nanos)),
    ensures
        !boss.spec_spawns_walkers() ==> *final(clock) == *old(clock) && side is None,
        boss.spec_spawns_walkers() ==> {
            let t = match *old(clock) {
                Some(t) => t,
                None => walker_timer(),
            }.spec_tick(delta_nanos);
            &&& *final(clock) == Some(t)
            &&& side == (if t.just_finished {
                Some(spec_walker_spawn_side(elapsed_nanos))
            } else {
                None::<Direction>
            })
        },
{
    if !boss.spawns_walkers() {
        return None;
    }
    let mut t = match *clock {
        Some(t) => t,
        None => GameTimer::from_millis(WALKER_SPAWN_INTERVAL_MILLIS, TimerMode::Repeating),
    };
    t.tick(delta_nanos);
    *clock = Some(t);
    if t.just_finished {
        Some(walker_spawn_side(elapsed_nanos))
    } else {
        None
    }
}

/// Which side of the arena a new walker appears on.
pub open spec fn spec_walker_spawn_side(elapsed_nanos: u128) -> Direction {
    if elapsed_nanos % 2 == 0 {
        Direction::Left
    } else {
        Direction::Right
    }
}

/// Summoned walkers alternate sides from one nanosecond count to the next,
/// starting at the left wall on even counts.
pub proof fn lemma_walker_sides_alternate(elapsed_nanos: u128)
    requires
        elapsed_nanos < u128::MAX,
    ensures
        elapsed_nanos % 2 == 0 ==> spec_walker_spawn_side(elapsed_nanos) == Direction::Left,
        elapsed_nanos % 2 == 1 ==> spec_walker_spawn_side(elapsed_nanos) == Direction::Right,
        spec_walker_spawn_side(elapsed_nanos) != spec_walker_spawn_side((elapsed_nanos + 1) as u128),
{
}

/// New walkers appear at the left wall on even nanosecond counts and at
/// the right wall on odd ones.
pub fn walker_spawn_side(elapsed_nanos: u128) -> (side: Direction)
    ensures
        side == spec_walker_spawn_side(elapsed_nanos),
{
    if elapsed_nanos % 2 == 0 {
        Direction::Left
    } else {
        Direction::Right
    }
}

} // verus!
