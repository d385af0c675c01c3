use vstd::prelude::*;

verus! {

/// The screens of the game.
#[derive(Clone, Copy, Debug, PartialEq, Eq, Hash, Structural)]
pub enum AppState {
    MainMenu,
    Loading,
    Playing,
    Paused,
    LevelComplete,
    GameOver,
    Victory,
}

impl Default for AppState {
    fn default() -> (s: Self)
        ensures
            s == AppState::MainMenu,
    {
        AppState::MainMenu
    }
}

/// The phase of play inside `AppState::Playing`.
#[derive(Clone, Copy, Debug, PartialEq, Eq, Hash, Structural)]
pub enum GamePhase {
    Active,
    Dying,
}

impl Default for GamePhase {
    fn default() -> (p: Self)
        ensures
            p == GamePhase::Active,
    {
        GamePhase::Active
    }
}

/// Where the menus lead: Space leaves the main menu, the game-over and
/// victory screens and the level-complete screen, and resumes a paused
/// game; Escape pauses a running game.
pub open spec fn spec_menu_transition(state: AppState, space: bool, escape: bool) -> Option<AppState> {
    match state {
        AppState::MainMenu => if space { Some(AppState::Loading) } else { None },
        AppState::Paused => if space { Some(AppState::Playing) } else { None },
        AppState::GameOver => if space { Some(AppState::MainMenu) } else { None },
        AppState::LevelComplete => if space { Some(AppState::Loading) } else { None },
        AppState::Victory => if space { Some(AppState::MainMenu) } else { None },
        AppState::Playing => if escape { Some(AppState::Paused) } else { None },
        AppState::Loading => None,
    }
}

/// The screen a menu key press leads to from `state`, if any.
/// `space` and `escape` are true in the frame the key went down.
pub fn menu_transition(state: AppState, space: bool, escape: bool) -> (next: Option<AppState>)
    ensures
        next == spec_menu_transition(state, space, escape),
        !space && !escape ==> next is None,
        state != AppState::Playing && !space ==> next is None,
        state == AppState::Playing ==> next == (if escape { Some(AppState::Paused) } else { None::<AppState> }),
{
    match state {
        AppState::MainMenu => if space { Some(AppState::Loading) } else { None },
        AppState::Paused => if space { Some(AppState::Playing) } else { None },
        AppState::GameOver => if space { Some(AppState::MainMenu) } else { None },
        AppState::LevelComplete => if space { Some(AppState::Loading) } else { None },
        AppState::Victory => if space { Some(AppState::MainMenu) } else { None },
        AppState::Playing => if escape { Some(AppState::Paused) } else { None },
        AppState::Loading => None,
    }
}

/// Pausing a running game and pressing Space brings it back to play.
pub proof fn lemma_pause_then_resume(space_while_playing: bool)
    ensures
        spec_menu_transition(AppState::Playing, space_while_playing, true) == Some(AppState::Paused),
        spec_menu_transition(AppState::Paused, true, false) == Some(AppState::Playing),
{
}

/// From every screen but loading and play, Space leads on; whatever ends a
/// run (game over, victory) leads back to the main menu, and starting or
/// continuing leads to loading.
pub proof fn lemma_space_leaves_every_menu(state: AppState)
    requires
        state != AppState::Loading,
        state != AppState::Playing,
    ensures
        spec_menu_transition(state, true, false) is Some,
        (state == AppState::GameOver || state == AppState::Victory)
            ==> spec_menu_transition(state, true, false) == Some(AppState::MainMenu),
        (state == AppState::MainMenu || state == AppState::LevelComplete)
            ==> spec_menu_transition(state, true, false) == Some(AppState::Loading),
{
}

/// Without a key press no screen changes. Escape matters only in play,
/// where it pauses; every other screen waits for Space, and the loading
/// screen moves on by itself, never on a key.
pub proof fn lemma_screens_wait_for_a_key(state: AppState, space: bool, escape: bool)
    ensures
        spec_menu_transition(state, false, false) is None,
        state != AppState::Playing && !space ==> spec_menu_transition(state, space, escape) is None,
        state != AppState::Playing ==> spec_menu_transition(state, space, escape)
            == spec_menu_transition(state, space, false),
        state == AppState::Playing ==> spec_menu_transition(state, space, escape) == (if escape {
            Some(AppState::Paused)
        } else {
            None::<AppState>
        }),
        spec_menu_transition(AppState::Loading, space, escape) is None,
        spec_menu_transition(state, space, escape) matches Some(next) ==> next != state,
{
}

/// Points for a collected coin.
pub const COIN_SCORE: u32 = 100;

/// Points for stomping an ordinary enemy.
pub const STOMP_SCORE: u32 = 200;

/// Points for stomping the boss.
pub const BOSS_STOMP_SCORE: u32 = 500;

/// Progress of the current run.
#[derive(Clone, Debug)]
pub struct GameData {
    pub current_level: String,
    pub lives: u32,
    pub score: u32,
    pub coins: u32,
}

impl Default for GameData {
    /// A fresh run: level "1-1", three lives, no score, no coins.
    fn default() -> (d: Self)
        ensures
            d.current_level@ == "1-1"@,
            d.lives == 3,
            d.score == 0,
            d.coins == 0,
    {
        GameData { current_level: String::from_str("1-1"), lives: 3, score: 0, coins: 0 }
    }
}

/// What losing a life leads to.
#[derive(Clone, Copy, Debug, PartialEq, Eq, Structural)]
pub enum LifeLoss {
    /// Lives remain: the player dies and respawns.
    Dying,
    /// No lives are left.
    GameOver,
}

impl LifeLoss {
    /// The state change that goes with it: the whole game goes to the
    /// game-over screen, or the play phase goes to dying.
    pub open spec fn spec_target(self) -> (Option<AppState>, Option<GamePhase>) {
        match self {
            LifeLoss::GameOver => (Some(AppState::GameOver), None),
            LifeLoss::Dying => (None, Some(GamePhase::Dying)),
        }
    }
}

impl GameData {
    /// Takes a life if one is left; the run is over once none is left.
    pub fn lose_life(&mut self) -> (outcome: LifeLoss)
        ensures
            final(self).lives == (if old(self).lives > 0 { old(self).lives - 1 } else { 0 }),
            final(self).score == old(self).score,
            final(self).coins == old(self).coins,
            final(self).current_level == old(self).current_level,
            outcome == (if final(self).lives == 0 { LifeLoss::GameOver } else { LifeLoss::Dying }),
    {
        if self.lives > 0 {
            self.lives = self.lives - 1;
        }
        if self.lives == 0 {
            LifeLoss::GameOver
        } else {
            LifeLoss::Dying
        }
    }

    /// The run after one more coin: one coin more and `COIN_SCORE` points
    /// more, the rest as it was.
    pub open spec fn spec_collect_coin(self) -> GameData {
        GameData { coins: (self.coins + 1) as u32, score: (self.score + COIN_SCORE) as u32, ..self }
    }

    /// The run after `k` more coins, one at a time.
    pub open spec fn after_coins(self, k: nat) -> GameData
        decreases k,
    {
        if k == 0 {
            self
        } else {
            self.after_coins((k - 1) as nat).spec_collect_coin()
        }
    }

    /// Counts a collected coin and its points.
    pub fn collect_coin(&mut self)
        requires
            old(self).coins < u32::MAX,
            old(self).score + COIN_SCORE <= u32::MAX,
        ensures
            *final(self) == old(self).spec_collect_coin(),
            final(self).coins == old(self).coins + 1,
            final(self).score == old(self).score + COIN_SCORE,
            final(self).lives == old(self).lives,
            final(self).current_level == old(self).current_level,
    {
        self.coins = self.coins + 1;
        self.score = self.score + COIN_SCORE;
    }

    /// Awards the points for a stomped enemy.
    pub fn stomp_enemy(&mut self)
        requires
            old(self).score + STOMP_SCORE <= u32::MAX,
        ensures
            final(self).score == old(self).score + STOMP_SCORE,
            final(self).coins == old(self).coins,
            final(self).lives == old(self).lives,
            final(self).current_level == old(self).current_level,
    {
        self.score = self.score + STOMP_SCORE;
    }
}

/// Collecting `k` coins in a frame, one call each, adds `k` coins and
/// `COIN_SCORE` points per coin and leaves lives and level alone.
pub proof fn lemma_coins_add_up(d: GameData, k: nat)
    requires
        d.coins + k <= u32::MAX,
        d.score + COIN_SCORE * k <= u32::MAX,
    ensures
        d.after_coins(k).coins == d.coins + k,
        d.after_coins(k).score == d.score + COIN_SCORE * k,
        d.after_coins(k).lives == d.lives,
        d.after_coins(k).current_level == d.current_level,
    decreases k,
{
    if k > 0 {
        lemma_coins_add_up(d, (k - 1) as nat);
    }
}

/// Lives lost since a run started with `initial` lives, counting a gain as
/// no loss.
pub fn lives_lost(initial: u32, current: u32) -> (lost: u32)
    ensures
        lost == (if initial >= current { initial - current } else { 0 }),
{
    initial.saturating_sub(current)
}

} // verus!
