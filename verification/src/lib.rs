//! Game rules of a small side-scrolling platformer: input handling, player
//! movement intent, damage and power-ups, scoring, the boss fight, enemy
//! patrols, moving platforms, level object tagging, menus, replays and the
//! scripted bots that can drive the player.
//!
//! Everything here works on plain values. The engine side (entities,
//! physics, floating-point positions, rendering, files) lives in the
//! application around this library and hands the rules the facts they need;
//! frame timers are ticked here, through the engine's own timer.

pub mod input;
pub mod bot;
pub mod timer;
pub mod state;
pub mod player;
pub mod items;
pub mod boss;
pub mod enemy;
pub mod platforms;
pub mod level;
pub mod replay;
pub mod text;
