//! Core simulation of a tick-driven arcade shooter: a player ship fights
//! waves of enemies on an 80x50 grid. This crate holds the verified game
//! logic (entities, collision and combat resolution, wave spawning, timers,
//! and the mode state machine); rendering and input polling live outside.

pub mod combat;
pub mod entities;
pub mod laws;
mod rng;
pub mod state;

pub use entities::{Ability, Bullet, Enemy, EnemyType, Player, Weapon};
pub use state::{GameMode, Key, State};
