//! The simulation core of a side-scrolling game of guided missiles.
//!
//! Cannons launch missiles that home in on the nearest player, detonate on
//! contact with anything solid and push nearby bodies away. The world's bodies
//! are plain records; quantities are fixed-point integers (see [`fixed`]).

pub mod animating;
pub mod cannon;
pub mod collision;
pub mod door;
pub mod explosion;
pub mod fixed;
pub mod force;
pub mod impact;
pub mod level;
pub mod menu;
pub mod missile;
pub mod player;
pub mod player_controls;
pub mod state;
pub mod timer;
