//! Game rules of a top-down RPG: steering the hero from the arrow keys,
//! stepping and choosing its sprite animations, firing lasers, laying out
//! an ASCII tile map, and the phases the game goes through.

pub mod components;

pub mod animation;
pub mod player;
pub mod tilemap;
pub mod states;
