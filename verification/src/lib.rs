//! Interaction targeting and pointer picking for a small 2D office world.
//!
//! Each tick the library decides which object the player stands close enough
//! to act on and which object the pointer hovers, applies the player's action
//! to the targeted object, and updates the state of the widgets that show all
//! this. Positions are whole world units; every decision is exact integer
//! arithmetic.
//!
//! Beside the simulation stand a number-guessing game and a few small
//! exercises on integers and strings.

pub mod components;
pub mod entity;
pub mod geometry;
pub mod guessing_game;
pub mod gui;
pub mod laws;
pub mod mouse_event;
pub mod player;
pub mod practice;
pub mod simulation;
pub mod targeting;
