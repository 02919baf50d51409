//! Simulation core of a Breakout-style arcade game.
//!
//! A ball bounces inside a walled arena, a paddle that the player moves
//! turns it back, and each brick that the ball strikes is destroyed and
//! scored. This crate holds what the game decides; drawing, input devices
//! and the integration of rigid bodies belong to the program around it. That
//! program hands each tick a [`game::Frame`]: the keys held down, the time
//! that has passed, the bodies created, the contacts that began, and where
//! the ball and the paddle are. It gets back [`game::Commands`]: the
//! velocity to give the ball, the position to move the paddle to, and the
//! bodies to remove.
//!
//! All quantities are integers in fixed point (see [`units`]), so that a tick
//! is exact and every statement about it can be proved.
//!
//! The modules, from the leaves up:
//!
//! - [`units`]: velocities and their reflection.
//! - [`state`]: the game-state machine.
//! - [`registry`]: which entity owns which physics body.
//! - [`world`]: which entities are alive and what each of them is.
//! - [`contact`]: contact events read as meetings of the ball with an obstacle.
//! - [`resolver`]: the response to each contact.
//! - [`ball`], [`paddle`]: the two controllers.
//! - [`hud`]: the score and the prompt.
//! - [`layout`]: the bodies that a session starts with.
//! - [`game`]: the game as a whole and the order of a tick.

pub mod ball;
pub mod contact;
pub mod game;
pub mod hud;
pub mod layout;
pub mod paddle;
pub mod registry;
pub mod resolver;
pub mod state;
pub mod units;
pub mod world;
