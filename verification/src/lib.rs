//! Simulation core of a help-desk idle game.
//!
//! A player works through a queue of support tickets, earns cash and
//! experience for every ticket closed, and spends both on permanent upgrades
//! that raise the earning rates or automate whole classes of tickets.

pub mod catalog;
pub mod currency;
pub mod game;
pub mod laws;
pub mod multiplier;
mod random;
pub mod rules;
pub mod ticket;
pub mod upgrade;
