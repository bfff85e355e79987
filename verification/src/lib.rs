//! Depth-bounded adversarial search for two-player, zero-sum games of
//! perfect information, with the games it is played on.

pub mod action;
pub mod components;
pub mod games;
pub mod minimax;
pub mod plugins;
pub mod session;
