//! A lunar lander to be landed by a small neural network.
//!
//! The library holds what is decided and counted in the game and in the
//! training of the network: which engine an action fires and with which
//! signs it acts on the body ([`engine`]), how a step is rewarded and when an
//! episode ends ([`game`]), which slot a thrust particle goes into and how
//! long it lives ([`particles`]), how the layers of a network are chained
//! and fed on the way forward and back ([`model`]), and when the training
//! loop applies gradients and refreshes its target ([`train`]).
//!
//! Positions, velocities, weights and gradients are numbers of the caller:
//! the body is integrated and the layers compute in the caller's own
//! arithmetic, and the library is handed what was measured.

pub mod debug;
pub mod engine;
pub mod game;
pub mod model;
pub mod particles;
pub mod train;
