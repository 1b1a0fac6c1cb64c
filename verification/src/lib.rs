//! A minimal on-chain tic-tac-toe game, written as a verified library.
//!
//! The library holds the whole game logic: the board, turn alternation and
//! win detection, together with the two instruction handlers that a host
//! runtime dispatches to. Everything the handlers decide is stated in their
//! contracts and proved.

pub mod errors;
pub mod instructions;
pub mod state;
