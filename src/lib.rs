//! Tic-tac-toe for two players: the board, the hot-seat turn machine, the
//! networked session controller, and the reading of what users type and of
//! what travels on the network.

pub mod common;
pub mod game;
pub mod parse;
pub mod session;
pub mod state_machine;
pub mod wire;
