//! A two-player tic-tac-toe client core: the board and its win check, the
//! wire codec, the round reset timer and the session state machine that
//! merges inbound messages, local clicks and timer ticks.

pub mod board;
pub mod json;
pub mod protocol;
pub mod session;
pub mod timer;
