//! A two-player game on a 3x3 grid: the board, the rules of play, winner
//! detection and the parsing of a move typed on the console.

pub mod board;
pub mod game;
pub mod moves;
