//! A falling-block puzzle engine: the seven tetrominoes, a playfield that
//! remembers settled blocks, collision testing, locking, line clearing and
//! the per-frame session logic, all with machine-checked contracts. Beside
//! it stand the rules of three small table games.

pub mod chance;
pub mod chess;
pub mod colors;
pub mod tetromino;
pub mod playfield;
pub mod state;
pub mod tetris;
pub mod laws;
pub mod nim;
pub mod rps;
pub mod text;
