//! Rules engine of a falling-block puzzle game: board, pieces, collision,
//! rotation with wall kicks, piece sequencing, timers, line clearing and scoring.

pub mod transform;
pub mod tetromino;
pub mod tile;
pub mod limit;
pub mod generator;
pub mod input;
pub mod game;
