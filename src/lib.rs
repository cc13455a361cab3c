//! A chessboard with a pseudo-legal move checker: piece geometry, ray walks
//! for sliding pieces and pawn occupancy rules, over a board that indexes its
//! pieces both by square and by piece slot.

pub mod pos;
pub mod piece;
pub mod board;
