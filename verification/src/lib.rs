//! A compact chess position core: 64-bit bitboards, a packed move
//! encoding, a FEN codec, and a side-agnostic transition function
//! that applies one move by always working from the mover's
//! perspective (the board is mirrored after every ply).

pub mod bitboard;
pub mod bits;
pub mod castling;
pub mod constants;
pub mod fen;
pub mod position;
pub mod types;
pub mod utils;
