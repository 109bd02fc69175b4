//! A syntactic codec for chess moves in SAN (standard algebraic notation),
//! the move-token format of PGN game records.
//!
//! The crate models the closed chess vocabulary (piece kind and colour,
//! board outcome, move annotation, castling side) and the ambiguous move:
//! a move exactly as a SAN token spells it, before board-state resolution
//! picks the concrete piece. It converts ambiguous moves to canonical SAN
//! text and back, rejecting malformed tokens deterministically.

pub mod enums;
pub mod error;
pub mod notation;
pub mod parser;
pub mod simple_types;
mod strutil;
