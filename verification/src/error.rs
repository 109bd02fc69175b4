//! Error values produced by the notation codec.

use vstd::prelude::*;

use crate::enums::BoardState;

verus! {

/// A failure of one of the partial conversions in this crate.
///
/// Every partial operation reports its failure as a value; nothing in this
/// crate panics or recovers. Errors propagate to the caller unchanged.
#[derive(Debug, Clone, PartialEq, Eq)]
pub enum ChessError {
    /// A piece of SAN text (a whole token, or a single character) that does
    /// not parse. Carries the offending text for diagnostics.
    InvalidPGN(String),
    /// A board state with no move-annotation glyph (`Normal` or `Stalemate`)
    /// was converted towards a `MoveAction`. Carries the rejected state.
    NotAction(BoardState),
}

} // verus!
