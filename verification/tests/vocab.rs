//! Tests of the domain vocabulary: colours, piece kinds, board states,
//! move actions and castling sides.

use unchess_lib::enums::{BoardState, CastlingSide, MoveAction, PieceColour, PieceKind};
use unchess_lib::error::ChessError;
use unchess_lib::notation::{char_to_file, char_to_rank, file_to_char, rank_to_char};

#[test]
fn colour_negate_swaps() {
    assert_eq!(PieceColour::Black.negate(), PieceColour::White);
    assert_eq!(PieceColour::White.negate(), PieceColour::Black);
}

#[test]
fn colour_negate_involutive() {
    assert_eq!(PieceColour::Black.negate().negate(), PieceColour::Black);
    assert_eq!(PieceColour::White.negate().negate(), PieceColour::White);
}

#[test]
fn piece_kind_to_char_all() {
    assert_eq!(PieceKind::King.to_char(), 'K');
    assert_eq!(PieceKind::Queen.to_char(), 'Q');
    assert_eq!(PieceKind::Bishop.to_char(), 'B');
    assert_eq!(PieceKind::Knight.to_char(), 'N');
    assert_eq!(PieceKind::Rook.to_char(), 'R');
    assert_eq!(PieceKind::Pawn.to_char(), 'P');
}

#[test]
fn piece_kind_from_char_all() {
    assert_eq!(PieceKind::from_char('K'), Ok(PieceKind::King));
    assert_eq!(PieceKind::from_char('Q'), Ok(PieceKind::Queen));
    assert_eq!(PieceKind::from_char('B'), Ok(PieceKind::Bishop));
    assert_eq!(PieceKind::from_char('N'), Ok(PieceKind::Knight));
    assert_eq!(PieceKind::from_char('R'), Ok(PieceKind::Rook));
    assert_eq!(PieceKind::from_char('P'), Ok(PieceKind::Pawn));
}

#[test]
fn piece_kind_from_char_rejects_others() {
    assert_eq!(
        PieceKind::from_char('k'),
        Err(ChessError::InvalidPGN(String::from("k")))
    );
    assert_eq!(
        PieceKind::from_char('Z'),
        Err(ChessError::InvalidPGN(String::from("Z")))
    );
    assert_eq!(
        PieceKind::from_char('+'),
        Err(ChessError::InvalidPGN(String::from("+")))
    );
}

#[test]
fn action_to_char_glyphs() {
    assert_eq!(MoveAction::Check.to_char(), '+');
    assert_eq!(MoveAction::Checkmate.to_char(), '#');
}

#[test]
fn action_to_state_total() {
    assert_eq!(MoveAction::Check.to_state(), BoardState::Check);
    assert_eq!(MoveAction::Checkmate.to_state(), BoardState::Checkmate);
}

#[test]
fn state_to_action_partial() {
    assert_eq!(BoardState::Check.to_action(), Ok(MoveAction::Check));
    assert_eq!(BoardState::Checkmate.to_action(), Ok(MoveAction::Checkmate));
    assert_eq!(
        BoardState::Normal.to_action(),
        Err(ChessError::NotAction(BoardState::Normal))
    );
    assert_eq!(
        BoardState::Stalemate.to_action(),
        Err(ChessError::NotAction(BoardState::Stalemate))
    );
}

#[test]
fn state_to_action_inverts_action_to_state() {
    assert_eq!(MoveAction::Check.to_state().to_action(), Ok(MoveAction::Check));
    assert_eq!(
        MoveAction::Checkmate.to_state().to_action(),
        Ok(MoveAction::Checkmate)
    );
}

#[test]
fn castling_side_as_str() {
    assert_eq!(CastlingSide::KingSide.as_str(), "O-O");
    assert_eq!(CastlingSide::QueenSide.as_str(), "O-O-O");
}

#[test]
fn file_chars_round_trip() {
    assert_eq!(file_to_char(0), Some('a'));
    assert_eq!(file_to_char(2), Some('c'));
    assert_eq!(file_to_char(7), Some('h'));
    assert_eq!(file_to_char(8), None);
    assert_eq!(char_to_file('a'), Some(0));
    assert_eq!(char_to_file('h'), Some(7));
    assert_eq!(char_to_file('i'), None);
    assert_eq!(char_to_file('A'), None);
}

#[test]
fn rank_chars_round_trip() {
    assert_eq!(rank_to_char(0), Some('1'));
    assert_eq!(rank_to_char(7), Some('8'));
    assert_eq!(rank_to_char(8), None);
    assert_eq!(char_to_rank('1'), Some(0));
    assert_eq!(char_to_rank('8'), Some(7));
    assert_eq!(char_to_rank('9'), None);
    assert_eq!(char_to_rank('0'), None);
}
