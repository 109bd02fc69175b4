//! Tests of the move codec: encoding ambiguous moves to SAN text and
//! decoding SAN tokens back.

use unchess_lib::enums::{AmbiguousMove, CastlingSide, MoveAction, PieceKind};
use unchess_lib::error::ChessError;
use unchess_lib::simple_types::SimpleSquare;

fn normal(
    piece_kind: PieceKind,
    src_file: Option<u8>,
    src_rank: Option<u8>,
    takes: bool,
    dest: (u8, u8),
    promote_to: Option<PieceKind>,
    action: Option<MoveAction>,
) -> AmbiguousMove {
    AmbiguousMove::Normal {
        piece_kind,
        src_file,
        src_rank,
        takes,
        dest: SimpleSquare::new(dest.0, dest.1),
        promote_to,
        action,
    }
}

#[test]
fn encode_knight_capture_with_file_disambiguation() {
    // Knight from the c-file takes on f3: letter, disambiguation, 'x', dest.
    let m = normal(PieceKind::Knight, Some(2), None, true, (5, 2), None, None);
    assert_eq!(m.as_pgn_str(), "Ncxf3");
}

#[test]
fn encode_pawn_move_omits_letter() {
    let m = normal(PieceKind::Pawn, None, None, false, (4, 3), None, None);
    assert_eq!(m.as_pgn_str(), "e4");
}

#[test]
fn encode_non_pawn_always_has_letter() {
    let m = normal(PieceKind::Rook, None, None, false, (0, 0), None, None);
    assert_eq!(m.as_pgn_str(), "Ra1");
    let k = normal(PieceKind::King, None, None, false, (4, 0), None, None);
    assert_eq!(k.as_pgn_str(), "Ke1");
}

#[test]
fn encode_promotion_capture_mate() {
    let m = normal(
        PieceKind::Pawn,
        Some(4),
        None,
        true,
        (3, 7),
        Some(PieceKind::Queen),
        Some(MoveAction::Checkmate),
    );
    assert_eq!(m.as_pgn_str(), "exd8=Q#");
}

#[test]
fn encode_castles() {
    let ks = AmbiguousMove::Castle { side: CastlingSide::KingSide };
    let qs = AmbiguousMove::Castle { side: CastlingSide::QueenSide };
    assert_eq!(ks.as_pgn_str(), "O-O");
    assert_eq!(qs.as_pgn_str(), "O-O-O");
}

#[test]
fn encode_full_disambiguation() {
    let m = normal(PieceKind::Pawn, Some(4), Some(1), false, (4, 3), None, None);
    assert_eq!(m.as_pgn_str(), "e2e4");
}

#[test]
fn decode_pawn_push() {
    assert_eq!(
        AmbiguousMove::from_pgn_str("e4"),
        Ok(normal(PieceKind::Pawn, None, None, false, (4, 3), None, None))
    );
}

#[test]
fn decode_queen_check() {
    assert_eq!(
        AmbiguousMove::from_pgn_str("Qh5+"),
        Ok(normal(
            PieceKind::Queen,
            None,
            None,
            false,
            (7, 4),
            None,
            Some(MoveAction::Check)
        ))
    );
}

#[test]
fn decode_promotion_capture_mate() {
    assert_eq!(
        AmbiguousMove::from_pgn_str("exd8=Q#"),
        Ok(normal(
            PieceKind::Pawn,
            Some(4),
            None,
            true,
            (3, 7),
            Some(PieceKind::Queen),
            Some(MoveAction::Checkmate)
        ))
    );
}

#[test]
fn decode_castles_longest_match() {
    // "O-O-O" is a queen-side castle, never "O-O" plus garbage; "O-O" is a
    // king-side castle, never a truncated queen-side one.
    assert_eq!(
        AmbiguousMove::from_pgn_str("O-O-O"),
        Ok(AmbiguousMove::Castle { side: CastlingSide::QueenSide })
    );
    assert_eq!(
        AmbiguousMove::from_pgn_str("O-O"),
        Ok(AmbiguousMove::Castle { side: CastlingSide::KingSide })
    );
}

#[test]
fn decode_castle_with_trailing_glyph_discards_annotation() {
    assert_eq!(
        AmbiguousMove::from_pgn_str("O-O-O#"),
        Ok(AmbiguousMove::Castle { side: CastlingSide::QueenSide })
    );
    assert_eq!(
        AmbiguousMove::from_pgn_str("O-O+"),
        Ok(AmbiguousMove::Castle { side: CastlingSide::KingSide })
    );
}

#[test]
fn decode_rejects_malformed_destination() {
    assert_eq!(
        AmbiguousMove::from_pgn_str("Kx9"),
        Err(ChessError::InvalidPGN(String::from("Kx9")))
    );
}

#[test]
fn decode_rejects_king_and_pawn_promotion() {
    assert_eq!(
        AmbiguousMove::from_pgn_str("e8=K"),
        Err(ChessError::InvalidPGN(String::from("e8=K")))
    );
    assert_eq!(
        AmbiguousMove::from_pgn_str("e8=P"),
        Err(ChessError::InvalidPGN(String::from("e8=P")))
    );
    assert_eq!(
        AmbiguousMove::from_pgn_str("exd8=K#"),
        Err(ChessError::InvalidPGN(String::from("exd8=K#")))
    );
}

#[test]
fn decode_accepts_promotable_targets() {
    for (text, kind) in [
        ("e8=Q", PieceKind::Queen),
        ("e8=R", PieceKind::Rook),
        ("e8=B", PieceKind::Bishop),
        ("e8=N", PieceKind::Knight),
    ] {
        assert_eq!(
            AmbiguousMove::from_pgn_str(text),
            Ok(normal(PieceKind::Pawn, None, None, false, (4, 7), Some(kind), None))
        );
    }
}

#[test]
fn decode_rejects_garbage_and_carries_input() {
    assert_eq!(
        AmbiguousMove::from_pgn_str("zz"),
        Err(ChessError::InvalidPGN(String::from("zz")))
    );
    assert_eq!(
        AmbiguousMove::from_pgn_str(""),
        Err(ChessError::InvalidPGN(String::from("")))
    );
    assert_eq!(
        AmbiguousMove::from_pgn_str("O-O-O-O"),
        Err(ChessError::InvalidPGN(String::from("O-O-O-O")))
    );
    assert_eq!(
        AmbiguousMove::from_pgn_str("e4extra"),
        Err(ChessError::InvalidPGN(String::from("e4extra")))
    );
}

#[test]
fn decode_accepts_explicit_pawn_letter() {
    // The grammar is liberal: an explicit 'P' prefix parses, though the
    // encoder never writes one.
    assert_eq!(
        AmbiguousMove::from_pgn_str("Pe4"),
        Ok(normal(PieceKind::Pawn, None, None, false, (4, 3), None, None))
    );
}

#[test]
fn round_trip_samples() {
    let samples = [
        normal(PieceKind::Pawn, None, None, false, (4, 3), None, None),
        normal(PieceKind::Knight, Some(2), None, true, (5, 2), None, None),
        normal(PieceKind::Queen, None, Some(0), false, (7, 7), None, Some(MoveAction::Check)),
        normal(
            PieceKind::Pawn,
            Some(0),
            None,
            true,
            (1, 7),
            Some(PieceKind::Knight),
            Some(MoveAction::Checkmate),
        ),
        normal(PieceKind::Pawn, Some(4), Some(1), true, (4, 3), None, None),
        normal(PieceKind::King, None, None, false, (0, 0), None, None),
        AmbiguousMove::Castle { side: CastlingSide::KingSide },
        AmbiguousMove::Castle { side: CastlingSide::QueenSide },
    ];
    for m in samples {
        assert_eq!(AmbiguousMove::from_pgn_str(m.as_pgn_str().as_str()), Ok(m));
    }
}

#[test]
fn square_as_str() {
    assert_eq!(SimpleSquare::new(0, 0).as_str(), "a1");
    assert_eq!(SimpleSquare::new(4, 3).as_str(), "e4");
    assert_eq!(SimpleSquare::new(7, 7).as_str(), "h8");
}
