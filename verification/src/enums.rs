//! The closed chess vocabulary: piece colour and kind, board outcome,
//! move annotation, and castling side, with their character encodings.

use vstd::prelude::*;

use crate::error::ChessError;
use crate::notation::{is_file_char, is_rank_char};
use crate::simple_types::SimpleSquare;
use crate::strutil::char_to_string;

verus! {

/// Colour of a piece.
#[derive(Debug, Copy, Clone, PartialEq, Eq, PartialOrd, Ord, Hash)]
pub enum PieceColour {
    /// The black side.
    Black,
    /// The white side.
    White,
}

/// The colour opposite to `c`.
pub open spec fn colour_negate(c: PieceColour) -> PieceColour {
    match c {
        PieceColour::Black => PieceColour::White,
        PieceColour::White => PieceColour::Black,
    }
}

impl PieceColour {
    /// The opposite colour.
    pub fn negate(self) -> (r: PieceColour)
        ensures
            r == colour_negate(self),
    {
        match self {
            PieceColour::Black => PieceColour::White,
            PieceColour::White => PieceColour::Black,
        }
    }
}

/// Negation of a colour is involutive: applying it twice gives the colour back.
pub proof fn lemma_colour_negate_involutive(c: PieceColour)
    ensures
        colour_negate(colour_negate(c)) == c,
{
}

/// Kind of a piece.
#[derive(Debug, Copy, Clone, PartialEq, Eq, PartialOrd, Ord, Hash)]
pub enum PieceKind {
    /// The king.
    King,
    /// The queen.
    Queen,
    /// A bishop.
    Bishop,
    /// A knight.
    Knight,
    /// A rook.
    Rook,
    /// A pawn.
    Pawn,
}

/// The uppercase notation letter of a piece kind.
pub open spec fn kind_char(k: PieceKind) -> char {
    match k {
        PieceKind::King => 'K',
        PieceKind::Queen => 'Q',
        PieceKind::Bishop => 'B',
        PieceKind::Knight => 'N',
        PieceKind::Rook => 'R',
        PieceKind::Pawn => 'P',
    }
}

/// Whether `c` is the notation letter of some piece kind.
pub open spec fn is_kind_char(c: char) -> bool {
    c == 'K' || c == 'Q' || c == 'B' || c == 'N' || c == 'R' || c == 'P'
}

/// The piece kind with notation letter `c`, meaningful when `is_kind_char(c)`.
pub open spec fn char_kind(c: char) -> PieceKind {
    if c == 'K' {
        PieceKind::King
    } else if c == 'Q' {
        PieceKind::Queen
    } else if c == 'B' {
        PieceKind::Bishop
    } else if c == 'N' {
        PieceKind::Knight
    } else if c == 'R' {
        PieceKind::Rook
    } else {
        PieceKind::Pawn
    }
}

/// Whether `k` is a legal promotion target: queen, rook, bishop or knight.
/// A pawn can never promote to a king or stay a pawn.
pub open spec fn is_promotable(k: PieceKind) -> bool {
    k is Queen || k is Rook || k is Bishop || k is Knight
}

impl PieceKind {
    /// The uppercase notation letter of this kind: one of K, Q, B, N, R, P.
    pub fn to_char(self) -> (r: char)
        ensures
            r == kind_char(self),
    {
        match self {
            PieceKind::King => 'K',
            PieceKind::Queen => 'Q',
            PieceKind::Bishop => 'B',
            PieceKind::Knight => 'N',
            PieceKind::Rook => 'R',
            PieceKind::Pawn => 'P',
        }
    }

    /// The piece kind written as `c`, succeeding exactly on the six
    /// uppercase notation letters. Any other character fails with
    /// `InvalidPGN` carrying that character as text.
    pub fn from_char(c: char) -> (r: Result<PieceKind, ChessError>)
        ensures
            is_kind_char(c) ==> r == Ok::<PieceKind, ChessError>(char_kind(c)),
            !is_kind_char(c) ==> (r matches Err(e) && e matches ChessError::InvalidPGN(t) && t@
                == seq![c]),
    {
        match c {
            'K' => Ok(PieceKind::King),
            'Q' => Ok(PieceKind::Queen),
            'B' => Ok(PieceKind::Bishop),
            'N' => Ok(PieceKind::Knight),
            'R' => Ok(PieceKind::Rook),
            'P' => Ok(PieceKind::Pawn),
            _ => Err(ChessError::InvalidPGN(char_to_string(c))),
        }
    }
}

/// A piece letter decodes back to the piece it encodes.
pub proof fn lemma_kind_char_inverse(k: PieceKind)
    ensures
        is_kind_char(kind_char(k)),
        char_kind(kind_char(k)) == k,
{
}

/// Basic states of the board, judged by king safety.
#[derive(Debug, Copy, Clone, PartialEq, Eq, PartialOrd, Ord)]
pub enum BoardState {
    /// Normal play, no restriction on moves.
    Normal,
    /// The king is in check; only moves that break the check are legal.
    Check,
    /// The game is over in stalemate: no legal move, king not in check.
    Stalemate,
    /// The game is over in checkmate: no legal move, king in check.
    Checkmate,
}

/// Consequence of a move that SAN annotates with a trailing glyph.
#[derive(Debug, Copy, Clone, PartialEq, Eq, PartialOrd, Ord)]
pub enum MoveAction {
    /// The move gives check.
    Check,
    /// The move gives checkmate.
    Checkmate,
}

/// The board state that a move action announces.
pub open spec fn action_state(a: MoveAction) -> BoardState {
    match a {
        MoveAction::Check => BoardState::Check,
        MoveAction::Checkmate => BoardState::Checkmate,
    }
}

/// The move action announced by a board state, or `None` for the states
/// (`Normal`, `Stalemate`) that carry no annotation glyph.
pub open spec fn state_action(s: BoardState) -> Option<MoveAction> {
    match s {
        BoardState::Check => Some(MoveAction::Check),
        BoardState::Checkmate => Some(MoveAction::Checkmate),
        BoardState::Normal => None,
        BoardState::Stalemate => None,
    }
}

/// The annotation glyph of a move action: '+' for check, '#' for checkmate.
pub open spec fn action_char(a: MoveAction) -> char {
    match a {
        MoveAction::Check => '+',
        MoveAction::Checkmate => '#',
    }
}

impl MoveAction {
    /// The board state this action announces; total and lossless.
    pub fn to_state(self) -> (r: BoardState)
        ensures
            r == action_state(self),
    {
        match self {
            MoveAction::Check => BoardState::Check,
            MoveAction::Checkmate => BoardState::Checkmate,
        }
    }

    /// The trailing annotation glyph of this action.
    pub fn to_char(self) -> (r: char)
        ensures
            r == action_char(self),
    {
        match self {
            MoveAction::Check => '+',
            MoveAction::Checkmate => '#',
        }
    }
}

impl BoardState {
    /// The move action this state announces. Succeeds exactly on `Check` and
    /// `Checkmate`; `Normal` and `Stalemate` fail with `NotAction` carrying
    /// the rejected state.
    pub fn to_action(self) -> (r: Result<MoveAction, ChessError>)
        ensures
            state_action(self) is Some ==> r == Ok::<MoveAction, ChessError>(
                state_action(self)->0,
            ),
            state_action(self) is None ==> r == Err::<MoveAction, ChessError>(
                ChessError::NotAction(self),
            ),
            r is Ok <==> (self is Check || self is Checkmate),
    {
        match self {
            BoardState::Check => Ok(MoveAction::Check),
            BoardState::Checkmate => Ok(MoveAction::Checkmate),
            _ => Err(ChessError::NotAction(self)),
        }
    }
}

/// The glyph mapping is injective: '+' is produced exactly for check, '#'
/// exactly for checkmate, and these two glyphs are the only characters
/// ever produced.
pub proof fn lemma_action_char_injective(a: MoveAction)
    ensures
        action_char(a) == '+' <==> a is Check,
        action_char(a) == '#' <==> a is Checkmate,
        action_char(a) == '+' || action_char(a) == '#',
{
}

/// Converting an action to its board state and back gives the action:
/// `state_action` is a left inverse of `action_state`.
pub proof fn lemma_state_action_inverse(a: MoveAction)
    ensures
        state_action(action_state(a)) == Some(a),
{
}

/// Side of the board to castle on.
#[derive(Debug, Copy, Clone, PartialEq, Eq, PartialOrd, Ord)]
pub enum CastlingSide {
    /// Castling towards the king's rook.
    KingSide,
    /// Castling towards the queen's rook.
    QueenSide,
}

/// The fixed notation text of a castling side. Queen-side text strictly
/// extends king-side text, which is why decoding must match longest-first.
pub open spec fn castle_chars(side: CastlingSide) -> Seq<char> {
    match side {
        CastlingSide::KingSide => seq!['O', '-', 'O'],
        CastlingSide::QueenSide => seq!['O', '-', 'O', '-', 'O'],
    }
}

impl CastlingSide {
    /// The notation text of this side: "O-O" king-side, "O-O-O" queen-side.
    pub fn as_str(&self) -> (r: &str)
        ensures
            r@ == castle_chars(*self),
    {
        proof {
            reveal_strlit("O-O-O");
            reveal_strlit("O-O");
        }
        let r = match self {
            CastlingSide::QueenSide => "O-O-O",
            CastlingSide::KingSide => "O-O",
        };
        proof {
            assert(r@ =~= castle_chars(*self));
        }
        r
    }
}

/// The notation letter of the moving piece, omitted for a pawn: SAN never
/// letter-prefixes pawn moves.
pub open spec fn piece_prefix_chars(k: PieceKind) -> Seq<char> {
    if k is Pawn {
        Seq::empty()
    } else {
        seq![kind_char(k)]
    }
}

/// The source-file disambiguation character, when present.
pub open spec fn src_file_chars(f: Option<u8>) -> Seq<char> {
    match f {
        Some(v) => seq![crate::notation::file_char(v as int)],
        None => Seq::empty(),
    }
}

/// The source-rank disambiguation character, when present.
pub open spec fn src_rank_chars(r: Option<u8>) -> Seq<char> {
    match r {
        Some(v) => seq![crate::notation::rank_char(v as int)],
        None => Seq::empty(),
    }
}

/// The capture marker, when the move takes a piece.
pub open spec fn takes_chars(takes: bool) -> Seq<char> {
    if takes {
        seq!['x']
    } else {
        Seq::empty()
    }
}

/// The promotion suffix `=` plus piece letter, when present.
pub open spec fn promote_chars(p: Option<PieceKind>) -> Seq<char> {
    match p {
        Some(k) => seq!['=', kind_char(k)],
        None => Seq::empty(),
    }
}

/// The trailing annotation glyph, when present.
pub open spec fn action_suffix_chars(a: Option<MoveAction>) -> Seq<char> {
    match a {
        Some(x) => seq![action_char(x)],
        None => Seq::empty(),
    }
}

/// The canonical SAN text of a move: for a normal move, piece letter (unless
/// pawn), source file, source rank, capture marker, destination square,
/// promotion suffix and annotation glyph, each emitted only when present;
/// for castling, the side's fixed text.
pub open spec fn pgn_chars(m: AmbiguousMove) -> Seq<char> {
    match m {
        AmbiguousMove::Normal { piece_kind, src_file, src_rank, takes, dest, promote_to, action } =>
            piece_prefix_chars(piece_kind) + src_file_chars(src_file) + src_rank_chars(src_rank)
            + takes_chars(takes) + crate::simple_types::square_chars(dest) + promote_chars(
            promote_to,
        ) + action_suffix_chars(action),
        AmbiguousMove::Castle { side } => castle_chars(side),
    }
}

/// A move exactly as a SAN token spells it, before board-state resolution
/// disambiguates which concrete piece moved.
#[derive(Debug, Copy, Clone, PartialEq, Eq, PartialOrd, Ord)]
pub enum AmbiguousMove {
    /// Any move other than castling.
    Normal {
        /// The kind of the moving piece.
        piece_kind: PieceKind,
        /// The source-file disambiguation, when the token carries one.
        src_file: Option<u8>,
        /// The source-rank disambiguation, when the token carries one.
        src_rank: Option<u8>,
        /// Whether the move captures a piece.
        takes: bool,
        /// The destination square.
        dest: SimpleSquare,
        /// The piece a pawn promotes to, when the token carries a promotion.
        promote_to: Option<PieceKind>,
        /// The annotation the token ends with (check or checkmate), if any.
        action: Option<MoveAction>,
    },
    /// Castling to one side. SAN permits a trailing annotation glyph after
    /// castle text, but this variant carries no action field: decoding
    /// accepts such a glyph and discards the annotation (see
    /// [`AmbiguousMove::from_pgn_str`]).
    Castle {
        /// The side to castle on.
        side: CastlingSide,
    },
}

impl AmbiguousMove {
    /// Every coordinate the move names lies on the board. Encoding is
    /// defined exactly on these values.
    pub open spec fn in_bounds(self) -> bool {
        match self {
            AmbiguousMove::Normal { src_file, src_rank, dest, .. } => (src_file matches Some(f)
                ==> f < 8) && (src_rank matches Some(r) ==> r < 8) && dest.wf(),
            AmbiguousMove::Castle { .. } => true,
        }
    }

    /// The field-presence invariant of a well-formed move: coordinates on
    /// the board, and any promotion target drawn from the promotable kinds.
    /// Decoding the canonical text of such a move gives the move back.
    pub open spec fn wf(self) -> bool {
        &&& self.in_bounds()
        &&& match self {
            AmbiguousMove::Normal { promote_to, .. } => promote_to matches Some(p)
                ==> is_promotable(p),
            AmbiguousMove::Castle { .. } => true,
        }
    }

    /// The canonical SAN text of this move.
    #[verifier::rlimit(50)]
    pub fn as_pgn_str(&self) -> (r: String)
        requires
            self.in_bounds(),
        ensures
            r@ == pgn_chars(*self),
    {
        match *self {
            AmbiguousMove::Normal {
                piece_kind,
                src_file,
                src_rank,
                takes,
                dest,
                promote_to,
                action,
            } => {
                let mut s = String::new();
                match piece_kind {
                    PieceKind::Pawn => {},
                    _ => {
                        crate::strutil::push_char(&mut s, piece_kind.to_char());
                    },
                }
                proof {
                    assert(s@ =~= piece_prefix_chars(piece_kind));
                }
                if let Some(f) = src_file {
                    let c = match crate::notation::file_to_char(f) {
                        Some(c) => c,
                        None => unreached(),
                    };
                    crate::strutil::push_char(&mut s, c);
                }
                proof {
                    assert(s@ =~= piece_prefix_chars(piece_kind) + src_file_chars(src_file));
                }
                if let Some(rk) = src_rank {
                    let c = match crate::notation::rank_to_char(rk) {
                        Some(c) => c,
                        None => unreached(),
                    };
                    crate::strutil::push_char(&mut s, c);
                }
                proof {
                    assert(s@ =~= piece_prefix_chars(piece_kind) + src_file_chars(src_file)
                        + src_rank_chars(src_rank));
                }
                if takes {
                    crate::strutil::push_char(&mut s, 'x');
                }
                proof {
                    assert(s@ =~= piece_prefix_chars(piece_kind) + src_file_chars(src_file)
                        + src_rank_chars(src_rank) + takes_chars(takes));
                }
                let d = dest.as_str();
                s.append(d.as_str());
                proof {
                    assert(s@ =~= piece_prefix_chars(piece_kind) + src_file_chars(src_file)
                        + src_rank_chars(src_rank) + takes_chars(takes)
                        + crate::simple_types::square_chars(dest));
                }
                if let Some(p) = promote_to {
                    crate::strutil::push_char(&mut s, '=');
                    crate::strutil::push_char(&mut s, p.to_char());
                }
                proof {
                    assert(s@ =~= piece_prefix_chars(piece_kind) + src_file_chars(src_file)
                        + src_rank_chars(src_rank) + takes_chars(takes)
                        + crate::simple_types::square_chars(dest) + promote_chars(promote_to));
                }
                if let Some(a) = action {
                    crate::strutil::push_char(&mut s, a.to_char());
                }
                proof {
                    assert(s@ =~= piece_prefix_chars(piece_kind) + src_file_chars(src_file)
                        + src_rank_chars(src_rank) + takes_chars(takes)
                        + crate::simple_types::square_chars(dest) + promote_chars(promote_to)
                        + action_suffix_chars(action));
                }
                s
            },
            AmbiguousMove::Castle { side } => {
                let t = side.as_str();
                String::from_str(t)
            },
        }
    }
}

/// Pawn omission: the canonical text of a normal pawn move never opens with
/// a piece letter, while that of any other normal move opens with exactly
/// the moving piece's letter.
pub proof fn lemma_pawn_omission(m: AmbiguousMove)
    requires
        m is Normal,
        m.in_bounds(),
    ensures
        m matches AmbiguousMove::Normal { piece_kind, .. } ==> {
            &&& piece_kind is Pawn ==> !is_kind_char(pgn_chars(m)[0])
            &&& !(piece_kind is Pawn) ==> pgn_chars(m)[0] == kind_char(piece_kind)
        },
{
    match m {
        AmbiguousMove::Normal { piece_kind, src_file, src_rank, takes, dest, .. } => {
            let s = pgn_chars(m);
            if piece_kind is Pawn {
                match src_file {
                    Some(v) => {
                        crate::notation::lemma_file_char_index(v as int);
                        assert(is_file_char(s[0]));
                    },
                    None => {
                        match src_rank {
                            Some(v) => {
                                crate::notation::lemma_rank_char_index(v as int);
                                assert(is_rank_char(s[0]));
                            },
                            None => {
                                if takes {
                                    assert(s[0] == 'x');
                                } else {
                                    crate::notation::lemma_file_char_index(dest.file as int);
                                    assert(s[0] == crate::notation::file_char(dest.file as int));
                                    assert(is_file_char(s[0]));
                                }
                            },
                        }
                    },
                }
                assert(!is_kind_char(s[0]));
            } else {
                assert(s[0] == kind_char(piece_kind));
            }
        },
        AmbiguousMove::Castle { .. } => {},
    }
}

} // verus!
