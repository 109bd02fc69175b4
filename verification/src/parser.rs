//! Decoding SAN tokens into ambiguous moves.
//!
//! The grammar is longest-match and left-to-right: a token is first split
//! from its trailing annotation glyph, then matched whole against the two
//! castle texts (queen-side before king-side, so "O-O-O" is never misread
//! as "O-O" plus garbage), and otherwise parsed as a normal move anchored
//! on its mandatory destination square. A token either parses whole or the
//! decode fails as a whole; nothing partially succeeds.

use vstd::prelude::*;

use crate::enums::{
    action_char, action_suffix_chars, castle_chars, char_kind, is_kind_char, is_promotable,
    kind_char, lemma_kind_char_inverse, pgn_chars, piece_prefix_chars, promote_chars,
    src_file_chars, src_rank_chars, takes_chars, AmbiguousMove, CastlingSide, MoveAction,
    PieceKind,
};
use crate::error::ChessError;
use crate::notation::{
    char_to_file, char_to_rank, file_char, file_index, is_file_char, is_rank_char,
    lemma_file_char_index, lemma_rank_char_index, rank_char, rank_index,
};
use crate::simple_types::{square_chars, SimpleSquare};

verus! {

/// Splits a token into its body and its trailing annotation glyph, if any.
pub open spec fn strip_action(s: Seq<char>) -> (Seq<char>, Option<MoveAction>) {
    if s.len() > 0 && s.last() == '+' {
        (s.drop_last(), Some(MoveAction::Check))
    } else if s.len() > 0 && s.last() == '#' {
        (s.drop_last(), Some(MoveAction::Checkmate))
    } else {
        (s, None)
    }
}

/// Splits a body into its core and its promotion target. An `=` in the
/// second-to-last place commits to a promotion: the last character must
/// then name a promotable kind (queen, rook, bishop or knight), and a king
/// or pawn target — or any other character — fails the whole parse.
pub open spec fn strip_promotion(s: Seq<char>) -> Option<(Seq<char>, Option<PieceKind>)> {
    if s.len() >= 2 && s[s.len() - 2] == '=' {
        if is_kind_char(s.last()) && is_promotable(char_kind(s.last())) {
            Some((s.take(s.len() - 2), Some(char_kind(s.last()))))
        } else {
            None
        }
    } else {
        Some((s, None))
    }
}

/// The leading piece letter and the position where the rest begins; an
/// absent letter means a pawn move.
pub open spec fn leading_kind(s: Seq<char>) -> (PieceKind, int) {
    if s.len() > 0 && is_kind_char(s[0]) {
        (char_kind(s[0]), 1)
    } else {
        (PieceKind::Pawn, 0)
    }
}

/// Parses what stands between the piece letter and the destination square:
/// a source file, a source rank and a capture marker, in that order, each
/// optional. Anything left over fails the parse.
pub open spec fn parse_middle(s: Seq<char>) -> Option<(Option<u8>, Option<u8>, bool)> {
    let i1: int = if s.len() > 0 && is_file_char(s[0]) {
        1
    } else {
        0
    };
    let f: Option<u8> = if i1 == 1 {
        Some(file_index(s[0]) as u8)
    } else {
        None
    };
    let i2: int = if s.len() > i1 && is_rank_char(s[i1]) {
        i1 + 1
    } else {
        i1
    };
    let r: Option<u8> = if i2 == i1 + 1 {
        Some(rank_index(s[i1]) as u8)
    } else {
        None
    };
    let i3: int = if s.len() > i2 && s[i2] == 'x' {
        i2 + 1
    } else {
        i2
    };
    let takes: bool = i3 == i2 + 1;
    if i3 == s.len() {
        Some((f, r, takes))
    } else {
        None
    }
}

/// Parses a token body (annotation already stripped) as a normal move: an
/// optional piece letter, the optional middle fields, a mandatory
/// destination square, and an optional promotion suffix.
pub open spec fn decode_normal(body: Seq<char>, action: Option<MoveAction>) -> Option<
    AmbiguousMove,
> {
    let kind_start = leading_kind(body);
    let rest = body.subrange(kind_start.1, body.len() as int);
    match strip_promotion(rest) {
        None => None,
        Some(core_promote) => {
            let core = core_promote.0;
            if core.len() >= 2 && is_file_char(core[core.len() - 2]) && is_rank_char(
                core.last(),
            ) {
                let dest = SimpleSquare {
                    file: file_index(core[core.len() - 2]) as u8,
                    rank: rank_index(core.last()) as u8,
                };
                match parse_middle(core.take(core.len() - 2)) {
                    None => None,
                    Some(fields) => Some(
                        AmbiguousMove::Normal {
                            piece_kind: kind_start.0,
                            src_file: fields.0,
                            src_rank: fields.1,
                            takes: fields.2,
                            dest,
                            promote_to: core_promote.1,
                            action,
                        },
                    ),
                }
            } else {
                None
            }
        },
    }
}

/// The decoding contract of a SAN token: strip the annotation glyph, match
/// the body whole against the castle texts — longest first — and otherwise
/// parse a normal move. A glyph trailing a castle token is accepted but its
/// annotation is discarded, since the castle variant carries no action
/// field.
pub open spec fn decode_chars(s: Seq<char>) -> Option<AmbiguousMove> {
    let body_action = strip_action(s);
    if body_action.0 == castle_chars(CastlingSide::QueenSide) {
        Some(AmbiguousMove::Castle { side: CastlingSide::QueenSide })
    } else if body_action.0 == castle_chars(CastlingSide::KingSide) {
        Some(AmbiguousMove::Castle { side: CastlingSide::KingSide })
    } else {
        decode_normal(body_action.0, body_action.1)
    }
}

/// The piece kind a character names, or `None` for any other character.
fn kind_of_char(c: char) -> (r: Option<PieceKind>)
    ensures
        is_kind_char(c) ==> r == Some(char_kind(c)),
        !is_kind_char(c) ==> r is None,
{
    match c {
        'K' => Some(PieceKind::King),
        'Q' => Some(PieceKind::Queen),
        'B' => Some(PieceKind::Bishop),
        'N' => Some(PieceKind::Knight),
        'R' => Some(PieceKind::Rook),
        'P' => Some(PieceKind::Pawn),
        _ => None,
    }
}

/// The promotable piece kind a character names, or `None` for a king, a
/// pawn, or any character that is no piece letter.
fn promotion_target(c: char) -> (r: Option<PieceKind>)
    ensures
        is_kind_char(c) && is_promotable(char_kind(c)) ==> r == Some(char_kind(c)),
        !(is_kind_char(c) && is_promotable(char_kind(c))) ==> r is None,
{
    match c {
        'Q' => Some(PieceKind::Queen),
        'B' => Some(PieceKind::Bishop),
        'N' => Some(PieceKind::Knight),
        'R' => Some(PieceKind::Rook),
        _ => None,
    }
}

/// Parses the middle fields found at `v[start..end]`.
fn parse_middle_exec(v: &Vec<char>, start: usize, end: usize) -> (r: Option<
    (Option<u8>, Option<u8>, bool),
>)
    requires
        start <= end <= v@.len(),
    ensures
        r == parse_middle(v@.subrange(start as int, end as int)),
{
    let mut p = start;
    let mut src_file: Option<u8> = None;
    let mut src_rank: Option<u8> = None;
    let mut takes = false;
    if p < end {
        if let Some(x) = char_to_file(v[p]) {
            src_file = Some(x);
            p = p + 1;
        }
    }
    if p < end {
        if let Some(x) = char_to_rank(v[p]) {
            src_rank = Some(x);
            p = p + 1;
        }
    }
    if p < end {
        if v[p] == 'x' {
            takes = true;
            p = p + 1;
        }
    }
    if p == end {
        Some((src_file, src_rank, takes))
    } else {
        None
    }
}

/// Parses `v[0..end]` — a token body with the annotation already stripped —
/// as a normal move carrying `action`.
#[verifier::rlimit(100)]
fn decode_normal_exec(v: &Vec<char>, end: usize, action: Option<MoveAction>) -> (r: Option<
    AmbiguousMove,
>)
    requires
        end <= v@.len(),
    ensures
        r == decode_normal(v@.take(end as int), action),
{
    let ghost body = v@.take(end as int);
    // Leading piece letter.
    let mut start: usize = 0;
    let mut kind = PieceKind::Pawn;
    if end > 0 {
        if let Some(k) = kind_of_char(v[0]) {
            kind = k;
            start = 1;
        }
    }
    proof {
        assert(leading_kind(body) == (kind, start as int));
    }
    let ghost rest = body.subrange(start as int, end as int);
    // Promotion suffix.
    let mut core_end = end;
    let mut promote_to: Option<PieceKind> = None;
    if end - start >= 2 && v[end - 2] == '=' {
        match promotion_target(v[end - 1]) {
            Some(p) => {
                promote_to = Some(p);
                core_end = end - 2;
            },
            None => {
                proof {
                    assert(rest.len() >= 2 && rest[rest.len() - 2] == '=');
                    assert(strip_promotion(rest) is None);
                }
                return None;
            },
        }
    }
    let ghost core = body.subrange(start as int, core_end as int);
    proof {
        if core_end < end {
            assert(rest.len() >= 2 && rest[rest.len() - 2] == '=');
            assert(core =~= rest.take(rest.len() - 2));
        } else {
            assert(rest.len() < 2 || rest[rest.len() - 2] != '=');
            assert(core =~= rest);
        }
        assert(strip_promotion(rest) == Some((core, promote_to)));
    }
    // Mandatory destination square.
    if core_end - start < 2 {
        proof {
            assert(core.len() < 2);
        }
        return None;
    }
    let file = match char_to_file(v[core_end - 2]) {
        Some(x) => x,
        None => {
            proof {
                assert(!is_file_char(core[core.len() - 2]));
            }
            return None;
        },
    };
    let rank = match char_to_rank(v[core_end - 1]) {
        Some(x) => x,
        None => {
            proof {
                assert(!is_rank_char(core.last()));
            }
            return None;
        },
    };
    let dest = SimpleSquare::new(file, rank);
    // Disambiguation and capture marker.
    let fields = match parse_middle_exec(v, start, core_end - 2) {
        Some(t) => t,
        None => {
            proof {
                assert(core.take(core.len() - 2) =~= v@.subrange(
                    start as int,
                    core_end - 2 as int,
                ));
            }
            return None;
        },
    };
    proof {
        assert(core.take(core.len() - 2) =~= v@.subrange(start as int, core_end - 2 as int));
        assert(dest == (SimpleSquare {
            file: file_index(core[core.len() - 2]) as u8,
            rank: rank_index(core.last()) as u8,
        }));
    }
    Some(
        AmbiguousMove::Normal {
            piece_kind: kind,
            src_file: fields.0,
            src_rank: fields.1,
            takes: fields.2,
            dest,
            promote_to,
            action,
        },
    )
}

/// Decodes the whole character sequence as one SAN token.
#[verifier::rlimit(50)]
fn decode_char_vec(v: &Vec<char>) -> (r: Option<AmbiguousMove>)
    ensures
        r == decode_chars(v@),
{
    let len = v.len();
    // Trailing annotation glyph.
    let mut end = len;
    let mut action: Option<MoveAction> = None;
    if end > 0 {
        let c = v[end - 1];
        if c == '+' {
            action = Some(MoveAction::Check);
            end = end - 1;
        } else if c == '#' {
            action = Some(MoveAction::Checkmate);
            end = end - 1;
        }
    }
    let ghost body = v@.take(end as int);
    proof {
        assert(v@.drop_last() =~= v@.take(v@.len() - 1));
        assert(strip_action(v@) == (body, action));
    }
    // Castling, longest text first.
    if end == 5 && v[0] == 'O' && v[1] == '-' && v[2] == 'O' && v[3] == '-' && v[4] == 'O' {
        proof {
            assert(body =~= castle_chars(CastlingSide::QueenSide));
        }
        return Some(AmbiguousMove::Castle { side: CastlingSide::QueenSide });
    }
    if end == 3 && v[0] == 'O' && v[1] == '-' && v[2] == 'O' {
        proof {
            assert(body =~= castle_chars(CastlingSide::KingSide));
        }
        return Some(AmbiguousMove::Castle { side: CastlingSide::KingSide });
    }
    proof {
        assert(body != castle_chars(CastlingSide::QueenSide));
        assert(body != castle_chars(CastlingSide::KingSide));
        assert(decode_chars(v@) == decode_normal(body, action));
    }
    decode_normal_exec(v, end, action)
}

impl AmbiguousMove {
    /// Decodes a SAN token. Succeeds exactly on the tokens that
    /// [`decode_chars`] accepts and returns the move it names; any other
    /// text fails with `InvalidPGN` carrying the whole input.
    pub fn from_pgn_str(s: &str) -> (r: Result<AmbiguousMove, ChessError>)
        ensures
            decode_chars(s@) matches Some(m) ==> r == Ok::<AmbiguousMove, ChessError>(m),
            decode_chars(s@) is None ==> (r matches Err(e) && e matches ChessError::InvalidPGN(t)
                && t@ == s@),
    {
        let n = s.unicode_len();
        let mut chars: Vec<char> = Vec::new();
        let mut i: usize = 0;
        while i < n
            invariant
                i <= n,
                n == s@.len(),
                chars@ == s@.take(i as int),
            decreases n - i,
        {
            let c = s.get_char(i);
            chars.push(c);
            i = i + 1;
            proof {
                assert(chars@ =~= s@.take(i as int));
            }
        }
        proof {
            assert(chars@ =~= s@);
        }
        match decode_char_vec(&chars) {
            Some(m) => Ok(m),
            None => Err(ChessError::InvalidPGN(s.to_owned())),
        }
    }
}

/// The middle fields print and parse back to themselves.
proof fn lemma_parse_middle_fields(src_file: Option<u8>, src_rank: Option<u8>, takes: bool)
    requires
        src_file matches Some(f) ==> f < 8,
        src_rank matches Some(r) ==> r < 8,
    ensures
        parse_middle(src_file_chars(src_file) + src_rank_chars(src_rank) + takes_chars(takes))
            == Some((src_file, src_rank, takes)),
{
    let s = src_file_chars(src_file) + src_rank_chars(src_rank) + takes_chars(takes);
    match src_file {
        Some(f) => lemma_file_char_index(f as int),
        None => (),
    }
    match src_rank {
        Some(r) => lemma_rank_char_index(r as int),
        None => (),
    }
    assert(parse_middle(s) == Some((src_file, src_rank, takes)));
}

/// A body that ends in no glyph and carries a glyph suffix splits back
/// into body and glyph.
proof fn lemma_strip_encoded_action(b: Seq<char>, action: Option<MoveAction>)
    requires
        b.len() > 0,
        b.last() != '+',
        b.last() != '#',
    ensures
        strip_action(b + action_suffix_chars(action)) == (b, action),
{
    let s = b + action_suffix_chars(action);
    match action {
        Some(act) => {
            assert(s.len() == b.len() + 1);
            assert(s.last() == action_char(act));
            assert(s.drop_last() =~= b);
        },
        None => {
            assert(s =~= b);
        },
    }
}

/// A sequence that does not open with 'O' is neither castle text.
proof fn lemma_not_castle(b: Seq<char>)
    requires
        b.len() > 0,
        b[0] != 'O',
    ensures
        b != castle_chars(CastlingSide::QueenSide),
        b != castle_chars(CastlingSide::KingSide),
{
}

/// The core of an encoded normal move — middle fields then destination —
/// parses back into exactly those fields.
proof fn lemma_decode_core(
    src_file: Option<u8>,
    src_rank: Option<u8>,
    takes: bool,
    dest: SimpleSquare,
)
    requires
        src_file matches Some(v) ==> v < 8,
        src_rank matches Some(v) ==> v < 8,
        dest.wf(),
    ensures
        ({
            let w = src_file_chars(src_file) + src_rank_chars(src_rank) + takes_chars(takes)
                + square_chars(dest);
            &&& w.len() >= 2
            &&& w[w.len() - 2] == file_char(dest.file as int)
            &&& is_file_char(w[w.len() - 2])
            &&& is_rank_char(w.last())
            &&& file_index(w[w.len() - 2]) == dest.file as int
            &&& rank_index(w.last()) == dest.rank as int
            &&& parse_middle(w.take(w.len() - 2)) == Some((src_file, src_rank, takes))
        }),
{
    let w = src_file_chars(src_file) + src_rank_chars(src_rank) + takes_chars(takes)
        + square_chars(dest);
    lemma_file_char_index(dest.file as int);
    lemma_rank_char_index(dest.rank as int);
    assert(w[w.len() - 2] == file_char(dest.file as int));
    assert(w.last() == rank_char(dest.rank as int));
    assert(w.take(w.len() - 2) =~= src_file_chars(src_file) + src_rank_chars(src_rank)
        + takes_chars(takes));
    lemma_parse_middle_fields(src_file, src_rank, takes);
}

/// A well-formed core with an encoded promotion suffix splits back into
/// core and target.
proof fn lemma_strip_encoded_promotion(w: Seq<char>, promote_to: Option<PieceKind>)
    requires
        w.len() >= 2,
        w[w.len() - 2] != '=',
        promote_to matches Some(p) ==> is_promotable(p),
    ensures
        strip_promotion(w + promote_chars(promote_to)) == Some((w, promote_to)),
{
    let s = w + promote_chars(promote_to);
    match promote_to {
        Some(pk) => {
            lemma_kind_char_inverse(pk);
            assert(s.len() == w.len() + 2);
            assert(s[s.len() - 2] == '=');
            assert(s.last() == kind_char(pk));
            assert(s.take(s.len() - 2) =~= w);
        },
        None => {
            assert(s =~= w);
        },
    }
}

/// Decoding the encoded body of a well-formed normal move yields that move.
#[verifier::rlimit(100)]
proof fn lemma_decode_normal_encoding(
    piece_kind: PieceKind,
    src_file: Option<u8>,
    src_rank: Option<u8>,
    takes: bool,
    dest: SimpleSquare,
    promote_to: Option<PieceKind>,
    action: Option<MoveAction>,
)
    requires
        (AmbiguousMove::Normal {
            piece_kind,
            src_file,
            src_rank,
            takes,
            dest,
            promote_to,
            action,
        }).wf(),
    ensures
        ({
            let b = piece_prefix_chars(piece_kind) + src_file_chars(src_file) + src_rank_chars(
                src_rank,
            ) + takes_chars(takes) + square_chars(dest) + promote_chars(promote_to);
            decode_normal(b, action) == Some(
                AmbiguousMove::Normal {
                    piece_kind,
                    src_file,
                    src_rank,
                    takes,
                    dest,
                    promote_to,
                    action,
                },
            )
        }),
{
    let p = piece_prefix_chars(piece_kind);
    let f = src_file_chars(src_file);
    let r = src_rank_chars(src_rank);
    let x = takes_chars(takes);
    let d = square_chars(dest);
    let q = promote_chars(promote_to);
    let b = p + f + r + x + d + q;
    let w = f + r + x + d;
    let rest = f + r + x + d + q;
    lemma_kind_char_inverse(piece_kind);
    lemma_decode_core(src_file, src_rank, takes, dest);
    // The leading letter names the piece; a pawn move has none.
    assert(rest.len() > 0);
    if piece_kind is Pawn {
        assert(b =~= rest);
        match src_file {
            Some(v) => {
                lemma_file_char_index(v as int);
                assert(is_file_char(b[0]));
            },
            None => {
                match src_rank {
                    Some(v) => {
                        lemma_rank_char_index(v as int);
                        assert(is_rank_char(b[0]));
                    },
                    None => {
                        if takes {
                            assert(b[0] == 'x');
                        } else {
                            assert(b[0] == w[w.len() - 2]);
                            assert(is_file_char(b[0]));
                        }
                    },
                }
            },
        }
        assert(!is_kind_char(b[0]));
        assert(leading_kind(b) == (PieceKind::Pawn, 0int));
        assert(b.subrange(0, b.len() as int) =~= rest);
    } else {
        assert(b[0] == kind_char(piece_kind));
        assert(leading_kind(b) == (piece_kind, 1int));
        assert(b.subrange(1, b.len() as int) =~= rest);
    }
    // The promotion suffix comes off the tail, then the destination, then
    // the middle fields.
    assert(w[w.len() - 2] != '=');
    lemma_strip_encoded_promotion(w, promote_to);
    assert(rest == w + q);
    assert(strip_promotion(rest) == Some((w, promote_to)));
    assert((SimpleSquare {
        file: file_index(w[w.len() - 2]) as u8,
        rank: rank_index(w.last()) as u8,
    }) == dest);
}

/// Round trip: decoding the canonical SAN text of any well-formed move
/// gives the move back. Together with the contracts of
/// [`AmbiguousMove::as_pgn_str`] and [`AmbiguousMove::from_pgn_str`], this
/// says that `from_pgn_str(as_pgn_str(m))` returns `Ok(m)` whenever `m`
/// satisfies the field-presence invariant [`AmbiguousMove::wf`].
#[verifier::rlimit(100)]
pub proof fn lemma_pgn_round_trip(m: AmbiguousMove)
    requires
        m.wf(),
    ensures
        decode_chars(pgn_chars(m)) == Some(m),
{
    match m {
        AmbiguousMove::Castle { side } => {
            let s = castle_chars(side);
            assert(s.last() != '+' && s.last() != '#');
            assert(strip_action(s) == (s, None::<MoveAction>));
            assert(castle_chars(CastlingSide::KingSide) != castle_chars(
                CastlingSide::QueenSide,
            ));
        },
        AmbiguousMove::Normal {
            piece_kind,
            src_file,
            src_rank,
            takes,
            dest,
            promote_to,
            action,
        } => {
            let p = piece_prefix_chars(piece_kind);
            let f = src_file_chars(src_file);
            let r = src_rank_chars(src_rank);
            let x = takes_chars(takes);
            let d = square_chars(dest);
            let q = promote_chars(promote_to);
            let a = action_suffix_chars(action);
            let s = pgn_chars(m);
            let b = p + f + r + x + d + q;
            assert(s == b + a) by {
                assert(s == p + f + r + x + d + q + a);
            }
            lemma_kind_char_inverse(piece_kind);
            lemma_decode_core(src_file, src_rank, takes, dest);
            let w = f + r + x + d;
            // The body ends in no glyph, so the glyph comes off first.
            assert(b.len() > 0);
            match promote_to {
                Some(pk) => {
                    lemma_kind_char_inverse(pk);
                    assert(b.last() == kind_char(pk));
                },
                None => {
                    assert(b.last() == w.last());
                    assert(is_rank_char(b.last()));
                },
            }
            assert(b.last() != '+' && b.last() != '#');
            lemma_strip_encoded_action(b, action);
            // The body is no castle text: its first character is never 'O'.
            if p.len() > 0 {
                assert(b[0] == kind_char(piece_kind));
                assert(is_kind_char(b[0]));
            } else if f.len() > 0 {
                assert(b[0] == f[0]);
                assert(is_file_char(b[0]));
            } else if r.len() > 0 {
                assert(b[0] == r[0]);
                assert(is_rank_char(b[0]));
            } else if x.len() > 0 {
                assert(b[0] == 'x');
            } else {
                assert(b[0] == w[w.len() - 2]);
                assert(is_file_char(b[0]));
            }
            assert(b[0] != 'O');
            lemma_not_castle(b);
            assert(decode_chars(s) == decode_normal(b, action));
            lemma_decode_normal_encoding(
                piece_kind,
                src_file,
                src_rank,
                takes,
                dest,
                promote_to,
                action,
            );
        },
    }
}

/// A promotion suffix naming a king or a pawn is rejected: any token whose
/// body (once the annotation glyph is stripped) ends with '=' followed by
/// 'K' or 'P' fails to decode.
pub proof fn lemma_invalid_promotion_rejected(s: Seq<char>)
    requires
        strip_action(s).0.len() >= 2,
        strip_action(s).0[strip_action(s).0.len() - 2] == '=',
        strip_action(s).0.last() == 'K' || strip_action(s).0.last() == 'P',
    ensures
        decode_chars(s) is None,
{
    let b = strip_action(s).0;
    assert(b != castle_chars(CastlingSide::QueenSide));
    assert(b != castle_chars(CastlingSide::KingSide));
    let rest = b.subrange(leading_kind(b).1, b.len() as int);
    if leading_kind(b).1 == 1 {
        assert(b[0] != '=');
        assert(b.len() >= 3);
        assert(rest.len() == b.len() - 1);
        assert(rest[rest.len() - 2] == b[b.len() - 2]);
        assert(rest.last() == b.last());
    } else {
        assert(rest =~= b);
    }
    assert(rest.len() >= 2);
    assert(rest[rest.len() - 2] == '=');
    assert(!(is_kind_char(rest.last()) && is_promotable(char_kind(rest.last()))));
    assert(strip_promotion(rest) is None);
}

} // verus!
