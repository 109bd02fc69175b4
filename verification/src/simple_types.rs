//! A plain board square: a file and a rank index, each in `0..8`.

use vstd::prelude::*;

use crate::notation::{file_char, file_to_char, rank_char, rank_to_char};

verus! {

/// A board square held as a pair of zero-based indices: `file` 0–7 maps to
/// files a–h, `rank` 0–7 to ranks 1–8. The square "e4" is `file: 4, rank: 3`.
#[derive(Debug, Copy, Clone, PartialEq, Eq, PartialOrd, Ord, Hash)]
pub struct SimpleSquare {
    /// File index, a–h as 0–7.
    pub file: u8,
    /// Rank index, 1–8 as 0–7.
    pub rank: u8,
}

/// The two-character notation text of a well-formed square.
pub open spec fn square_chars(sq: SimpleSquare) -> Seq<char> {
    seq![file_char(sq.file as int), rank_char(sq.rank as int)]
}

impl SimpleSquare {
    /// Both indices lie on the board.
    pub open spec fn wf(self) -> bool {
        self.file < 8 && self.rank < 8
    }

    /// Build a square from on-board indices.
    pub fn new(file: u8, rank: u8) -> (r: SimpleSquare)
        requires
            file < 8,
            rank < 8,
        ensures
            r == (SimpleSquare { file, rank }),
            r.wf(),
    {
        SimpleSquare { file, rank }
    }

    /// The canonical lowercase notation text of the square, e.g. "e4".
    pub fn as_str(&self) -> (r: String)
        requires
            self.wf(),
        ensures
            r@ == square_chars(*self),
    {
        let mut s = String::new();
        let fc = match file_to_char(self.file) {
            Some(c) => c,
            None => unreached(),
        };
        let rc = match rank_to_char(self.rank) {
            Some(c) => c,
            None => unreached(),
        };
        crate::strutil::push_char(&mut s, fc);
        crate::strutil::push_char(&mut s, rc);
        proof {
            assert(s@ =~= square_chars(*self));
        }
        s
    }
}

} // verus!
