//! Character-level primitives of SAN coordinates: file and rank indices
//! against their notation characters.
//!
//! Files 0–7 print as `'a'`–`'h'`, ranks 0–7 as `'1'`–`'8'`. Each direction
//! is partial outside that range and fails by returning `None`.

use vstd::prelude::*;

verus! {

/// The notation character of file index `f`, for `0 <= f < 8`.
pub open spec fn file_char(f: int) -> char {
    if f == 0 {
        'a'
    } else if f == 1 {
        'b'
    } else if f == 2 {
        'c'
    } else if f == 3 {
        'd'
    } else if f == 4 {
        'e'
    } else if f == 5 {
        'f'
    } else if f == 6 {
        'g'
    } else {
        'h'
    }
}

/// The notation character of rank index `r`, for `0 <= r < 8`.
pub open spec fn rank_char(r: int) -> char {
    if r == 0 {
        '1'
    } else if r == 1 {
        '2'
    } else if r == 2 {
        '3'
    } else if r == 3 {
        '4'
    } else if r == 4 {
        '5'
    } else if r == 5 {
        '6'
    } else if r == 6 {
        '7'
    } else {
        '8'
    }
}

/// Whether `c` is the notation character of some file.
pub open spec fn is_file_char(c: char) -> bool {
    c == 'a' || c == 'b' || c == 'c' || c == 'd' || c == 'e' || c == 'f' || c == 'g' || c == 'h'
}

/// Whether `c` is the notation character of some rank.
pub open spec fn is_rank_char(c: char) -> bool {
    c == '1' || c == '2' || c == '3' || c == '4' || c == '5' || c == '6' || c == '7' || c == '8'
}

/// The file index of notation character `c`, meaningful when `is_file_char(c)`.
pub open spec fn file_index(c: char) -> int {
    if c == 'a' {
        0
    } else if c == 'b' {
        1
    } else if c == 'c' {
        2
    } else if c == 'd' {
        3
    } else if c == 'e' {
        4
    } else if c == 'f' {
        5
    } else if c == 'g' {
        6
    } else {
        7
    }
}

/// The rank index of notation character `c`, meaningful when `is_rank_char(c)`.
pub open spec fn rank_index(c: char) -> int {
    if c == '1' {
        0
    } else if c == '2' {
        1
    } else if c == '3' {
        2
    } else if c == '4' {
        3
    } else if c == '5' {
        4
    } else if c == '6' {
        5
    } else if c == '7' {
        6
    } else {
        7
    }
}

/// Encoding then decoding a file index gives it back.
pub proof fn lemma_file_char_index(f: int)
    requires
        0 <= f < 8,
    ensures
        is_file_char(file_char(f)),
        file_index(file_char(f)) == f,
{
}

/// Encoding then decoding a rank index gives it back.
pub proof fn lemma_rank_char_index(r: int)
    requires
        0 <= r < 8,
    ensures
        is_rank_char(rank_char(r)),
        rank_index(rank_char(r)) == r,
{
}

/// The notation character of a file, or `None` when the index is not a file.
pub fn file_to_char(f: u8) -> (r: Option<char>)
    ensures
        f < 8 ==> r == Some(file_char(f as int)),
        f >= 8 ==> r is None,
{
    match f {
        0 => Some('a'),
        1 => Some('b'),
        2 => Some('c'),
        3 => Some('d'),
        4 => Some('e'),
        5 => Some('f'),
        6 => Some('g'),
        7 => Some('h'),
        _ => None,
    }
}

/// The notation character of a rank, or `None` when the index is not a rank.
pub fn rank_to_char(r: u8) -> (c: Option<char>)
    ensures
        r < 8 ==> c == Some(rank_char(r as int)),
        r >= 8 ==> c is None,
{
    match r {
        0 => Some('1'),
        1 => Some('2'),
        2 => Some('3'),
        3 => Some('4'),
        4 => Some('5'),
        5 => Some('6'),
        6 => Some('7'),
        7 => Some('8'),
        _ => None,
    }
}

/// The file index of a notation character, or `None` when it is not one.
pub fn char_to_file(c: char) -> (r: Option<u8>)
    ensures
        is_file_char(c) ==> r == Some(file_index(c) as u8),
        !is_file_char(c) ==> r is None,
{
    match c {
        'a' => Some(0),
        'b' => Some(1),
        'c' => Some(2),
        'd' => Some(3),
        'e' => Some(4),
        'f' => Some(5),
        'g' => Some(6),
        'h' => Some(7),
        _ => None,
    }
}

/// The rank index of a notation character, or `None` when it is not one.
pub fn char_to_rank(c: char) -> (r: Option<u8>)
    ensures
        is_rank_char(c) ==> r == Some(rank_index(c) as u8),
        !is_rank_char(c) ==> r is None,
{
    match c {
        '1' => Some(0),
        '2' => Some(1),
        '3' => Some(2),
        '4' => Some(3),
        '5' => Some(4),
        '6' => Some(5),
        '7' => Some(6),
        '8' => Some(7),
        _ => None,
    }
}

} // verus!
