//! Cutting the fields of a trace line into pieces and reading the pieces as
//! numbers.

use vstd::prelude::*;
use crate::text::{hex_u64, parse_hex, trim_end, trim_start, trimmed};

verus! {

/// The pieces of `s` between the occurrences of `sep` from position `at`
/// on, where the piece that is being read began at `from`. A text with n
/// separators has n + 1 pieces, empty ones among them.
pub open spec fn split_at(s: Seq<char>, sep: char, from: int, at: int) -> Seq<Seq<char>>
    decreases s.len() - at,
{
    if at < 0 || at >= s.len() {
        seq![s.subrange(from, s.len() as int)]
    } else if s[at] == sep {
        seq![s.subrange(from, at)] + split_at(s, sep, at + 1, at + 1)
    } else {
        split_at(s, sep, from, at + 1)
    }
}

/// The pieces of `s` between the occurrences of `sep`.
pub open spec fn split(s: Seq<char>, sep: char) -> Seq<Seq<char>> {
    split_at(s, sep, 0, 0)
}

/// The first `n` characters of `s` without the occurrences of `c`.
pub open spec fn without_upto(s: Seq<char>, c: char, n: int) -> Seq<char>
    decreases n,
{
    if n <= 0 || n > s.len() {
        Seq::empty()
    } else if s[n - 1] == c {
        without_upto(s, c, n - 1)
    } else {
        without_upto(s, c, n - 1).push(s[n - 1])
    }
}

/// `s` without the occurrences of `c`.
pub open spec fn without(s: Seq<char>, c: char) -> Seq<char> {
    without_upto(s, c, s.len() as int)
}

/// `s` read as a hexadecimal number that is at most `max`.
pub open spec fn hex_within(s: Seq<char>, max: u64) -> Option<u64> {
    match hex_u64(s) {
        Some(v) => if v <= max {
            Some(v)
        } else {
            None
        },
        None => None,
    }
}

/// The first `n` of `pieces`, each read as one byte in hexadecimal; nothing
/// if one of them is no such byte.
pub open spec fn bytes_upto(pieces: Seq<Seq<char>>, n: int) -> Option<Seq<u8>>
    decreases n,
{
    if n <= 0 || n > pieces.len() {
        Some(Seq::empty())
    } else {
        match (bytes_upto(pieces, n - 1), hex_within(pieces[n - 1], 0xFF)) {
            (Some(before), Some(b)) => Some(before.push(b as u8)),
            _ => None,
        }
    }
}

/// The bytes of an instruction as the trace lists them: two hexadecimal
/// digits each, one blank between them.
pub open spec fn byte_list(s: Seq<char>) -> Option<Seq<u8>> {
    let pieces = split(trimmed(s), ' ');
    bytes_upto(pieces, pieces.len() as int)
}

/// The characters of each piece.
pub open spec fn piece_views(v: Seq<Vec<char>>) -> Seq<Seq<char>> {
    v.map_values(|p: Vec<char>| p@)
}

/// A copy of the characters `lo..hi` of `s`.
pub fn copy_range(s: &Vec<char>, lo: usize, hi: usize) -> (r: Vec<char>)
    requires
        lo <= hi <= s.len(),
    ensures
        r@ == s@.subrange(lo as int, hi as int),
{
    let mut out: Vec<char> = Vec::new();
    let mut i: usize = lo;
    while i < hi
        invariant
            lo <= i <= hi <= s.len(),
            out@ == s@.subrange(lo as int, i as int),
        decreases hi - i,
    {
        out.push(s[i]);
        i = i + 1;
        assert(out@ =~= s@.subrange(lo as int, i as int));
    }
    assert(out@ =~= s@.subrange(lo as int, hi as int));
    out
}

/// Cuts `s` at each occurrence of `sep`.
pub fn cut(s: &Vec<char>, sep: char) -> (r: Vec<Vec<char>>)
    ensures
        piece_views(r@) == split(s@, sep),
{
    let mut out: Vec<Vec<char>> = Vec::new();
    let mut from: usize = 0;
    let mut i: usize = 0;
    while i < s.len()
        invariant
            from <= i <= s.len(),
            piece_views(out@) + split_at(s@, sep, from as int, i as int) == split(s@, sep),
        decreases s.len() - i,
    {
        if s[i] == sep {
            let ghost before = piece_views(out@);
            let piece = copy_range(s, from, i);
            out.push(piece);
            assert(piece_views(out@) =~= before.push(s@.subrange(from as int, i as int)));
            assert(piece_views(out@) + split_at(s@, sep, i as int + 1, i as int + 1) =~= before
                + split_at(s@, sep, from as int, i as int));
            from = i + 1;
        }
        i = i + 1;
    }
    let ghost before = piece_views(out@);
    let piece = copy_range(s, from, s.len());
    out.push(piece);
    assert(piece_views(out@) =~= before.push(s@.subrange(from as int, s@.len() as int)));
    assert(piece_views(out@) =~= before + split_at(s@, sep, from as int, s@.len() as int));
    out
}

/// A copy of `s` without the occurrences of `c`.
pub fn remove_char(s: &Vec<char>, c: char) -> (r: Vec<char>)
    ensures
        r@ == without(s@, c),
{
    let mut out: Vec<char> = Vec::new();
    let mut i: usize = 0;
    while i < s.len()
        invariant
            i <= s.len(),
            out@ == without_upto(s@, c, i as int),
        decreases s.len() - i,
    {
        if s[i] != c {
            out.push(s[i]);
        }
        i = i + 1;
    }
    out
}

/// A copy of `s` without leading and trailing white space.
pub fn trim(s: &Vec<char>) -> (r: Vec<char>)
    ensures
        r@ == trimmed(s@),
{
    let a: usize = trim_start(s, 0, s.len());
    let b: usize = trim_end(s, a, s.len());
    copy_range(s, a, b)
}

/// Reads the whole of `s` as a hexadecimal number that is at most `max`.
pub fn read_hex(s: &Vec<char>, max: u64) -> (r: Option<u64>)
    ensures
        r == hex_within(s@, max),
{
    assert(s@.subrange(0, s@.len() as int) =~= s@);
    match parse_hex(s, 0, s.len()) {
        Some(v) => {
            if v <= max {
                Some(v)
            } else {
                None
            }
        },
        None => None,
    }
}

/// Reads the bytes of an instruction as the trace lists them.
pub fn read_bytes(s: &Vec<char>) -> (r: Option<Vec<u8>>)
    ensures
        match r {
            Some(v) => byte_list(s@) == Some(v@),
            None => byte_list(s@) is None,
        },
{
    let body = trim(s);
    let pieces = cut(&body, ' ');
    let mut out: Vec<u8> = Vec::new();
    let mut i: usize = 0;
    while i < pieces.len()
        invariant
            i <= pieces.len(),
            piece_views(pieces@) == split(trimmed(s@), ' '),
            bytes_upto(piece_views(pieces@), i as int) == Some(out@),
        decreases pieces.len() - i,
    {
        assert(piece_views(pieces@)[i as int] == pieces@[i as int]@);
        match read_hex(&pieces[i], 0xFF) {
            Some(b) => {
                out.push(b as u8);
            },
            None => {
                proof {
                    lemma_bytes_fail(piece_views(pieces@), i as int + 1, pieces@.len() as int);
                }
                return None;
            },
        }
        i = i + 1;
    }
    Some(out)
}

/// Once a piece is no byte, no longer list of pieces is a list of bytes.
pub proof fn lemma_bytes_fail(pieces: Seq<Seq<char>>, k: int, n: int)
    requires
        0 <= k <= n <= pieces.len(),
        bytes_upto(pieces, k) is None,
    ensures
        bytes_upto(pieces, n) is None,
    decreases n - k,
{
    if k < n {
        lemma_bytes_fail(pieces, k, n - 1);
    }
}

} // verus!
