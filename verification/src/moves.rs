//! Plain-value representation of a chess move, with rendering to and
//! parsing from long-algebraic UCI notation.
//!
//! Squares are numbered 0..64 with a1 = 0, b1 = 1, ..., h8 = 63 (file is
//! the low three bits, rank the high three). A promotion is stored as the
//! numeric role it promotes to (2 = knight, 3 = bishop, 4 = rook,
//! 5 = queen), or 0 when the move is not a promotion.

use vstd::prelude::*;

verus! {

/// A move in plain coordinates, as the search and the transposition table
/// store it. The `capture` flag is only a move-ordering hint; it does not
/// take part in equality-relevant rendering.
#[derive(Clone, Copy, PartialEq, Eq, Structural, Debug)]
pub struct EngineMove {
    /// Origin square, 0..64.
    pub from: u8,
    /// Target square, 0..64. For castling this is the king's target square
    /// (g1/c1/g8/c8), as UCI notation writes it.
    pub to: u8,
    /// Promotion role (2 = knight, 3 = bishop, 4 = rook, 5 = queen), or 0.
    pub promotion: u8,
    /// Whether the move captures a piece (a move-ordering hint).
    pub capture: bool,
}

/// Well-formedness of a move's coordinates.
pub open spec fn move_wf(m: EngineMove) -> bool {
    &&& m.from < 64
    &&& m.to < 64
    &&& (m.promotion == 0 || (2 <= m.promotion && m.promotion <= 5))
}

/// The two ASCII bytes naming a square: file letter then rank digit.
pub open spec fn spec_square_bytes(s: u8) -> Seq<u8> {
    seq![(97 + (s % 8)) as u8, (49 + (s / 8)) as u8]
}

/// The ASCII letter of a promotion role.
pub open spec fn spec_promotion_byte(p: u8) -> u8 {
    if p == 2 {
        110
    } else if p == 3 {
        98
    } else if p == 4 {
        114
    } else {
        113
    }
}

/// The long-algebraic UCI rendering of a move, as ASCII bytes.
pub open spec fn spec_uci_bytes(m: EngineMove) -> Seq<u8> {
    spec_square_bytes(m.from) + spec_square_bytes(m.to) + if m.promotion == 0 {
        Seq::<u8>::empty()
    } else {
        seq![spec_promotion_byte(m.promotion)]
    }
}

/// Renders a move in long-algebraic UCI notation ("e2e4", "h7h8q").
pub fn uci_bytes(m: &EngineMove) -> (r: Vec<u8>)
    requires
        move_wf(*m),
    ensures
        r@ == spec_uci_bytes(*m),
{
    let mut r: Vec<u8> = Vec::new();
    r.push(97 + m.from % 8);
    r.push(49 + m.from / 8);
    r.push(97 + m.to % 8);
    r.push(49 + m.to / 8);
    if m.promotion != 0 {
        let letter: u8 = if m.promotion == 2 {
            110
        } else if m.promotion == 3 {
            98
        } else if m.promotion == 4 {
            114
        } else {
            113
        };
        r.push(letter);
        assert(r@ =~= spec_uci_bytes(*m));
    } else {
        assert(r@ =~= spec_uci_bytes(*m));
    }
    r
}

/// The square denoted by a file letter and a rank digit, if the bytes are
/// in range.
pub open spec fn spec_parse_square(file: u8, rank: u8) -> Option<u8> {
    if 97 <= file <= 104 && 49 <= rank <= 56 {
        Some((((rank - 49) * 8) + (file - 97)) as u8)
    } else {
        None
    }
}

/// The promotion role denoted by an ASCII letter, if any.
pub open spec fn spec_parse_promotion(b: u8) -> Option<u8> {
    if b == 110 {
        Some(2u8)
    } else if b == 98 {
        Some(3u8)
    } else if b == 114 {
        Some(4u8)
    } else if b == 113 {
        Some(5u8)
    } else {
        None
    }
}

/// The move denoted by a UCI token, if it is syntactically valid: four
/// bytes "e2e4" or five bytes "e7e8q". The `capture` flag of a parsed
/// move is always false (the token does not carry that information).
pub open spec fn spec_parse_uci(bytes: Seq<u8>) -> Option<EngineMove> {
    if bytes.len() != 4 && bytes.len() != 5 {
        None
    } else {
        match (spec_parse_square(bytes[0], bytes[1]), spec_parse_square(bytes[2], bytes[3])) {
            (Some(from), Some(to)) => {
                if bytes.len() == 4 {
                    Some(EngineMove { from, to, promotion: 0, capture: false })
                } else {
                    match spec_parse_promotion(bytes[4]) {
                        Some(p) => Some(EngineMove { from, to, promotion: p, capture: false }),
                        None => None,
                    }
                }
            },
            _ => None,
        }
    }
}

/// Parses a UCI move token. Returns exactly the move that
/// `spec_parse_uci` denotes, which is always well-formed.
pub fn parse_uci(bytes: &[u8]) -> (r: Option<EngineMove>)
    ensures
        r == spec_parse_uci(bytes@),
        r matches Some(m) ==> move_wf(m),
{
    if bytes.len() != 4 && bytes.len() != 5 {
        return None;
    }
    let f0: u8 = bytes[0];
    let r0: u8 = bytes[1];
    let f1: u8 = bytes[2];
    let r1: u8 = bytes[3];
    if !(97 <= f0 && f0 <= 104 && 49 <= r0 && r0 <= 56) {
        return None;
    }
    if !(97 <= f1 && f1 <= 104 && 49 <= r1 && r1 <= 56) {
        return None;
    }
    let from: u8 = (r0 - 49) * 8 + (f0 - 97);
    let to: u8 = (r1 - 49) * 8 + (f1 - 97);
    if bytes.len() == 4 {
        Some(EngineMove { from, to, promotion: 0, capture: false })
    } else {
        let p: u8 = bytes[4];
        let promotion: u8 = if p == 110 {
            2
        } else if p == 98 {
            3
        } else if p == 114 {
            4
        } else if p == 113 {
            5
        } else {
            return None;
        };
        Some(EngineMove { from, to, promotion, capture: false })
    }
}

/// Rendering then parsing a well-formed move gives the move back, with
/// the `capture` hint cleared.
pub proof fn lemma_uci_round_trip(m: EngineMove)
    requires
        move_wf(m),
    ensures
        spec_parse_uci(spec_uci_bytes(m)) == Some(
            EngineMove { capture: false, ..m },
        ),
{
}

} // verus!
