//! Static positional evaluation: material, bishop pair, and middle-game
//! piece-square tables, scored in centipawns from White's perspective.
//!
//! The evaluator works on a plain listing of the pieces on the board
//! (square, role, colour). Roles are numbered as in FEN order: 1 = pawn,
//! 2 = knight, 3 = bishop, 4 = rook, 5 = queen, 6 = king. Squares are
//! numbered 0..64 with a1 = 0 and h8 = 63.
//!
//! The piece-square tables are listed from rank 8 down to rank 1 (entry 0
//! is a8), so a White piece is looked up at its vertically flipped square
//! and a Black piece at its square as is.

use vstd::prelude::*;

verus! {

/// One piece on the board, in plain values.
#[derive(Clone, Copy, PartialEq, Eq, Structural, Debug)]
pub struct PlacedPiece {
    /// Square 0..64, a1 = 0, h8 = 63.
    pub square: u8,
    /// Role 1..=6: pawn, knight, bishop, rook, queen, king.
    pub role: u8,
    /// True for a White piece.
    pub white: bool,
}

pub const PAWN_VALUES: [i16; 64] = [
      0,   0,   0,   0,   0,   0,  0,   0,
     98, 134,  61,  95,  68, 126, 34, -11,
     -6,   7,  26,  31,  65,  56, 25, -20,
    -14,  13,   6,  21,  23,  12, 17, -23,
    -27,  -2,  -5,  12,  17,   6, 10, -25,
    -26,  -4,  -4, -10,   3,   3, 33, -12,
    -35,  -1, -20, -23, -15,  24, 38, -22,
      0,   0,   0,   0,   0,   0,  0,   0,
];

pub const KNIGHT_VALUES: [i16; 64] = [
    -167, -89, -34, -49,  61, -97, -15, -107,
     -73, -41,  72,  36,  23,  62,   7,  -17,
     -47,  60,  37,  65,  84, 129,  73,   44,
      -9,  17,  19,  53,  37,  69,  18,   22,
     -13,   4,  16,  13,  28,  19,  21,   -8,
     -23,  -9,  12,  10,  19,  17,  25,  -16,
     -29, -53, -12,  -3,  -1,  18, -14,  -19,
    -105, -21, -58, -33, -17, -28, -19,  -23,
];

pub const BISHOP_VALUES: [i16; 64] = [
    -29,   4, -82, -37, -25, -42,   7,  -8,
    -26,  16, -18, -13,  30,  59,  18, -47,
    -16,  37,  43,  40,  35,  50,  37,  -2,
     -4,   5,  19,  50,  37,  37,   7,  -2,
     -6,  13,  13,  26,  34,  12,  10,   4,
      0,  15,  15,  15,  14,  27,  18,  10,
      4,  15,  16,   0,   7,  21,  33,   1,
    -33,  -3, -14, -21, -13, -12, -39, -21,
];

pub const ROOK_VALUES: [i16; 64] = [
     32,  42,  32,  51, 63,  9,  31,  43,
     27,  32,  58,  62, 80, 67,  26,  44,
     -5,  19,  26,  36, 17, 45,  61,  16,
    -24, -11,   7,  26, 24, 35,  -8, -20,
    -36, -26, -12,  -1,  9, -7,   6, -23,
    -45, -25, -16, -17,  3,  0,  -5, -33,
    -44, -16, -20,  -9, -1, 11,  -6, -71,
    -19, -13,   1,  17, 16,  7, -37, -26,
];

pub const QUEEN_VALUES: [i16; 64] = [
    -28,   0,  29,  12,  59,  44,  43,  45,
    -24, -39,  -5,   1, -16,  57,  28,  54,
    -13, -17,   7,   8,  29,  56,  47,  57,
    -27, -27, -16, -16,  -1,  17,  -2,   1,
     -9, -26,  -9, -10,  -2,  -4,   3,  -3,
    -14,   2, -11,  -2,  -5,   2,  14,   5,
    -35,  -8,  11,   2,   8,  15,  -3,   1,
     -1, -18,  -9,  10, -15, -25, -31, -50,
];

pub const KING_VALUES: [i16; 64] = [
    -65,  23,  16, -15, -56, -34,   2,  13,
     29,  -1, -20,  -7,  -8,  -4, -38, -29,
     -9,  24,   2, -16, -20,   6,  22, -22,
    -17, -20, -12, -27, -30, -25, -14, -36,
    -49,  -1, -27, -39, -46, -44, -33, -51,
    -14, -14, -22, -46, -44, -30, -15, -27,
      1,   7,  -8, -64, -43, -16,   9,   8,
    -15,  36,  12, -54,   8, -28,  24,  14,
];

/// Well-formedness of one piece entry.
pub open spec fn piece_wf(p: PlacedPiece) -> bool {
    p.square < 64 && 1 <= p.role && p.role <= 6
}

/// Well-formedness of a piece listing.
pub open spec fn pieces_wf(s: Seq<PlacedPiece>) -> bool {
    forall|i: int| 0 <= i < s.len() ==> piece_wf(#[trigger] s[i])
}

/// Material weight of a role, in centipawns.
pub open spec fn spec_material_value(role: u8) -> int {
    if role == 1 {
        100
    } else if role == 2 || role == 3 {
        320
    } else if role == 4 {
        500
    } else if role == 5 {
        900
    } else {
        0
    }
}

/// The vertically flipped square index (a1 <-> a8, b2 <-> b7, ...).
pub open spec fn spec_flip(s: u8) -> int {
    56 - 8 * (s as int / 8) + s as int % 8
}

/// The piece-square table of a role.
pub open spec fn spec_table(role: u8) -> Seq<i16> {
    if role == 1 {
        PAWN_VALUES@
    } else if role == 2 {
        KNIGHT_VALUES@
    } else if role == 3 {
        BISHOP_VALUES@
    } else if role == 4 {
        ROOK_VALUES@
    } else if role == 5 {
        QUEEN_VALUES@
    } else {
        KING_VALUES@
    }
}

/// Signed contribution of one piece to the evaluation: material weight
/// plus the piece-square entry, added for White and subtracted for Black.
/// The tables are listed from White's perspective, so a White piece reads
/// its flipped square and a Black piece its square directly.
pub open spec fn spec_piece_score(p: PlacedPiece) -> int {
    if p.white {
        spec_material_value(p.role) + spec_table(p.role)[spec_flip(p.square)]
    } else {
        -(spec_material_value(p.role) + spec_table(p.role)[p.square as int])
    }
}

/// Sum of the per-piece contributions of a listing.
pub open spec fn spec_base_sum(s: Seq<PlacedPiece>) -> int
    decreases s.len(),
{
    if s.len() == 0 {
        0
    } else {
        spec_base_sum(s.drop_last()) + spec_piece_score(s.last())
    }
}

/// How many pieces of the given colour the listing holds.
pub open spec fn spec_color_count(s: Seq<PlacedPiece>, white: bool) -> int
    decreases s.len(),
{
    if s.len() == 0 {
        0
    } else {
        spec_color_count(s.drop_last(), white) + if s.last().white == white {
            1int
        } else {
            0int
        }
    }
}

/// How many bishops of the given colour the listing holds.
pub open spec fn spec_bishop_count(s: Seq<PlacedPiece>, white: bool) -> int
    decreases s.len(),
{
    if s.len() == 0 {
        0
    } else {
        spec_bishop_count(s.drop_last(), white) + if s.last().white == white && s.last().role == 3 {
            1int
        } else {
            0int
        }
    }
}

/// The full static evaluation: material and positional sum, plus a +50
/// bonus when White has exactly two bishops and -50 when Black does.
pub open spec fn spec_evaluate(s: Seq<PlacedPiece>) -> int {
    spec_base_sum(s) + (if spec_bishop_count(s, true) == 2 {
        50int
    } else {
        0int
    }) - (if spec_bishop_count(s, false) == 2 {
        50int
    } else {
        0int
    })
}

/// Every piece-square entry lies within +-170.
proof fn lemma_tables_bounded()
    ensures
        forall|role: u8, i: int|
            0 <= i < 64 ==> -170 <= #[trigger] spec_table(role)[i] <= 170,
{
    assert(forall|i: int| 0 <= i < 64 ==> -170 <= #[trigger] PAWN_VALUES@[i] <= 170);
    assert(forall|i: int| 0 <= i < 64 ==> -170 <= #[trigger] KNIGHT_VALUES@[i] <= 170);
    assert(forall|i: int| 0 <= i < 64 ==> -170 <= #[trigger] BISHOP_VALUES@[i] <= 170);
    assert(forall|i: int| 0 <= i < 64 ==> -170 <= #[trigger] ROOK_VALUES@[i] <= 170);
    assert(forall|i: int| 0 <= i < 64 ==> -170 <= #[trigger] QUEEN_VALUES@[i] <= 170);
    assert(forall|i: int| 0 <= i < 64 ==> -170 <= #[trigger] KING_VALUES@[i] <= 170);
}

/// Extending a prefix by one element shifts the recursive sums by that
/// element's contribution.
proof fn lemma_take_step(s: Seq<PlacedPiece>, i: int)
    requires
        0 <= i < s.len(),
    ensures
        spec_base_sum(s.take(i + 1)) == spec_base_sum(s.take(i)) + spec_piece_score(s[i]),
        spec_color_count(s.take(i + 1), true) == spec_color_count(s.take(i), true) + if s[i].white {
            1int
        } else {
            0int
        },
        spec_color_count(s.take(i + 1), false) == spec_color_count(s.take(i), false) + if !s[i].white {
            1int
        } else {
            0int
        },
        spec_bishop_count(s.take(i + 1), true) == spec_bishop_count(s.take(i), true) + if s[i].white
            && s[i].role == 3 {
            1int
        } else {
            0int
        },
        spec_bishop_count(s.take(i + 1), false) == spec_bishop_count(s.take(i), false) + if !s[i].white
            && s[i].role == 3 {
            1int
        } else {
            0int
        },
{
    assert(s.take(i + 1).drop_last() =~= s.take(i));
    assert(s.take(i + 1).last() == s[i]);
}

/// Exec table lookup for a role.
fn table_for(role: u8) -> (t: &'static [i16; 64])
    requires
        1 <= role <= 6,
    ensures
        t@ == spec_table(role),
{
    if role == 1 {
        &PAWN_VALUES
    } else if role == 2 {
        &KNIGHT_VALUES
    } else if role == 3 {
        &BISHOP_VALUES
    } else if role == 4 {
        &ROOK_VALUES
    } else if role == 5 {
        &QUEEN_VALUES
    } else {
        &KING_VALUES
    }
}

/// Exec material weight of a role.
fn material_value(role: u8) -> (v: i32)
    ensures
        v as int == spec_material_value(role),
{
    if role == 1 {
        100
    } else if role == 2 || role == 3 {
        320
    } else if role == 4 {
        500
    } else if role == 5 {
        900
    } else {
        0
    }
}

/// Counts the pieces of one colour in a listing.
pub fn count_color(pieces: &Vec<PlacedPiece>, white: bool) -> (r: usize)
    ensures
        r as int == spec_color_count(pieces@, white),
{
    let len: usize = pieces.len();
    let mut count: usize = 0;
    let mut i: usize = 0;
    while i < len
        invariant
            len == pieces@.len(),
            0 <= i <= len,
            count <= i,
            count as int == spec_color_count(pieces@.take(i as int), white),
        decreases len - i,
    {
        proof {
            lemma_take_step(pieces@, i as int);
        }
        if pieces[i].white == white {
            count = count + 1;
        }
        i = i + 1;
    }
    proof {
        assert(pieces@.take(len as int) =~= pieces@);
    }
    count
}

/// Static evaluation of a position given as a piece listing: the exact
/// material, piece-square and bishop-pair score of `spec_evaluate`, from
/// White's perspective, in centipawns. A legal chess position has at most
/// 16 pieces of each colour, which keeps the score within +-20000.
pub fn evaluate(pieces: &Vec<PlacedPiece>) -> (r: i16)
    requires
        pieces_wf(pieces@),
        spec_color_count(pieces@, true) <= 16,
        spec_color_count(pieces@, false) <= 16,
    ensures
        r as int == spec_evaluate(pieces@),
        -20000 <= r <= 20000,
{
    proof {
        lemma_tables_bounded();
    }
    let len: usize = pieces.len();
    let mut score: i32 = 0;
    let mut white_bishops: u32 = 0;
    let mut black_bishops: u32 = 0;
    let mut i: usize = 0;
    while i < len
        invariant
            len == pieces@.len(),
            0 <= i <= len,
            pieces_wf(pieces@),
            spec_color_count(pieces@, true) <= 16,
            spec_color_count(pieces@, false) <= 16,
            score as int == spec_base_sum(pieces@.take(i as int)),
            white_bishops as int == spec_bishop_count(pieces@.take(i as int), true),
            black_bishops as int == spec_bishop_count(pieces@.take(i as int), false),
            white_bishops <= 16,
            black_bishops <= 16,
            score as int <= 1070 * spec_color_count(pieces@.take(i as int), true) + 170
                * spec_color_count(pieces@.take(i as int), false),
            score as int >= -170 * spec_color_count(pieces@.take(i as int), true) - 1070
                * spec_color_count(pieces@.take(i as int), false),
            0 <= spec_color_count(pieces@.take(i as int), true) <= 16,
            0 <= spec_color_count(pieces@.take(i as int), false) <= 16,
            forall|role: u8, j: int| 0 <= j < 64 ==> -170 <= #[trigger] spec_table(role)[j] <= 170,
        decreases len - i,
    {
        let p: PlacedPiece = pieces[i];
        let value: i32 = material_value(p.role);
        let table: &[i16; 64] = table_for(p.role);
        let index: u8 = if p.white {
            56 - 8 * (p.square / 8) + p.square % 8
        } else {
            p.square
        };
        let entry: i32 = table[index as usize] as i32;
        proof {
            lemma_take_step(pieces@, i as int);
            lemma_color_count_prefix(pieces@, i as int + 1, true);
            lemma_color_count_prefix(pieces@, i as int + 1, false);
            lemma_bishop_count_le_color_count(pieces@.take(i as int + 1), true);
            lemma_bishop_count_le_color_count(pieces@.take(i as int + 1), false);
        }
        if p.white {
            score = score + value + entry;
        } else {
            score = score - (value + entry);
        }
        if p.role == 3 {
            if p.white {
                white_bishops = white_bishops + 1;
            } else {
                black_bishops = black_bishops + 1;
            }
        }
        i = i + 1;
    }
    proof {
        assert(pieces@.take(len as int) =~= pieces@);
    }
    if white_bishops == 2 {
        score = score + 50;
    }
    if black_bishops == 2 {
        score = score - 50;
    }
    score as i16
}

/// A prefix of a listing holds at most as many pieces of a colour as the
/// whole listing.
proof fn lemma_color_count_prefix(s: Seq<PlacedPiece>, i: int, white: bool)
    requires
        0 <= i <= s.len(),
    ensures
        spec_color_count(s.take(i), white) <= spec_color_count(s, white),
        0 <= spec_color_count(s.take(i), white),
    decreases s.len() - i,
{
    lemma_color_count_nonneg(s.take(i), white);
    if i == s.len() {
        assert(s.take(i) =~= s);
    } else {
        assert(s.take(i + 1).drop_last() =~= s.take(i));
        lemma_color_count_prefix(s, i + 1, white);
    }
}

/// A listing holds no more bishops of a colour than pieces of it.
proof fn lemma_bishop_count_le_color_count(s: Seq<PlacedPiece>, white: bool)
    ensures
        0 <= spec_bishop_count(s, white) <= spec_color_count(s, white),
    decreases s.len(),
{
    if s.len() > 0 {
        lemma_bishop_count_le_color_count(s.drop_last(), white);
    }
}

/// Colour counts are never negative.
proof fn lemma_color_count_nonneg(s: Seq<PlacedPiece>, white: bool)
    ensures
        0 <= spec_color_count(s, white),
    decreases s.len(),
{
    if s.len() > 0 {
        lemma_color_count_nonneg(s.drop_last(), white);
    }
}

/// The mirrored listing: every piece moves to its vertically flipped
/// square and changes colour.
pub open spec fn spec_mirror(s: Seq<PlacedPiece>) -> Seq<PlacedPiece> {
    s.map(
        |i: int, p: PlacedPiece|
            PlacedPiece { square: (spec_flip(p.square)) as u8, role: p.role, white: !p.white },
    )
}

/// Mirrors a listing of pieces: flips each square vertically and swaps
/// the colours.
pub fn mirror_pieces(pieces: &Vec<PlacedPiece>) -> (r: Vec<PlacedPiece>)
    requires
        pieces_wf(pieces@),
    ensures
        r@ == spec_mirror(pieces@),
        pieces_wf(r@),
{
    let len: usize = pieces.len();
    let mut r: Vec<PlacedPiece> = Vec::new();
    let mut i: usize = 0;
    while i < len
        invariant
            len == pieces@.len(),
            0 <= i <= len,
            pieces_wf(pieces@),
            r@.len() == i,
            forall|j: int| 0 <= j < i ==> r@[j] == spec_mirror(pieces@)[j],
            forall|j: int| 0 <= j < i ==> piece_wf(#[trigger] r@[j]),
        decreases len - i,
    {
        let p: PlacedPiece = pieces[i];
        let flipped: u8 = 56 - 8 * (p.square / 8) + p.square % 8;
        r.push(PlacedPiece { square: flipped, role: p.role, white: !p.white });
        i = i + 1;
    }
    proof {
        assert(r@ =~= spec_mirror(pieces@));
    }
    r
}

/// Flipping a square twice gives the square back.
proof fn lemma_flip_involution(s: u8)
    requires
        s < 64,
    ensures
        0 <= spec_flip(s) < 64,
        spec_flip((spec_flip(s)) as u8) == s as int,
{
    let x: int = s as int;
    vstd::arithmetic::div_mod::lemma_fundamental_div_mod(x, 8);
    vstd::arithmetic::div_mod::lemma_mod_bound(x, 8);
    let q: int = x / 8;
    let r: int = x % 8;
    let f: int = 56 - 8 * q + r;
    vstd::arithmetic::div_mod::lemma_fundamental_div_mod_converse(f, 8, 7 - q, r);
}

/// Mirroring negates each individual piece contribution.
proof fn lemma_piece_score_mirror(p: PlacedPiece)
    requires
        piece_wf(p),
    ensures
        spec_piece_score(
            PlacedPiece { square: (spec_flip(p.square)) as u8, role: p.role, white: !p.white },
        ) == -spec_piece_score(p),
{
    lemma_flip_involution(p.square);
}

/// Mirroring negates the base sum and swaps the bishop counts.
proof fn lemma_mirror_sums(s: Seq<PlacedPiece>)
    requires
        pieces_wf(s),
    ensures
        spec_base_sum(spec_mirror(s)) == -spec_base_sum(s),
        spec_bishop_count(spec_mirror(s), true) == spec_bishop_count(s, false),
        spec_bishop_count(spec_mirror(s), false) == spec_bishop_count(s, true),
    decreases s.len(),
{
    if s.len() == 0 {
        assert(spec_mirror(s) =~= Seq::<PlacedPiece>::empty());
    } else {
        assert(spec_mirror(s).drop_last() =~= spec_mirror(s.drop_last()));
        lemma_mirror_sums(s.drop_last());
        lemma_piece_score_mirror(s.last());
        assert(spec_mirror(s).last() == PlacedPiece {
            square: (spec_flip(s.last().square)) as u8,
            role: s.last().role,
            white: !s.last().white,
        });
    }
}

/// Mirroring a position flips the sign of its evaluation: material,
/// piece-square and bishop-pair components alike, because the tables are
/// shared between the colours through the vertical flip.
pub proof fn lemma_evaluate_mirror(s: Seq<PlacedPiece>)
    requires
        pieces_wf(s),
    ensures
        spec_evaluate(spec_mirror(s)) == -spec_evaluate(s),
{
    lemma_mirror_sums(s);
}

} // verus!
