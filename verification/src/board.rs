//! The trusted boundary to the chess rules library.
//!
//! The engine treats a chess position as an opaque value of
//! `shakmaty::Chess` and reads everything it needs through the small
//! wrappers below: legal moves and pieces come out as plain values
//! (`EngineMove`, `PlacedPiece`), and moves go back in as plain values
//! that the rules library itself resolves against the position, so an
//! ill-formed move can never corrupt a position.
//!
//! Every wrapped call is a pure function of its arguments, so each
//! result carries a name (an uninterpreted spec function): `spec_zobrist`
//! is *the* hash of a position, `spec_legal_moves` *the* legal-move
//! listing, and so on. The searcher's contracts are stated over these
//! names, which is what ties them to the position the rules library
//! sees. Verus believes the contracts of the wrappers without reading
//! their bodies; everything else in the crate is verified against them.

use shakmaty::Position;
use vstd::prelude::*;

use crate::evaluate::PlacedPiece;
use crate::evaluate::pieces_wf;
use crate::moves::EngineMove;
use crate::moves::move_wf;

verus! {

#[verifier::external_type_specification]
#[verifier::external_body]
pub struct ExChess(shakmaty::Chess);

#[verifier::external_type_specification]
#[verifier::external_body]
pub struct ExMove(shakmaty::Move);

/// The position a FEN record denotes, if it parses and validates as a
/// standard-chess position.
pub uninterp spec fn spec_from_fen(bytes: Seq<u8>) -> Option<shakmaty::Chess>;

/// The 64-bit Zobrist fingerprint of a position (en-passant-legal
/// semantics).
pub uninterp spec fn spec_zobrist(board: shakmaty::Chess) -> u64;

/// Whether White is to move.
pub uninterp spec fn spec_turn_is_white(board: shakmaty::Chess) -> bool;

/// Whether neither side can ever win.
pub uninterp spec fn spec_insufficient_material(board: shakmaty::Chess) -> bool;

/// The halfmove clock (for the fifty-move rule).
pub uninterp spec fn spec_halfmoves(board: shakmaty::Chess) -> u32;

/// Whether the side to move is in check.
pub uninterp spec fn spec_in_check(board: shakmaty::Chess) -> bool;

/// The position's legal moves, in generation order, as plain
/// coordinates.
pub uninterp spec fn spec_legal_moves(board: shakmaty::Chess) -> Seq<EngineMove>;

/// The legal move of the position that the plain coordinates denote, if
/// any.
pub uninterp spec fn spec_resolve_move(board: shakmaty::Chess, m: EngineMove) -> Option<
    shakmaty::Move,
>;

/// The position after a move, if the move is legal in the position.
pub uninterp spec fn spec_play_move(board: shakmaty::Chess, m: shakmaty::Move) -> Option<
    shakmaty::Chess,
>;

/// Whether the move resets the repetition window (pawn move, capture,
/// castling-rights change, ceded en passant).
pub uninterp spec fn spec_is_irreversible(board: shakmaty::Chess, m: shakmaty::Move) -> bool;

/// The pieces on the board, one entry per occupied square.
pub uninterp spec fn spec_pieces(board: shakmaty::Chess) -> Seq<PlacedPiece>;

/// The FEN record of the standard starting position.
pub const START_FEN_TEXT: [u8; 56] = [
    114, 110, 98, 113, 107, 98, 110, 114, 47, 112, 112, 112, 112, 112, 112, 112, 112, 47, 56, 47,
    56, 47, 56, 47, 56, 47, 80, 80, 80, 80, 80, 80, 80, 80, 47, 82, 78, 66, 81, 75, 66, 78, 82,
    32, 119, 32, 75, 81, 107, 113, 32, 45, 32, 48, 32, 49,
];

/// Relies on shakmaty's `Chess::default`: the standard starting
/// position, which is exactly the position the standard FEN record
/// ("rnbqkbnr/pppppppp/8/8/8/8/PPPPPPPP/RNBQKBNR w KQkq - 0 1",
/// `START_FEN_TEXT`) parses and validates to: the same piece placement,
/// side to move, full castling rights, no en passant, and zeroed
/// clocks.
#[verifier::external_body]
pub(crate) fn chess_start() -> (r: shakmaty::Chess)
    ensures
        spec_from_fen(START_FEN_TEXT@) == Some(r),
{
    shakmaty::Chess::default()
}

/// Relies on shakmaty's `Fen::from_ascii` and `Fen::into_position`:
/// parses a FEN record and validates it as a standard-chess position
/// (castling mode `Standard`), returning `None` on any parse or
/// validation error.
#[verifier::external_body]
pub(crate) fn from_fen(bytes: &Vec<u8>) -> (r: Option<shakmaty::Chess>)
    ensures
        r == spec_from_fen(bytes@),
{
    match shakmaty::fen::Fen::from_ascii(bytes.as_slice()) {
        Ok(fen) => fen.into_position(shakmaty::CastlingMode::Standard).ok(),
        Err(_) => None,
    }
}

/// Relies on shakmaty's `Position::zobrist_hash` with en-passant-legal
/// semantics: a pure function of the position.
#[verifier::external_body]
pub(crate) fn zobrist_hash(board: &shakmaty::Chess) -> (r: u64)
    ensures
        r == spec_zobrist(*board),
{
    board.zobrist_hash::<shakmaty::zobrist::Zobrist64>(shakmaty::EnPassantMode::Legal).0
}

/// Relies on shakmaty's `Position::turn`: true when White is to move.
#[verifier::external_body]
pub(crate) fn turn_is_white(board: &shakmaty::Chess) -> (r: bool)
    ensures
        r == spec_turn_is_white(*board),
{
    board.turn() == shakmaty::Color::White
}

/// Relies on shakmaty's `Position::is_insufficient_material`: neither
/// side can ever win.
#[verifier::external_body]
pub(crate) fn insufficient_material(board: &shakmaty::Chess) -> (r: bool)
    ensures
        r == spec_insufficient_material(*board),
{
    board.is_insufficient_material()
}

/// Relies on shakmaty's `Position::halfmoves`: the halfmove clock for
/// the fifty-move rule.
#[verifier::external_body]
pub(crate) fn halfmoves(board: &shakmaty::Chess) -> (r: u32)
    ensures
        r == spec_halfmoves(*board),
{
    board.halfmoves()
}

/// Relies on shakmaty's `Position::is_check`: the side to move is in
/// check.
#[verifier::external_body]
pub(crate) fn in_check(board: &shakmaty::Chess) -> (r: bool)
    ensures
        r == spec_in_check(*board),
{
    board.is_check()
}

/// Relies on shakmaty's `Position::legal_moves` and, per move, on
/// `Move::to_uci` (castling mode `Standard`) and `Move::is_capture`,
/// which it converts one for one into plain coordinates. Every returned
/// move has squares below 64 (shakmaty squares are an enum of 64) and a
/// promotion role among knight, bishop, rook, queen (the only legal
/// standard-chess promotions), so it is well-formed. Each entry also
/// resolves back through `UciMove::to_move`: to_uci and to_move are
/// inverse on legal moves under the Standard castling mode (a normal
/// move is rebuilt from the origin square's role, a king's two-square
/// move or a move onto an own castling rook becomes the castle, a
/// diagonal pawn move to an empty square the en passant capture), and
/// to_move returns exactly the moves that pass `is_legal`.
#[verifier::external_body]
pub(crate) fn legal_moves_repr(board: &shakmaty::Chess) -> (r: Vec<EngineMove>)
    ensures
        r@ == spec_legal_moves(*board),
        forall|i: int| 0 <= i < r@.len() ==> move_wf(#[trigger] r@[i]),
        forall|i: int|
            0 <= i < r@.len() ==> spec_resolve_move(*board, #[trigger] r@[i]) is Some,
{
    let mut out: Vec<EngineMove> = Vec::new();
    for m in board.legal_moves() {
        if let shakmaty::uci::UciMove::Normal { from, to, promotion } =
            m.to_uci(shakmaty::CastlingMode::Standard)
        {
            let promo: u8 = match promotion {
                Some(role) => role as u8,
                None => 0,
            };
            out.push(EngineMove { from: from as u8, to: to as u8, promotion: promo, capture: m.is_capture() });
        }
    }
    out
}

/// Relies on shakmaty's `UciMove::to_move`: finds the legal move of the
/// position that the plain coordinates denote, or `None` if there is no
/// such legal move. (A well-formed move is required so the squares can
/// be rebuilt without panicking.) A resolved move passes `is_legal` —
/// to_move checks exactly that before returning — and `Position::play`
/// succeeds on exactly the `is_legal` moves, so a resolved move always
/// plays.
#[verifier::external_body]
pub(crate) fn resolve_move(board: &shakmaty::Chess, m: &EngineMove) -> (r: Option<shakmaty::Move>)
    requires
        move_wf(*m),
    ensures
        r == spec_resolve_move(*board, *m),
        r matches Some(mv) ==> spec_play_move(*board, mv) is Some,
{
    let promotion: Option<shakmaty::Role> = match m.promotion {
        2 => Some(shakmaty::Role::Knight),
        3 => Some(shakmaty::Role::Bishop),
        4 => Some(shakmaty::Role::Rook),
        5 => Some(shakmaty::Role::Queen),
        _ => None,
    };
    let uci = shakmaty::uci::UciMove::Normal {
        from: shakmaty::Square::new(m.from as u32),
        to: shakmaty::Square::new(m.to as u32),
        promotion,
    };
    uci.to_move(board).ok()
}

/// Relies on shakmaty's `Position::play`: the position after the move,
/// or `None` if the move is not legal in the position.
#[verifier::external_body]
pub(crate) fn play_move(board: &shakmaty::Chess, m: &shakmaty::Move) -> (r: Option<shakmaty::Chess>)
    ensures
        r == spec_play_move(*board, *m),
{
    board.clone().play(*m).ok()
}

/// Relies on shakmaty's `Position::is_irreversible`: pawn moves,
/// captures, moves changing castling rights, and moves ceding an
/// en-passant opportunity reset the repetition window.
#[verifier::external_body]
pub(crate) fn move_is_irreversible(board: &shakmaty::Chess, m: &shakmaty::Move) -> (r: bool)
    ensures
        r == spec_is_irreversible(*board, *m),
{
    board.is_irreversible(*m)
}

/// Relies on shakmaty's `Chess::clone`: an equal, independent position.
#[verifier::external_body]
pub(crate) fn clone_position(board: &shakmaty::Chess) -> (r: shakmaty::Chess)
    ensures
        r == *board,
{
    board.clone()
}

/// Relies on shakmaty's `Position::board` and `Board::iter`, converted
/// one entry per occupied square into plain values: at most 64 entries,
/// each with a square below 64 (shakmaty squares are an enum of 64) and
/// a role among the six piece types.
#[verifier::external_body]
pub(crate) fn extract_pieces(board: &shakmaty::Chess) -> (r: Vec<PlacedPiece>)
    ensures
        r@ == spec_pieces(*board),
        pieces_wf(r@),
        r@.len() <= 64,
{
    let mut out: Vec<PlacedPiece> = Vec::new();
    for (sq, piece) in board.board().iter() {
        out.push(PlacedPiece {
            square: sq as u8,
            role: piece.role as u8,
            white: piece.color == shakmaty::Color::White,
        });
    }
    out
}

} // verus!
