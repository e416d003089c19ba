//! The engine's game state between searches: the root position, the
//! Zobrist history of all positions reached since the start of the
//! game, and the plies-since-irreversible counter that gates the
//! repetition check.

use vstd::prelude::*;

use crate::board;
use crate::board::START_FEN_TEXT;
use crate::board::spec_from_fen;
use crate::moves::EngineMove;
use crate::moves::parse_uci;
use crate::moves::spec_parse_uci;

verus! {

/// The outcome of applying one UCI token to a position: the next
/// position and whether the move was irreversible, or `None` when the
/// token does not parse or does not denote a legal move.
pub open spec fn spec_token_outcome(board: shakmaty::Chess, token: Seq<char>) -> Option<
    (shakmaty::Chess, bool),
> {
    match spec_parse_uci(vstd::utf8::encode_utf8(token)) {
        Some(m) => match board::spec_resolve_move(board, m) {
            Some(mv) => match board::spec_play_move(board, mv) {
                Some(next) => Some((next, board::spec_is_irreversible(board, mv))),
                None => None,
            },
            None => None,
        },
        None => None,
    }
}

/// The irreversible counter after one move: reset on an irreversible
/// move, else advanced by one (saturating at the type's edge).
pub open spec fn spec_bump_plies(plies: u64, irreversible: bool) -> u64 {
    if irreversible {
        0
    } else if plies < u64::MAX {
        (plies + 1) as u64
    } else {
        plies
    }
}

/// The state reached by replaying tokens from index `i` on, stopping at
/// the first token that fails: the position, the irreversible counter,
/// and the history extended by one hash per applied move.
pub open spec fn spec_replay(
    board: shakmaty::Chess,
    plies: u64,
    history: Seq<u64>,
    tokens: Seq<String>,
    i: int,
) -> (shakmaty::Chess, u64, Seq<u64>)
    decreases tokens.len() - i,
{
    if i < 0 || i >= tokens.len() {
        (board, plies, history)
    } else {
        match spec_token_outcome(board, tokens[i]@) {
            Some(outcome) => spec_replay(
                outcome.0,
                spec_bump_plies(plies, outcome.1),
                history.push(board::spec_zobrist(outcome.0)),
                tokens,
                i + 1,
            ),
            None => (board, plies, history),
        }
    }
}

/// The fields of a FEN record joined with single spaces, as bytes.
pub open spec fn spec_fen_bytes(fields: Seq<String>) -> Seq<u8>
    decreases fields.len(),
{
    if fields.len() == 0 {
        Seq::<u8>::empty()
    } else if fields.len() == 1 {
        vstd::utf8::encode_utf8(fields[0]@)
    } else {
        spec_fen_bytes(fields.drop_last()) + seq![32u8] + vstd::utf8::encode_utf8(fields.last()@)
    }
}

/// Joining one more field appends a separator (except before the first
/// field) and the field's bytes.
proof fn lemma_fen_bytes_take_step(fields: Seq<String>, i: int)
    requires
        0 <= i < fields.len(),
    ensures
        i == 0 ==> spec_fen_bytes(fields.take(1)) == vstd::utf8::encode_utf8(fields[0]@),
        i > 0 ==> spec_fen_bytes(fields.take(i + 1)) =~= spec_fen_bytes(fields.take(i))
            + seq![32u8] + vstd::utf8::encode_utf8(fields[i]@),
{
    if i == 0 {
        assert(fields.take(1).len() == 1);
        assert(fields.take(1)[0] == fields[0]);
    } else {
        assert(fields.take(i + 1).drop_last() =~= fields.take(i));
        assert(fields.take(i + 1).last() == fields[i]);
        assert(fields.take(i + 1).len() == i + 1);
    }
}

/// The root position and the bookkeeping the search needs around it.
pub struct GameState {
    /// The current root position.
    pub board: shakmaty::Chess,
    /// Plies played since the last irreversible move; the repetition
    /// check is skipped below 8.
    pub plies_since_irreversible_move: u64,
    /// Zobrist hashes of the positions reached since the game started.
    pub position_history: Vec<u64>,
}

impl GameState {
    /// A fresh state at the standard starting position, with an empty
    /// history.
    pub fn new() -> (r: GameState)
        ensures
            spec_from_fen(START_FEN_TEXT@) == Some(r.board),
            r.plies_since_irreversible_move == 0,
            r.position_history@.len() == 0,
    {
        GameState {
            board: board::chess_start(),
            plies_since_irreversible_move: 0,
            position_history: Vec::with_capacity(512),
        }
    }

    /// Back to the standard starting position: the history is cleared
    /// and re-seeded with the initial position's hash, and the
    /// irreversible counter is zeroed.
    pub fn reset(&mut self)
        ensures
            spec_from_fen(START_FEN_TEXT@) == Some(final(self).board),
            final(self).plies_since_irreversible_move == 0,
            final(self).position_history@ == seq![
                board::spec_zobrist(final(self).board),
            ],
    {
        self.board = board::chess_start();
        self.plies_since_irreversible_move = 0;
        self.position_history.clear();
        let hash: u64 = board::zobrist_hash(&self.board);
        self.position_history.push(hash);
        proof {
            assert(self.position_history@ =~= seq![board::spec_zobrist(self.board)]);
        }
    }

    /// Sets the root from a FEN record (after a reset, as the `position
    /// fen` command does). Returns true and sets the board to exactly
    /// the record's position when it parses and validates; returns
    /// false and leaves the reset state otherwise. The history holds
    /// the starting position's hash either way (as the reset seeded
    /// it), and the irreversible counter is zero.
    pub fn set_fen(&mut self, fen_bytes: &Vec<u8>) -> (ok: bool)
        ensures
            ok == (spec_from_fen(fen_bytes@) is Some),
            spec_from_fen(fen_bytes@) matches Some(b) ==> final(self).board == b,
            spec_from_fen(fen_bytes@) is None ==> spec_from_fen(START_FEN_TEXT@) == Some(
                final(self).board,
            ),
            final(self).plies_since_irreversible_move == 0,
            spec_from_fen(START_FEN_TEXT@) matches Some(start)
                ==> final(self).position_history@ == seq![board::spec_zobrist(start)],
    {
        self.reset();
        match board::from_fen(fen_bytes) {
            Some(b) => {
                self.board = b;
                true
            },
            None => false,
        }
    }

    /// Sets the root from the whitespace-split fields of a FEN record
    /// (the six tokens after `position fen`), joining them with single
    /// spaces, with the same outcome as `set_fen` on the joined
    /// record.
    pub fn set_fen_fields(&mut self, fields: &Vec<String>) -> (ok: bool)
        ensures
            ok == (spec_from_fen(spec_fen_bytes(fields@)) is Some),
            spec_from_fen(spec_fen_bytes(fields@)) matches Some(b) ==> final(self).board == b,
            spec_from_fen(spec_fen_bytes(fields@)) is None ==> spec_from_fen(START_FEN_TEXT@)
                == Some(final(self).board),
            final(self).plies_since_irreversible_move == 0,
            spec_from_fen(START_FEN_TEXT@) matches Some(start)
                ==> final(self).position_history@ == seq![board::spec_zobrist(start)],
    {
        let mut bytes: Vec<u8> = Vec::new();
        let len: usize = fields.len();
        let mut i: usize = 0;
        while i < len
            invariant
                len == fields@.len(),
                0 <= i <= len,
                bytes@ == spec_fen_bytes(fields@.take(i as int)),
            decreases len - i,
        {
            if i > 0 {
                bytes.push(32);
            }
            crate::text::push_slice(&mut bytes, fields[i].as_str().as_bytes());
            proof {
                lemma_fen_bytes_take_step(fields@, i as int);
            }
            i = i + 1;
        }
        proof {
            assert(fields@.take(len as int) =~= fields@);
        }
        self.set_fen(&bytes)
    }

    /// Plays one move given in UCI notation: parses the token, resolves
    /// it against the position, applies it, appends the new position's
    /// hash to the history, and resets or advances the irreversible
    /// counter. Returns false (leaving the state unchanged) exactly
    /// when the token does not parse or does not denote a legal move.
    pub fn play_uci_move(&mut self, token: &String) -> (ok: bool)
        ensures
            ok == (spec_token_outcome(old(self).board, token@) is Some),
            spec_token_outcome(old(self).board, token@) matches Some(outcome) ==> {
                &&& final(self).board == outcome.0
                &&& final(self).position_history@ == old(self).position_history@.push(
                    board::spec_zobrist(outcome.0),
                )
                &&& final(self).plies_since_irreversible_move == spec_bump_plies(
                    old(self).plies_since_irreversible_move,
                    outcome.1,
                )
            },
            !ok ==> *final(self) == *old(self),
    {
        let parsed: Option<EngineMove> = parse_uci(token.as_str().as_bytes());
        let m: EngineMove = match parsed {
            Some(m) => m,
            None => {
                return false;
            },
        };
        let resolved: Option<shakmaty::Move> = board::resolve_move(&self.board, &m);
        let mv: shakmaty::Move = match resolved {
            Some(mv) => mv,
            None => {
                return false;
            },
        };
        let irreversible: bool = board::move_is_irreversible(&self.board, &mv);
        let next: shakmaty::Chess = match board::play_move(&self.board, &mv) {
            Some(b) => b,
            None => {
                return false;
            },
        };
        self.board = next;
        let hash: u64 = board::zobrist_hash(&self.board);
        self.position_history.push(hash);
        if irreversible {
            self.plies_since_irreversible_move = 0;
        } else if self.plies_since_irreversible_move < u64::MAX {
            self.plies_since_irreversible_move = self.plies_since_irreversible_move + 1;
        }
        true
    }

    /// Replays a list of UCI move tokens from `start` on, stopping at
    /// the first one that fails (the rest are ignored, as the
    /// `position` command does): the final state is exactly the replay
    /// of the applicable prefix, with one history entry per applied
    /// move.
    pub fn play_uci_moves(&mut self, tokens: &Vec<String>, start: usize)
        ensures
            ({
                let replayed = spec_replay(
                    old(self).board,
                    old(self).plies_since_irreversible_move,
                    old(self).position_history@,
                    tokens@,
                    start as int,
                );
                &&& final(self).board == replayed.0
                &&& final(self).plies_since_irreversible_move == replayed.1
                &&& final(self).position_history@ == replayed.2
            }),
    {
        let len: usize = tokens.len();
        let mut i: usize = start;
        while i < len
            invariant
                len == tokens@.len(),
                start <= i,
                i <= len || i == start,
                spec_replay(
                    self.board,
                    self.plies_since_irreversible_move,
                    self.position_history@,
                    tokens@,
                    i as int,
                ) == spec_replay(
                    old(self).board,
                    old(self).plies_since_irreversible_move,
                    old(self).position_history@,
                    tokens@,
                    start as int,
                ),
            decreases len - i,
        {
            if !self.play_uci_move(&tokens[i]) {
                return ;
            }
            i = i + 1;
        }
    }
}

} // verus!
