//! End-to-end scenarios: the searcher and the driver on real positions,
//! through the real chess rules library.

use std::sync::atomic::AtomicBool;
use std::sync::atomic::Ordering;

use shakmaty::Position;

use reggz::search::negamax;
use reggz::search::search;
use reggz::state::GameState;
use reggz::table::TranspositionTable;

fn flag(value: bool) -> AtomicBool {
    AtomicBool::new(value)
}

fn tokens(words: &[&str]) -> Vec<String> {
    words.iter().map(|w| w.to_string()).collect()
}

fn starts_with(line: &[u8], prefix: &[u8]) -> bool {
    line.len() >= prefix.len() && &line[..prefix.len()] == prefix
}

fn contains(line: &[u8], needle: &[u8]) -> bool {
    line.windows(needle.len()).any(|w| w == needle)
}

fn move_token(line: &[u8]) -> String {
    // The move the bestmove line names.
    String::from_utf8(line[b"bestmove ".len()..].to_vec()).unwrap()
}

#[test]
fn startpos_depth_one_plays_a_legal_move() {
    let state = GameState::new();
    let searching = flag(true);
    let debug = flag(true);
    let mut history = state.position_history.clone();
    let mut table = TranspositionTable::new(4096);

    let report = search(&state.board, &searching, &debug, Some(1), 0, &mut history, &mut table);

    assert_eq!(report.lines.len(), 2);
    assert!(starts_with(&report.lines[0], b"info depth 1 score cp "));
    assert!(starts_with(&report.lines[1], b"bestmove "));
    assert!(!searching.load(Ordering::Relaxed));

    let played = move_token(&report.lines[1]);
    let legal: Vec<String> = state
        .board
        .legal_moves()
        .iter()
        .map(|m| m.to_uci(shakmaty::CastlingMode::Standard).to_string())
        .collect();
    assert!(legal.contains(&played));
}

#[test]
fn search_is_deterministic_across_runs() {
    let mut reports = Vec::new();
    for _ in 0..2 {
        let state = GameState::new();
        let searching = flag(true);
        let debug = flag(true);
        let mut history = state.position_history.clone();
        let mut table = TranspositionTable::new(4096);
        let report =
            search(&state.board, &searching, &debug, Some(3), 0, &mut history, &mut table);
        // Keep only the time-independent prefix of each info line and
        // the bestmove line.
        let shapes: Vec<Vec<u8>> = report
            .lines
            .iter()
            .map(|line| {
                match line.windows(6).position(|w| w == b" time ") {
                    Some(cut) => line[..cut].to_vec(),
                    None => line.clone(),
                }
            })
            .collect();
        reports.push((shapes, report.best.map(|n| (n.score, n.best_move, n.depth))));
    }
    assert_eq!(reports[0], reports[1]);
}

#[test]
fn mate_in_one_is_found_and_reported() {
    // Black mates with h2h1: the white king on d1 cannot leave the back
    // rank (the black king on d3 guards the second rank) and the queen
    // arriving on h1 sweeps it.
    let mut state = GameState::new();
    assert!(state.set_fen_fields(&tokens(&["8/8/8/8/8/3k4/7q/3K4", "b", "-", "-", "0", "1"])));
    let searching = flag(true);
    let debug = flag(true);
    let mut history = state.position_history.clone();
    let mut table = TranspositionTable::new(4096);

    let report = search(&state.board, &searching, &debug, Some(2), 0, &mut history, &mut table);

    assert!(report.lines.len() >= 2);
    let last = report.lines.last().unwrap();
    assert!(starts_with(last, b"bestmove "));
    for line in &report.lines[..report.lines.len() - 1] {
        assert!(contains(line, b" score mate 1 "));
    }

    // The reported move delivers checkmate on the spot.
    let played = move_token(last);
    let uci: shakmaty::uci::UciMove = played.parse().unwrap();
    let m = uci.to_move(&state.board).unwrap();
    let after = state.board.clone().play(m).unwrap();
    assert!(after.is_checkmate());
}

#[test]
fn insufficient_material_stops_deepening() {
    // Two bare kings: every depth returns the terminal draw at once, so
    // the driver stops after depth 1 and has no move to report.
    let mut state = GameState::new();
    assert!(state.set_fen_fields(&tokens(&["8/8/8/8/3k4/8/3K4/8", "w", "-", "-", "0", "1"])));
    let searching = flag(true);
    let debug = flag(true);
    let mut history = state.position_history.clone();
    let mut table = TranspositionTable::new(4096);

    let report = search(&state.board, &searching, &debug, Some(5), 0, &mut history, &mut table);

    let best = report.best.unwrap();
    assert!(best.terminal);
    assert!(best.best_move.is_none());
    assert_eq!(best.score, 0);
    assert_eq!(report.lines.len(), 1);
    assert!(starts_with(&report.lines[0], b"info depth 1 score cp 0 "));
}

#[test]
fn cancelled_before_dispatch_reports_nothing() {
    // The searching flag is already clear when the driver starts: no
    // nodes are searched and no line is emitted.
    let state = GameState::new();
    let searching = flag(false);
    let debug = flag(true);
    let mut history = state.position_history.clone();
    let mut table = TranspositionTable::new(4096);

    let report = search(&state.board, &searching, &debug, None, 0, &mut history, &mut table);

    assert!(report.best.is_none());
    assert!(report.lines.is_empty());
    assert!(!searching.load(Ordering::Relaxed));
}

#[test]
fn table_slots_respect_the_discipline() {
    // After a search every occupied slot sits where its hash points,
    // was searched to depth at least 1, and carries a best move.
    let state = GameState::new();
    let searching = flag(true);
    let debug = flag(false);
    let mut history = state.position_history.clone();
    let mut table = TranspositionTable::new(64);

    search(&state.board, &searching, &debug, Some(3), 0, &mut history, &mut table);

    let mut occupied = 0;
    let mut depths = Vec::new();
    for index in 0..table.len() {
        if let Some(node) = table.slot(index) {
            occupied += 1;
            assert_eq!((node.hash % 64) as usize, index);
            assert!(node.depth >= 1);
            assert!(node.best_move.is_some());
            assert!(-20000 <= node.score && node.score <= 20000);
            depths.push((index, node.depth));
        }
    }
    assert!(occupied > 0);

    // A second, shallower search may not overwrite any slot with a
    // shallower node.
    let searching = flag(true);
    let mut history = state.position_history.clone();
    search(&state.board, &searching, &debug, Some(1), 0, &mut history, &mut table);
    for (index, depth) in depths {
        let node = table.slot(index).unwrap();
        assert!(node.depth >= depth);
    }
}

#[test]
fn threefold_repetition_scores_zero() {
    // Knight shuffles bring the starting position back twice; with the
    // current position that is a threefold, and the search calls it a
    // draw at the root.
    let mut state = GameState::new();
    state.reset();
    let moves = tokens(&["g1f3", "g8f6", "f3g1", "f6g8", "g1f3", "g8f6", "f3g1", "f6g8"]);
    state.play_uci_moves(&moves, 0);
    assert_eq!(state.plies_since_irreversible_move, 8);
    assert_eq!(state.position_history.len(), 9);

    let searching = flag(true);
    let debug = flag(true);
    let mut history = state.position_history.clone();
    let mut table = TranspositionTable::new(4096);

    let report = search(
        &state.board,
        &searching,
        &debug,
        Some(4),
        state.plies_since_irreversible_move,
        &mut history,
        &mut table,
    );

    let best = report.best.unwrap();
    assert!(best.terminal);
    assert_eq!(best.score, 0);
    assert!(best.best_move.is_none());
}

#[test]
fn negamax_returns_a_legal_best_move() {
    // A completed root search of a quiet position names one of its
    // legal moves as best.
    let mut state = GameState::new();
    state.reset();
    state.play_uci_moves(&tokens(&["e2e4", "e7e5", "g1f3", "b8c6", "f1b5"]), 0);
    let searching = flag(true);
    let mut table = TranspositionTable::new(4096);
    let mut history = state.position_history.clone();
    let mut alpha: i16 = -10000;
    let mut beta: i16 = 10000;
    let mut nodes: u64 = 0;

    let legal: Vec<String> = state
        .board
        .legal_moves()
        .iter()
        .map(|m| m.to_uci(shakmaty::CastlingMode::Standard).to_string())
        .collect();

    let root_moves: Vec<reggz::EngineMove> =
        legal.iter().map(|t| reggz::moves::parse_uci(t.as_bytes()).unwrap()).collect();

    let node = negamax(
        &state.board,
        root_moves,
        2,
        &mut alpha,
        &mut beta,
        -1,
        &searching,
        &mut nodes,
        state.plies_since_irreversible_move,
        &mut history,
        &mut table,
        12345,
    )
    .unwrap();

    let best = node.best_move.unwrap();
    let best_token = String::from_utf8(reggz::moves::uci_bytes(&best)).unwrap();
    assert!(legal.contains(&best_token));
    assert!(nodes > 0);
}

#[test]
fn exact_scores_agree_across_brackets() {
    // Alpha-beta equivalence on a concrete position: two root windows
    // that both bracket the value give the same completed score.
    let mut state = GameState::new();
    state.reset();
    state.play_uci_moves(&tokens(&["e2e4", "e7e5"]), 0);
    let mut scores = Vec::new();
    for (a, b) in [(-10000i16, 10000i16), (-20000, 20000)] {
        let searching = flag(true);
        let mut table = TranspositionTable::new(4096);
        let mut history = state.position_history.clone();
        let mut alpha = a;
        let mut beta = b;
        let mut nodes: u64 = 0;
        let root_moves = reggz_legal_moves(&state);
        let hash = 99u64;
        let node = negamax(
            &state.board,
            root_moves,
            2,
            &mut alpha,
            &mut beta,
            1,
            &searching,
            &mut nodes,
            state.plies_since_irreversible_move,
            &mut history,
            &mut table,
            hash,
        )
        .unwrap();
        scores.push(node.score);
    }
    assert_eq!(scores[0], scores[1]);
}

fn reggz_legal_moves(state: &GameState) -> Vec<reggz::EngineMove> {
    state
        .board
        .legal_moves()
        .iter()
        .map(|m| {
            let token = m.to_uci(shakmaty::CastlingMode::Standard).to_string();
            reggz::moves::parse_uci(token.as_bytes()).unwrap()
        })
        .collect()
}

#[test]
fn bad_fen_leaves_the_reset_state() {
    let mut state = GameState::new();
    assert!(!state.set_fen_fields(&tokens(&["not", "a", "fen", "at", "all", "0"])));
    assert_eq!(state.position_history.len(), 1);
    assert_eq!(state.plies_since_irreversible_move, 0);
    // An illegal position (the side not to move stands in check) is
    // rejected by validation as well.
    assert!(!state.set_fen_fields(&tokens(&["8/8/8/8/8/3k4/3q4/3K4", "b", "-", "-", "0", "1"])));
}

#[test]
fn illegal_or_malformed_moves_stop_the_replay() {
    let mut state = GameState::new();
    state.reset();
    assert!(!state.play_uci_move(&"e9e4".to_string()));
    assert!(!state.play_uci_move(&"e7e5".to_string()));
    assert_eq!(state.position_history.len(), 1);

    // Replay stops at the first illegal move and keeps what came before.
    state.play_uci_moves(&tokens(&["e2e4", "a1a3", "e7e5"]), 0);
    assert_eq!(state.position_history.len(), 2);
}

#[test]
fn irreversible_moves_reset_the_counter() {
    let mut state = GameState::new();
    state.reset();
    state.play_uci_moves(&tokens(&["g1f3", "g8f6"]), 0);
    assert_eq!(state.plies_since_irreversible_move, 2);
    // A pawn push is irreversible.
    state.play_uci_moves(&tokens(&["e2e4"]), 0);
    assert_eq!(state.plies_since_irreversible_move, 0);
}

#[test]
fn principal_variation_starts_with_the_best_move() {
    let mut state = GameState::new();
    state.reset();
    state.play_uci_moves(&tokens(&["e2e4", "e7e5", "g1f3", "b8c6", "f1b5"]), 0);
    let searching = flag(true);
    let debug = flag(false);
    let mut history = state.position_history.clone();
    let mut table = TranspositionTable::new(4096);

    let report = search(
        &state.board,
        &searching,
        &debug,
        Some(3),
        state.plies_since_irreversible_move,
        &mut history,
        &mut table,
    );

    let best = report.best.unwrap().best_move.unwrap();
    let pv = reggz::search::get_principal_variation(&state.board, 3, &table);
    assert!(!pv.is_empty());
    assert!(pv.len() <= 3);
    assert_eq!(pv[0], best);
}

#[test]
fn material_advantage_shows_in_the_score() {
    // White is a queen up; a depth-1 search scores the position from
    // the static evaluation, so the result must reflect the material.
    let mut state = GameState::new();
    assert!(state.set_fen_fields(&tokens(&["k7/8/8/8/8/8/8/KQ6", "w", "-", "-", "0", "1"])));
    let searching = flag(true);
    let debug = flag(false);
    let mut history = state.position_history.clone();
    let mut table = TranspositionTable::new(4096);

    let report = search(&state.board, &searching, &debug, Some(1), 0, &mut history, &mut table);

    let best = report.best.unwrap();
    assert!(best.score > 500);
    assert!(best.score < 2000);
}

#[test]
fn set_fen_sets_exactly_that_position() {
    let mut state = GameState::new();
    let fields = ["r1bqkbnr/pppp1ppp/2n5/4p3/4P3/5N2/PPPP1PPP/RNBQKB1R", "w", "KQkq", "-", "2", "3"];
    assert!(state.set_fen_fields(&tokens(&fields)));

    let fen: shakmaty::fen::Fen = fields.join(" ").parse().unwrap();
    let expected: shakmaty::Chess =
        fen.into_position(shakmaty::CastlingMode::Standard).unwrap();
    assert_eq!(state.board, expected);
}

#[test]
fn play_uci_move_applies_exactly_that_move() {
    let mut state = GameState::new();
    state.reset();
    assert!(state.play_uci_move(&"e2e4".to_string()));

    let mut expected = shakmaty::Chess::default();
    let uci: shakmaty::uci::UciMove = "e2e4".parse().unwrap();
    let m = uci.to_move(&expected).unwrap();
    shakmaty::Position::play_unchecked(&mut expected, m);
    assert_eq!(state.board, expected);
    assert_eq!(state.position_history.len(), 2);
    assert_eq!(state.plies_since_irreversible_move, 0);
}
