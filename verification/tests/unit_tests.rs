//! Unit tests for the move representation, the evaluator, the
//! transposition table, the output rendering and the go-plan decision.

use reggz::evaluate::evaluate;
use reggz::evaluate::mirror_pieces;
use reggz::evaluate::PlacedPiece;
use reggz::moves::parse_uci;
use reggz::moves::uci_bytes;
use reggz::moves::EngineMove;
use reggz::plan::plan_search;
use reggz::plan::GoParams;
use reggz::search::bump_mate;
use reggz::search::repetition_exceeded;
use reggz::table::Node;
use reggz::table::NodeType;
use reggz::table::TranspositionTable;
use reggz::text::format_bestmove;
use reggz::text::format_info;
use reggz::text::nodes_per_second;

fn mv(from: u8, to: u8) -> EngineMove {
    EngineMove { from, to, promotion: 0, capture: false }
}

fn sample_node(hash: u64, score: i16, depth: u8) -> Node {
    Node {
        hash,
        score,
        best_move: Some(mv(12, 28)),
        depth,
        node_type: NodeType::EXACT,
        mate_in_plies: None,
        terminal: false,
    }
}

#[test]
fn parse_simple_move() {
    let m = parse_uci(b"e2e4").unwrap();
    assert_eq!(m.from, 12);
    assert_eq!(m.to, 28);
    assert_eq!(m.promotion, 0);
    assert!(!m.capture);
}

#[test]
fn parse_promotion_move() {
    let m = parse_uci(b"e7e8q").unwrap();
    assert_eq!(m.from, 52);
    assert_eq!(m.to, 60);
    assert_eq!(m.promotion, 5);
}

#[test]
fn parse_rejects_malformed_tokens() {
    assert!(parse_uci(b"").is_none());
    assert!(parse_uci(b"e2").is_none());
    assert!(parse_uci(b"e2e9").is_none());
    assert!(parse_uci(b"i2e4").is_none());
    assert!(parse_uci(b"e7e8k").is_none());
    assert!(parse_uci(b"e2e4e5").is_none());
}

#[test]
fn move_renders_back_to_its_token() {
    let m = parse_uci(b"g1f3").unwrap();
    assert_eq!(uci_bytes(&m), b"g1f3".to_vec());
    let p = parse_uci(b"a7a8n").unwrap();
    assert_eq!(uci_bytes(&p), b"a7a8n".to_vec());
}

#[test]
fn evaluate_empty_board_is_zero() {
    let pieces: Vec<PlacedPiece> = Vec::new();
    assert_eq!(evaluate(&pieces), 0);
}

#[test]
fn evaluate_single_white_pawn() {
    // A pawn on e4 (square 28): 100 material plus the e4 table entry 17.
    let pieces = vec![PlacedPiece { square: 28, role: 1, white: true }];
    assert_eq!(evaluate(&pieces), 117);
}

#[test]
fn evaluate_bishop_pair_bonus() {
    // Two white bishops on c1 (2) and f1 (5): 320 + 320 material,
    // table entries at the flipped squares 58 and 61 are -14 and -12,
    // plus the +50 pair bonus.
    let pieces = vec![
        PlacedPiece { square: 2, role: 3, white: true },
        PlacedPiece { square: 5, role: 3, white: true },
    ];
    assert_eq!(evaluate(&pieces), 320 + 320 - 14 - 12 + 50);
}

#[test]
fn evaluate_mirror_flips_sign() {
    let pieces = vec![
        PlacedPiece { square: 28, role: 1, white: true },
        PlacedPiece { square: 2, role: 3, white: true },
        PlacedPiece { square: 5, role: 3, white: true },
        PlacedPiece { square: 59, role: 5, white: false },
        PlacedPiece { square: 33, role: 2, white: false },
    ];
    let mirrored = mirror_pieces(&pieces);
    assert_eq!(evaluate(&mirrored), -evaluate(&pieces));
}

#[test]
fn table_stores_and_finds_nodes() {
    let mut table = TranspositionTable::new(64);
    let node = sample_node(1000, 42, 3);
    table.store(node);
    let found = table.lookup(1000).unwrap();
    assert_eq!(found.hash, 1000);
    assert_eq!(found.score, 42);
    assert_eq!(found.depth, 3);
}

#[test]
fn table_keeps_deeper_nodes() {
    // The depth-preferred policy: a shallower or equal-depth node never
    // replaces an occupant; a strictly deeper one does.
    let mut table = TranspositionTable::new(64);
    table.store(sample_node(1000, 42, 3));
    table.store(sample_node(1064, 7, 2));
    assert_eq!(table.lookup(1000).unwrap().score, 42);
    table.store(sample_node(1064, 8, 3));
    assert_eq!(table.lookup(1000).unwrap().score, 42);
    table.store(sample_node(1064, 9, 4));
    assert_eq!(table.lookup(1000).unwrap().score, 9);
    assert_eq!(table.lookup(1000).unwrap().hash, 1064);
}

#[test]
fn bump_mate_propagates_distances() {
    assert_eq!(bump_mate(0), 1);
    assert_eq!(bump_mate(1), -2);
    assert_eq!(bump_mate(-1), 2);
    assert_eq!(bump_mate(-2), 3);
    assert_eq!(bump_mate(3), -4);
}

#[test]
fn repetition_needs_three_occurrences() {
    let twice = vec![5u64, 9, 5, 11];
    assert!(!repetition_exceeded(&twice, 5));
    let thrice = vec![5u64, 9, 5, 11, 5];
    assert!(repetition_exceeded(&thrice, 5));
}

#[test]
fn nodes_per_second_formula() {
    assert_eq!(nodes_per_second(20, 5), 3000);
    assert_eq!(nodes_per_second(0, 0), 0);
    assert_eq!(nodes_per_second(1000, 0), 1000000);
}

#[test]
fn info_line_rendering() {
    let node = Node {
        hash: 0,
        score: 17,
        best_move: None,
        depth: 1,
        node_type: NodeType::EXACT,
        mate_in_plies: None,
        terminal: false,
    };
    let pv = vec![mv(12, 28)];
    let line = format_info(1, &node, 5, 20, &pv);
    assert_eq!(line, b"info depth 1 score cp 17 time 5 nodes 20 nps 3000 pv e2e4".to_vec());
}

#[test]
fn info_line_mate_score() {
    let node = Node {
        hash: 0,
        score: 20000,
        best_move: None,
        depth: 2,
        node_type: NodeType::EXACT,
        mate_in_plies: Some(1),
        terminal: true,
    };
    let pv: Vec<EngineMove> = Vec::new();
    let line = format_info(2, &node, 0, 3, &pv);
    assert_eq!(line, b"info depth 2 score mate 1 time 0 nodes 3 nps 3000 pv ".to_vec());
}

#[test]
fn info_line_negative_mate_rounds_toward_zero() {
    let node = Node {
        hash: 0,
        score: -20000,
        best_move: None,
        depth: 2,
        node_type: NodeType::EXACT,
        mate_in_plies: Some(-3),
        terminal: true,
    };
    let pv: Vec<EngineMove> = Vec::new();
    let line = format_info(2, &node, 0, 3, &pv);
    assert_eq!(line, b"info depth 2 score mate -1 time 0 nodes 3 nps 3000 pv ".to_vec());
}

#[test]
fn bestmove_line_rendering() {
    let line = format_bestmove(&mv(12, 28));
    assert_eq!(line, b"bestmove e2e4".to_vec());
}

#[test]
fn plan_uses_explicit_movetime() {
    let mut params = GoParams::new();
    params.movetime = Some(500);
    let plan = plan_search(&params, true);
    assert_eq!(plan.timer_ms, Some(500));
    assert_eq!(plan.max_depth, None);
}

#[test]
fn plan_computes_clock_budget() {
    let mut params = GoParams::new();
    params.wtime = Some(60000);
    params.winc = Some(1000);
    let plan = plan_search(&params, true);
    assert_eq!(plan.timer_ms, Some(60000 / 20 + 1000 / 2));
    let black = plan_search(&params, false);
    assert_eq!(black.timer_ms, None);
}

#[test]
fn plan_infinite_arms_no_timer() {
    let mut params = GoParams::new();
    params.infinite = true;
    params.wtime = Some(60000);
    params.movetime = Some(500);
    params.depth = Some(9);
    let plan = plan_search(&params, true);
    assert_eq!(plan.timer_ms, None);
    assert_eq!(plan.max_depth, Some(9));
}

fn leaf(value: i16) -> reggz::minimax::GameTree {
    reggz::minimax::GameTree::Leaf { value }
}

fn branch(children: Vec<reggz::minimax::GameTree>) -> reggz::minimax::GameTree {
    reggz::minimax::GameTree::Branch { children }
}

fn sample_tree() -> reggz::minimax::GameTree {
    branch(vec![
        branch(vec![leaf(3), leaf(-7), leaf(12)]),
        branch(vec![leaf(-4), leaf(9)]),
        branch(vec![leaf(0), leaf(1), leaf(-2)]),
    ])
}

#[test]
fn alphabeta_matches_plain_negamax() {
    // The children are worth 7, 4 and 2 to the opponent, so the root is
    // worth max(-7, -4, -2) = -2.
    let t = sample_tree();
    assert_eq!(reggz::minimax::tree_value(&t), -2);
    assert_eq!(reggz::minimax::alphabeta(&t, -10000, 10000), -2);
    assert_eq!(reggz::minimax::alphabeta(&t, -3, 10000), -2);
}

#[test]
fn alphabeta_fails_on_the_correct_side() {
    let t = sample_tree();
    // A window above the true value fails low: the result is at most
    // alpha and at least the true value.
    let low = reggz::minimax::alphabeta(&t, 0, 10);
    assert!(low <= 0 && low >= -2);
    // A window below the true value fails high: the result is at least
    // beta and at most the true value.
    let high = reggz::minimax::alphabeta(&t, -100, -50);
    assert!(high >= -50 && high <= -2);
}

#[test]
fn starting_position_evaluates_to_zero() {
    // Black's starting pieces are exactly the mirror of White's, so the
    // whole evaluation cancels.
    let mut white: Vec<PlacedPiece> = Vec::new();
    let back_rank = [4u8, 2, 3, 5, 6, 3, 2, 4];
    for (file, role) in back_rank.iter().enumerate() {
        white.push(PlacedPiece { square: file as u8, role: *role, white: true });
        white.push(PlacedPiece { square: 8 + file as u8, role: 1, white: true });
    }
    let black = mirror_pieces(&white);
    let mut all = white.clone();
    all.extend(black);
    assert_eq!(all.len(), 32);
    assert_eq!(evaluate(&all), 0);
}

#[test]
fn default_table_length_is_positive() {
    let length = reggz::table::default_table_length();
    assert!(length >= 1000);
    assert!(length <= 240 * 1000 * 1000);
}
