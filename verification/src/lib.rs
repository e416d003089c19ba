//! A UCI chess engine core: an iterative-deepening alpha-beta negamax
//! searcher backed by a fixed-size transposition table and a static
//! positional evaluator. Chess rules (move generation, legality, hashing)
//! come from the `shakmaty` crate behind a small trusted boundary; every
//! algorithm and decision of the engine itself is verified.
//!
//! - [`moves`]: moves as plain coordinates, with UCI rendering/parsing.
//! - [`evaluate`]: material, bishop-pair and piece-square evaluation.
//! - [`table`]: the transposition table and its replacement discipline.
//! - [`search`]: the negamax searcher and the iterative-deepening driver.
//! - [`minimax`]: the alpha-beta pruning rule proved equivalent to plain
//!   negamax on an abstract game tree.
//! - [`state`]: the root position, history and repetition bookkeeping.
//! - [`plan`]: the timer and depth decision taken on a `go` command.
//! - [`text`]: the `info` and `bestmove` protocol lines as ASCII bytes.
//! - [`board`], [`sys`]: the trusted wrappers around the rules library,
//!   the clock and standard output.

pub mod board;
pub mod evaluate;
pub mod minimax;
pub mod moves;
pub mod plan;
pub mod search;
pub mod state;
pub mod sys;
pub mod table;
pub mod text;

pub use moves::EngineMove;
