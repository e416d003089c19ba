//! The decision taken on a `go` command: whether to arm the move timer
//! and with what budget, and how deep the search may go.

use vstd::prelude::*;

verus! {

/// The parameters of a `go` command, all optional. Times and increments
/// are in milliseconds, the depth in plies.
#[derive(Clone, Copy, Debug)]
pub struct GoParams {
    pub ponder: bool,
    pub wtime: Option<u64>,
    pub btime: Option<u64>,
    pub winc: Option<u64>,
    pub binc: Option<u64>,
    pub movetime: Option<u64>,
    pub depth: Option<u8>,
    pub infinite: bool,
}

impl GoParams {
    /// A `go` with nothing set: no limits, no timer.
    pub fn new() -> (r: GoParams)
        ensures
            r == (GoParams {
                ponder: false,
                wtime: None,
                btime: None,
                winc: None,
                binc: None,
                movetime: None,
                depth: None,
                infinite: false,
            }),
    {
        GoParams {
            ponder: false,
            wtime: None,
            btime: None,
            winc: None,
            binc: None,
            movetime: None,
            depth: None,
            infinite: false,
        }
    }
}

/// What the engine decides to do for a `go`: arm a timer that clears
/// the searching flag after the budget (or none for an untimed search),
/// and cap the iterative deepening at `max_depth` if given.
#[derive(Clone, Copy, PartialEq, Eq, Debug)]
pub struct SearchPlan {
    pub timer_ms: Option<u64>,
    pub max_depth: Option<u8>,
}

/// The move-time budget computed from a clock: a twentieth of the
/// remaining time plus half the increment.
pub open spec fn spec_clock_budget(remaining: u64, increment: u64) -> int {
    remaining as int / 20 + increment as int / 2
}

/// Decides the timer and depth limit for a `go` command. `infinite`
/// suppresses the timer; an explicit `movetime` is used as is; else the
/// side to move's clock, when given, yields a budget of a twentieth of
/// the remaining time plus half the increment; with no time control at
/// all, no timer is armed.
pub fn plan_search(params: &GoParams, white_to_move: bool) -> (r: SearchPlan)
    ensures
        r.max_depth == params.depth,
        params.infinite ==> r.timer_ms is None,
        !params.infinite ==> (params.movetime matches Some(t) ==> r.timer_ms == Some(t)),
        !params.infinite && params.movetime is None && white_to_move ==> (params.wtime matches Some(
            remaining,
        ) ==> r.timer_ms matches Some(b) && b as int == spec_clock_budget(
            remaining,
            spec_increment(params.winc),
        )),
        !params.infinite && params.movetime is None && !white_to_move ==> (params.btime matches
            Some(remaining) ==> r.timer_ms matches Some(b) && b as int == spec_clock_budget(
            remaining,
            spec_increment(params.binc),
        )),
        !params.infinite && params.movetime is None && (if white_to_move {
            params.wtime is None
        } else {
            params.btime is None
        }) ==> r.timer_ms is None,
{
    let mut timer_ms: Option<u64> = None;
    if !params.infinite {
        if let Some(move_time) = params.movetime {
            timer_ms = Some(move_time);
        } else if white_to_move {
            if let Some(remaining) = params.wtime {
                let increment: u64 = match params.winc {
                    Some(i) => i,
                    None => 0,
                };
                timer_ms = Some(remaining / 20 + increment / 2);
            }
        } else {
            if let Some(remaining) = params.btime {
                let increment: u64 = match params.binc {
                    Some(i) => i,
                    None => 0,
                };
                timer_ms = Some(remaining / 20 + increment / 2);
            }
        }
    }
    SearchPlan { timer_ms, max_depth: params.depth }
}

/// The increment actually used: the given one, or zero.
pub open spec fn spec_increment(increment: Option<u64>) -> u64 {
    match increment {
        Some(i) => i,
        None => 0,
    }
}

} // verus!
