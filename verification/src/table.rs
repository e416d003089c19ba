//! The transposition table: a fixed-length vector of optional search
//! nodes, indexed by Zobrist hash modulo the length.
//!
//! The replacement policy is depth-preferred: a stored node is only ever
//! replaced by a node of strictly greater depth, so no slot is ever
//! overwritten by a shallower result.

use vstd::prelude::*;

use crate::moves::EngineMove;
use crate::moves::move_wf;

verus! {

/// How much memory the table may consume, in bytes.
pub const TABLE_BUDGET_BYTES: usize = 240 * 1000 * 1000;

/// The kind of bound a stored score is: exact, an upper bound (no move
/// raised alpha), or a lower bound (a beta cutoff occurred).
#[derive(Clone, Copy, PartialEq, Eq, Structural, Debug)]
pub enum NodeType {
    EXACT,
    UPPERBOUND,
    LOWERBOUND,
}

/// One search result, the unit stored in the transposition table.
///
/// `score` is in centipawns from the perspective of the side to move.
/// `mate_in_plies` encodes a forced mate found within the horizon:
/// `Some(0)` means the side to move is checkmated on the spot; after
/// propagation up the tree, a positive `k` means the side to move
/// forces mate in `k` plies and a negative `k` that the opponent forces
/// mate in `-k` plies (so the `info` line's `mate` count is positive
/// when the engine mates). `terminal` is true when every explored line
/// ended in a rule-based terminal, so deepening cannot change the
/// answer.
#[derive(Clone, Copy, Debug)]
pub struct Node {
    pub hash: u64,
    pub score: i16,
    pub best_move: Option<EngineMove>,
    pub depth: u8,
    pub node_type: NodeType,
    pub mate_in_plies: Option<i16>,
    pub terminal: bool,
}

/// The slot index a hash maps to in a table of the given length.
pub open spec fn spec_slot_index(hash: u64, len: int) -> int {
    hash as int % len
}

/// What always holds of a node that sits in an occupied slot: it lives in
/// the slot its hash selects, it was produced by a completed move loop
/// (so it carries a well-formed best move and was searched to depth at
/// least 1), and its score is in the range completed searches produce.
pub open spec fn stored_node_ok(n: Node, index: int, len: int) -> bool {
    &&& spec_slot_index(n.hash, len) == index
    &&& -20000 <= n.score <= 20000
    &&& n.best_move matches Some(m) && move_wf(m)
    &&& n.depth >= 1
}

/// Relies on `core::mem::size_of`: the size of one table slot in
/// bytes. A slot holds a `u64` among other fields, so it occupies at
/// least one byte.
#[verifier::external_body]
fn slot_size() -> (r: usize)
    ensures
        r >= 1,
{
    core::mem::size_of::<Option<Node>>()
}

/// The number of slots that fit the memory budget: the budget divided
/// by the size of one slot (at least one slot).
pub fn default_table_length() -> (r: usize)
    ensures
        1 <= r <= TABLE_BUDGET_BYTES,
{
    let size: usize = slot_size();
    let length: usize = TABLE_BUDGET_BYTES / size;
    if length == 0 {
        1
    } else {
        length
    }
}

/// A fixed-capacity, hash-indexed cache of prior search results.
pub struct TranspositionTable {
    slots: Vec<Option<Node>>,
}

impl TranspositionTable {
    /// The stored slots, as a sequence of optional nodes.
    pub closed spec fn view(&self) -> Seq<Option<Node>> {
        self.slots@
    }

    /// Capacity invariant plus per-slot invariants.
    pub open spec fn wf(&self) -> bool {
        &&& self.view().len() >= 1
        &&& forall|i: int|
            0 <= i < self.view().len() ==> ((#[trigger] self.view()[i]) matches Some(n)
                ==> stored_node_ok(n, i, self.view().len() as int))
    }

    /// Creates an empty table with the given number of slots. The length
    /// is fixed for the life of the table; memory use never grows during
    /// a search.
    pub fn new(length: usize) -> (r: TranspositionTable)
        requires
            length >= 1,
        ensures
            r.wf(),
            r.view().len() == length,
            forall|i: int| 0 <= i < length ==> (#[trigger] r.view()[i]) is None,
    {
        let mut slots: Vec<Option<Node>> = Vec::new();
        let mut i: usize = 0;
        while i < length
            invariant
                0 <= i <= length,
                slots@.len() == i,
                forall|j: int| 0 <= j < i ==> (#[trigger] slots@[j]) is None,
            decreases length - i,
        {
            slots.push(None);
            i = i + 1;
        }
        TranspositionTable { slots }
    }

    /// The number of slots.
    pub fn len(&self) -> (r: usize)
        ensures
            r == self.view().len(),
    {
        self.slots.len()
    }

    /// Reads one slot by index.
    pub fn slot(&self, index: usize) -> (r: Option<Node>)
        requires
            index < self.view().len(),
        ensures
            r == self.view()[index as int],
    {
        self.slots[index]
    }

    /// Returns the slot a hash maps to. The caller must check the stored
    /// node's own hash before trusting it: distinct positions may share a
    /// slot, and even a 64-bit hash can collide.
    pub fn lookup(&self, hash: u64) -> (r: Option<Node>)
        requires
            self.wf(),
        ensures
            r == self.view()[spec_slot_index(hash, self.view().len() as int)],
    {
        let len: usize = self.slots.len();
        let index: usize = (hash % (len as u64)) as usize;
        self.slots[index]
    }

    /// Stores a node at the slot its hash selects, but only if the slot
    /// is empty or holds a strictly shallower node; an occupant of equal
    /// or greater depth stays. No occupied slot is ever replaced by a
    /// node of lesser depth, and no other slot changes.
    pub fn store(&mut self, node: Node)
        requires
            old(self).wf(),
            stored_node_ok(
                node,
                spec_slot_index(node.hash, old(self).view().len() as int),
                old(self).view().len() as int,
            ),
        ensures
            final(self).wf(),
            final(self).view().len() == old(self).view().len(),
            ({
                let i = spec_slot_index(node.hash, old(self).view().len() as int);
                if old(self).view()[i] matches Some(existing) && existing.depth >= node.depth {
                    final(self).view() == old(self).view()
                } else {
                    final(self).view() == old(self).view().update(i, Some(node))
                }
            }),
            forall|j: int|
                0 <= j < old(self).view().len() ==> ((#[trigger] old(self).view()[j]) matches Some(o)
                    ==> final(self).view()[j] matches Some(n2) && n2.depth >= o.depth),
    {
        let len: usize = self.slots.len();
        let index: usize = (node.hash % (len as u64)) as usize;
        let replace: bool = match &self.slots[index] {
            Some(existing) => existing.depth < node.depth,
            None => true,
        };
        if replace {
            self.slots[index] = Some(node);
        }
    }
}

} // verus!
