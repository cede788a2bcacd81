//! Quadrature-encoder step counting.
//!
//! A quadrature encoder reports rotation through two digital lines.  Every
//! rising edge on channel A contributes exactly one step, whose sign is the
//! level of channel B at the instant of the edge: high counts forward (+1),
//! low counts backward (-1).  The platform layer registers the edge callback
//! and samples channel B; this module holds the counting rule itself.

use vstd::prelude::*;

verus! {

/// Signed cumulative step count of one quadrature encoder.
pub struct Encoder {
    /// Number of steps accumulated so far; rises on forward edges, falls on
    /// backward ones.  May be overwritten wholesale to seed a known baseline
    /// position (homing).
    pub steps: i64,
}

/// Step contribution of a single rising edge on channel A, given channel B's
/// level at that instant.
pub open spec fn edge_delta(b_high: bool) -> int {
    if b_high {
        1
    } else {
        -1
    }
}

/// Step count reached from `init` after a sequence of rising edges, each
/// recorded as channel B's level at that edge.
pub open spec fn steps_after(init: int, edges: Seq<bool>) -> int
    decreases edges.len(),
{
    if edges.len() == 0 {
        init
    } else {
        steps_after(init + edge_delta(edges[0]), edges.drop_first())
    }
}

/// Number of edges in the sequence that saw channel B high.
pub open spec fn count_high(edges: Seq<bool>) -> int
    decreases edges.len(),
{
    if edges.len() == 0 {
        0
    } else {
        (if edges[0] {
            1int
        } else {
            0int
        }) + count_high(edges.drop_first())
    }
}

/// Driving a counter with any edge sequence lands on `init + h - l`, where
/// `h` edges saw channel B high and `l` edges saw it low.  The result depends
/// only on those two tallies, never on the order in which the edges arrived.
pub proof fn lemma_edge_tally(init: int, edges: Seq<bool>)
    ensures
        steps_after(init, edges) == init + count_high(edges) - (edges.len() - count_high(edges)),
    decreases edges.len(),
{
    if edges.len() > 0 {
        lemma_edge_tally(init + edge_delta(edges[0]), edges.drop_first());
    }
}

impl Encoder {
    /// A fresh encoder starts with a zero step count.
    pub fn new() -> (e: Encoder)
        ensures
            e.steps == 0,
    {
        Encoder { steps: 0 }
    }

    /// One rising edge on channel A: count one step forward when channel B
    /// reads high, one step backward when it reads low.  This is the whole
    /// body of the edge callback; it must stay this small, since the platform
    /// invokes it asynchronously at the encoder's physical edge rate.
    pub fn rising_edge(&mut self, b_high: bool)
        requires
            i64::MIN < old(self).steps < i64::MAX,
        ensures
            final(self).steps == old(self).steps + edge_delta(b_high),
    {
        if b_high {
            self.steps = self.steps + 1;
        } else {
            self.steps = self.steps - 1;
        }
    }

    /// Atomic read of the current step count.
    pub fn steps(&self) -> (s: i64)
        ensures
            s == self.steps,
    {
        self.steps
    }

    /// Atomic overwrite of the step count, used to seed a known baseline
    /// position before the control loop starts.
    pub fn set_steps(&mut self, steps: i64)
        ensures
            final(self).steps == steps,
    {
        self.steps = steps;
    }
}

} // verus!
