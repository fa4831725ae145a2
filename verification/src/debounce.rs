//! Debouncing of the physical input edge.
//!
//! A falling edge on the mechanical input starts one debounce window; edges
//! arriving while the window is open are noise from the same press and must
//! not produce further activations. The handler re-arms independently after
//! each accepted edge: there is no counting or voting, just "accept, then
//! ignore everything until the window has passed". Times are milliseconds on
//! a monotonic clock supplied by the caller.

use vstd::prelude::*;

verus! {

/// Debounce state: the fixed window length and the time before which no new
/// edge is accepted.
#[derive(Clone, Copy, PartialEq, Eq, Structural, Debug)]
pub struct Debouncer {
    pub window: u64,
    pub busy_until: u64,
}

/// An edge at time `t` is accepted exactly when no debounce window is open.
pub open spec fn spec_accepts(d: Debouncer, t: u64) -> bool {
    t >= d.busy_until
}

/// The state after an edge at time `t`: an accepted edge opens a new window,
/// a rejected one changes nothing.
pub open spec fn spec_after_edge(d: Debouncer, t: u64) -> Debouncer {
    if spec_accepts(d, t) {
        Debouncer { window: d.window, busy_until: (t + d.window) as u64 }
    } else {
        d
    }
}

/// How many of a sequence of edge times are accepted, first edge first.
pub open spec fn spec_activations(d: Debouncer, edges: Seq<u64>) -> nat
    decreases edges.len(),
{
    if edges.len() == 0 {
        0
    } else {
        (if spec_accepts(d, edges[0]) {
            1nat
        } else {
            0nat
        }) + spec_activations(spec_after_edge(d, edges[0]), edges.drop_first())
    }
}

impl Debouncer {
    /// A fresh debouncer: no window is open, so the first edge is accepted.
    pub fn new(window: u64) -> (d: Self)
        ensures
            d.window == window,
            d.busy_until == 0,
    {
        Debouncer { window, busy_until: 0 }
    }

    /// Feed one edge, observed at time `t`. Returns whether the edge counts
    /// as a genuine activation; a rejected edge leaves the state unchanged.
    pub fn on_edge(&mut self, t: u64) -> (activated: bool)
        requires
            t + old(self).window <= u64::MAX,
        ensures
            activated == spec_accepts(*old(self), t),
            *final(self) == spec_after_edge(*old(self), t),
    {
        if t >= self.busy_until {
            self.busy_until = t + self.window;
            true
        } else {
            false
        }
    }

    /// Feed a whole trace of edge times and count the activations.
    pub fn count_activations(&mut self, edges: &Vec<u64>) -> (n: usize)
        requires
            forall|i: int| 0 <= i < edges@.len() ==> edges@[i] + old(self).window <= u64::MAX,
        ensures
            n == spec_activations(*old(self), edges@),
    {
        let ghost d0 = *self;
        let mut count: usize = 0;
        let mut i: usize = 0;
        proof {
            assert(edges@.skip(0) =~= edges@);
        }
        while i < edges.len()
            invariant
                i <= edges@.len(),
                count <= i,
                self.window == d0.window,
                forall|j: int| 0 <= j < edges@.len() ==> edges@[j] + d0.window <= u64::MAX,
                count + spec_activations(*self, edges@.skip(i as int)) == spec_activations(
                    d0,
                    edges@,
                ),
            decreases edges@.len() - i,
        {
            proof {
                assert(edges@.skip(i as int)[0] == edges@[i as int]);
                assert(edges@.skip(i as int).drop_first() =~= edges@.skip(i as int + 1));
            }
            let t = edges[i];
            let activated = self.on_edge(t);
            if activated {
                count = count + 1;
            }
            i = i + 1;
        }
        proof {
            assert(edges@.skip(edges@.len() as int) =~= Seq::<u64>::empty());
        }
        count
    }
}

/// If every edge of a trace falls before the window already open, none of
/// them is accepted.
pub proof fn lemma_no_activation_while_busy(d: Debouncer, edges: Seq<u64>)
    requires
        forall|i: int| 0 <= i < edges.len() ==> edges[i] < d.busy_until,
    ensures
        spec_activations(d, edges) == 0,
    decreases edges.len(),
{
    if edges.len() > 0 {
        assert(!spec_accepts(d, edges[0]));
        assert(forall|i: int|
            0 <= i < edges.drop_first().len() ==> edges.drop_first()[i] < d.busy_until);
        lemma_no_activation_while_busy(d, edges.drop_first());
    }
}

/// Debounce idempotence: a burst of N edges that all fall within one debounce
/// window of the first produces exactly one activation, for any N >= 1,
/// provided no window is open when the burst begins.
pub proof fn lemma_burst_yields_one_activation(d: Debouncer, edges: Seq<u64>)
    requires
        edges.len() >= 1,
        d.busy_until <= edges[0],
        edges[0] + d.window <= u64::MAX,
        forall|i: int| 0 <= i < edges.len() ==> edges[0] <= #[trigger] edges[i] < edges[0] + d.window,
    ensures
        spec_activations(d, edges) == 1,
{
    assert(spec_accepts(d, edges[0]));
    let d1 = spec_after_edge(d, edges[0]);
    assert(d1.busy_until == edges[0] + d.window);
    assert(forall|i: int|
        0 <= i < edges.drop_first().len() ==> edges.drop_first()[i] < d1.busy_until);
    lemma_no_activation_while_busy(d1, edges.drop_first());
}

} // verus!
