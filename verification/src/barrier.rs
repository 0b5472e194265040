//! A model of the frame barrier: a cyclic rendezvous of fixed arity `n`,
//! created once per engine and used exactly once per simulated frame by
//! every worker. An arrival blocks its worker until all `n` have arrived;
//! then all are released together and the barrier resets for reuse.
//!
//! The model is a trace semantics: a trace lists, in order, which worker
//! arrived at the barrier. The lock-step law proved here is what the engine
//! relies on: no worker begins frame `i + 1` until every worker has
//! completed frame `i`.

use vstd::prelude::*;
use vstd::set_lib::{set_int_range, lemma_int_range};

verus! {

broadcast use vstd::set::group_set_axioms;

/// The barrier's state between releases: how many full rendezvous have
/// completed (the generation) and which workers are waiting for the
/// current one.
pub struct BarrierState {
    pub generation: nat,
    pub arrived: Set<int>,
}

/// The state after a trace of arrivals. When the last of `n` parties
/// arrives, all are released together and the barrier resets.
pub open spec fn barrier_state(t: Seq<int>, n: nat) -> BarrierState
    decreases t.len(),
{
    if t.len() == 0 {
        BarrierState { generation: 0, arrived: Set::empty() }
    } else {
        let s = barrier_state(t.drop_last(), n);
        let a = s.arrived.insert(t.last());
        if a.len() == n {
            BarrierState { generation: s.generation + 1, arrived: Set::empty() }
        } else {
            BarrierState { generation: s.generation, arrived: a }
        }
    }
}

/// A trace is valid when every arrival is by one of the `n` workers and
/// that worker is not already waiting at the barrier: a blocked worker
/// cannot arrive again before being released.
pub open spec fn valid_trace(t: Seq<int>, n: nat) -> bool
    decreases t.len(),
{
    t.len() == 0 || {
        &&& valid_trace(t.drop_last(), n)
        &&& 0 <= t.last() < n
        &&& !barrier_state(t.drop_last(), n).arrived.contains(t.last())
    }
}

/// How many times worker `w` has arrived at the barrier: its arrival
/// number `i` (zero-based) stands at the start of its frame `i`.
pub open spec fn arrivals(t: Seq<int>, w: int) -> nat
    decreases t.len(),
{
    if t.len() == 0 {
        0
    } else {
        arrivals(t.drop_last(), w) + (if t.last() == w {
            1nat
        } else {
            0nat
        })
    }
}

/// In a valid trace the waiting set holds only real workers, never all of
/// them, and each worker has arrived exactly once per completed generation,
/// plus one if it is waiting now.
pub proof fn lemma_barrier_invariant(t: Seq<int>, n: nat)
    requires
        valid_trace(t, n),
        n >= 1,
    ensures
        ({
            let s = barrier_state(t, n);
            &&& s.arrived.finite()
            &&& s.arrived.subset_of(set_int_range(0, n as int))
            &&& s.arrived.len() < n
            &&& forall|w: int|
                0 <= w < n ==> arrivals(t, w) == s.generation + (if s.arrived.contains(w) {
                    1nat
                } else {
                    0nat
                })
        }),
    decreases t.len(),
{
    lemma_int_range(0, n as int);
    if t.len() > 0 {
        let pre = t.drop_last();
        let w0 = t.last();
        lemma_barrier_invariant(pre, n);
        let s1 = barrier_state(pre, n);
        let a = s1.arrived.insert(w0);
        let s2 = barrier_state(t, n);
        assert(a.len() == s1.arrived.len() + 1);
        if a.len() == n {
            // The set of waiters reached full arity: it is exactly the set
            // of all workers, so everyone has now arrived for this frame.
            assert forall|w: int| 0 <= w < n implies a.contains(w) by {
                if !a.contains(w) {
                    a.lemma_subset_not_in_lt(set_int_range(0, n as int), w);
                }
            }
            assert forall|w: int|
                0 <= w < n implies arrivals(t, w) == s2.generation + (if s2.arrived.contains(w) {
                1nat
            } else {
                0nat
            }) by {
                assert(arrivals(pre, w) == s1.generation + (if s1.arrived.contains(w) {
                    1nat
                } else {
                    0nat
                }));
                if w == w0 {
                    assert(arrivals(pre, w) == s1.generation);
                } else {
                    assert(a.contains(w));
                    assert(s1.arrived.contains(w));
                    assert(arrivals(pre, w) == s1.generation + 1);
                }
            }
        } else {
            assert forall|w: int|
                0 <= w < n implies arrivals(t, w) == s2.generation + (if s2.arrived.contains(w) {
                1nat
            } else {
                0nat
            }) by {
                assert(arrivals(pre, w) == s1.generation + (if s1.arrived.contains(w) {
                    1nat
                } else {
                    0nat
                }));
                if w == w0 {
                    assert(arrivals(pre, w) == s1.generation);
                    assert(s2.arrived.contains(w));
                } else {
                    assert(s2.arrived.contains(w) == s1.arrived.contains(w));
                }
            }
        }
    }
}

/// Validity is closed under prefixes: every initial segment of a valid
/// trace is a valid trace.
pub proof fn lemma_valid_prefix(t: Seq<int>, n: nat, k: int)
    requires
        valid_trace(t, n),
        0 <= k <= t.len(),
    ensures
        valid_trace(t.take(k), n),
    decreases t.len(),
{
    if k == t.len() {
        assert(t.take(k) =~= t);
    } else {
        assert(t.take(k) =~= t.drop_last().take(k));
        lemma_valid_prefix(t.drop_last(), n, k);
    }
}

/// No two workers are ever more than one frame apart.
pub proof fn lemma_lockstep_bound(t: Seq<int>, n: nat, v: int, w: int)
    requires
        valid_trace(t, n),
        n >= 1,
        0 <= v < n,
        0 <= w < n,
    ensures
        arrivals(t, v) <= arrivals(t, w) + 1,
{
    lemma_barrier_invariant(t, n);
}

/// The arrival events of a recorded trace, as the model reads them.
pub open spec fn trace_events(t: Seq<usize>) -> Seq<int> {
    t.map(|i: int, w: usize| w as int)
}

/// Replay a recorded arrival order against the rendezvous discipline:
/// the result is each worker's arrival count if the order is one the
/// barrier can produce, and nothing if it is not (a worker out of range,
/// or arriving again before its release).
pub fn check_trace(trace: &Vec<usize>, n: usize) -> (r: Option<Vec<u64>>)
    requires
        n >= 1,
        trace@.len() <= u64::MAX,
    ensures
        match r {
            Some(counts) => {
                &&& valid_trace(trace_events(trace@), n as nat)
                &&& counts@.len() == n
                &&& forall|w: int|
                    0 <= w < n ==> counts@[w] == arrivals(trace_events(trace@), w)
            },
            None => !valid_trace(trace_events(trace@), n as nat),
        },
{
    let ghost events = trace_events(trace@);
    let mut arrived: Vec<bool> = Vec::new();
    let mut counts: Vec<u64> = Vec::new();
    let mut j: usize = 0;
    while j < n
        invariant
            j <= n,
            arrived@.len() == j,
            counts@.len() == j,
            forall|w: int| 0 <= w < j ==> !arrived@[w],
            forall|w: int| 0 <= w < j ==> counts@[w] == 0,
        decreases n - j,
    {
        arrived.push(false);
        counts.push(0);
        j += 1;
    }
    let mut waiting: usize = 0;
    let len = trace.len();
    let mut i: usize = 0;
    proof {
        assert(events.take(0) =~= Seq::<int>::empty());
    }
    while i < len
        invariant
            i <= len,
            len == trace@.len() <= u64::MAX,
            n >= 1,
            events == trace_events(trace@),
            arrived@.len() == n,
            counts@.len() == n,
            valid_trace(events.take(i as int), n as nat),
            ({
                let s = barrier_state(events.take(i as int), n as nat);
                &&& waiting == s.arrived.len()
                &&& s.arrived.finite()
                &&& forall|w: int| 0 <= w < n ==> (arrived@[w] == s.arrived.contains(w))
                &&& forall|w: int| 0 <= w < n ==> counts@[w] == arrivals(events.take(i as int), w)
                &&& forall|w: int| 0 <= w < n ==> counts@[w] <= i
            }),
        decreases len - i,
    {
        let ghost pre = events.take(i as int);
        let w = trace[i];
        proof {
            assert(events.take(i as int + 1).drop_last() =~= pre);
            assert(events.take(i as int + 1).last() == w as int);
        }
        if w >= n {
            proof {
                lemma_invalid_extension(events, n as nat, i as int);
            }
            return None;
        }
        if arrived[w] {
            proof {
                lemma_invalid_extension(events, n as nat, i as int);
            }
            return None;
        }
        proof {
            lemma_barrier_invariant(pre, n as nat);
        }
        arrived[w] = true;
        counts[w] = counts[w] + 1;
        waiting = waiting + 1;
        proof {
            let s1 = barrier_state(pre, n as nat);
            assert(s1.arrived.insert(w as int).len() == s1.arrived.len() + 1);
            assert forall|v: int|
                0 <= v < n implies counts@[v] == arrivals(events.take(i as int + 1), v) by {
                assert(arrivals(events.take(i as int + 1), v) == arrivals(pre, v) + (
                if w as int == v {
                    1nat
                } else {
                    0nat
                }));
            }
        }
        if waiting == n {
            let mut k: usize = 0;
            while k < n
                invariant
                    k <= n,
                    arrived@.len() == n,
                    forall|v: int| 0 <= v < k ==> !arrived@[v],
                decreases n - k,
            {
                arrived[k] = false;
                k += 1;
            }
            waiting = 0;
            proof {
                let s2 = barrier_state(events.take(i as int + 1), n as nat);
                assert(s2.arrived =~= Set::<int>::empty());
            }
        }
        i += 1;
    }
    proof {
        assert(events.take(len as int) =~= events);
    }
    Some(counts)
}

/// A trace whose next event breaks the arrival discipline is invalid as a
/// whole, whatever follows.
proof fn lemma_invalid_extension(t: Seq<int>, n: nat, i: int)
    requires
        0 <= i < t.len(),
        valid_trace(t.take(i), n),
        !(0 <= t[i] < n && !barrier_state(t.take(i), n).arrived.contains(t[i])),
    ensures
        !valid_trace(t, n),
    decreases t.len() - i,
{
    if t.len() == i + 1 {
        assert(t.drop_last() =~= t.take(i));
        assert(t.last() == t[i]);
    } else {
        assert(t.drop_last().take(i) =~= t.take(i));
        assert(t.drop_last()[i] == t[i]);
        lemma_invalid_extension(t.drop_last(), n, i);
    }
}

/// Barrier lock-step: once any worker has begun frame `i + 1` (its
/// `i + 2`-nd arrival stands in the trace), every worker has completed
/// frame `i` (its `i + 1`-st arrival stands earlier in the trace). Applied
/// to a prefix, this is the ordering guarantee: worker `w`'s frame `i`
/// precedes every worker's frame `i + 1`.
pub proof fn lemma_barrier_lockstep(t: Seq<int>, n: nat, k: int, v: int, w: int, i: nat)
    requires
        valid_trace(t, n),
        n >= 1,
        0 <= k <= t.len(),
        0 <= v < n,
        0 <= w < n,
        arrivals(t.take(k), v) >= i + 2,
    ensures
        arrivals(t.take(k), w) >= i + 1,
{
    lemma_valid_prefix(t, n, k);
    lemma_barrier_invariant(t.take(k), n);
}

} // verus!
