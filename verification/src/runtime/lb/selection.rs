//! Round-robin selection of a backend among the healthy ones.

use vstd::prelude::*;

verus! {

/// Position `counter` of a rotation over `total` backends, mapped onto the
/// healthy list: `counter mod total`, then modulo the list's length.
pub open spec fn rr_pick(counter: usize, total: usize, healthy: Seq<usize>) -> usize {
    let pos: int = if total == 0 { 0 } else { (counter % total) as int };
    healthy[pos % (healthy.len() as int)]
}

/// The rotation counter after one selection: unchanged for an empty rotation,
/// otherwise one more, wrapping at `usize::MAX` as an atomic counter does.
pub open spec fn rr_advance(counter: usize, total: usize) -> usize {
    if total == 0 {
        counter
    } else if counter == usize::MAX {
        0
    } else {
        (counter + 1) as usize
    }
}

/// A load balancing selection algorithm.
pub trait Selection {
    /// Selects the next backend index from the available ones; `None` exactly
    /// when there are none.
    fn select(&mut self, healthy_indices: &[usize]) -> (r: Option<usize>)
        ensures
            (healthy_indices@.len() == 0) == (r is None),
            r matches Some(i) ==> healthy_indices@.contains(i),
    ;
}

/// Round-robin load balancing: distributes requests evenly across the healthy
/// backends in a circular fashion.
#[derive(Debug)]
pub struct RoundRobin {
    current: usize,
    total: usize,
}

impl RoundRobin {
    /// The rotation counter.
    pub closed spec fn counter(&self) -> usize {
        self.current
    }

    /// The number of backends in the rotation.
    pub closed spec fn total_spec(&self) -> usize {
        self.total
    }

    /// Creates a selector for `total` backends, starting at position 0.
    pub fn new(total: usize) -> (rr: Self)
        ensures
            rr.counter() == 0,
            rr.total_spec() == total,
    {
        RoundRobin { current: 0, total }
    }

    /// The next position of the rotation, wrapping around.
    fn next_index(&mut self) -> (i: usize)
        ensures
            final(self).total == old(self).total,
            final(self).current == rr_advance(old(self).current, old(self).total),
            i == (if old(self).total == 0 { 0 } else { old(self).current % old(self).total }),
    {
        if self.total == 0 {
            return 0;
        }
        let i = self.current % self.total;
        self.current = if self.current == usize::MAX { 0 } else { self.current + 1 };
        i
    }
}

impl Selection for RoundRobin {
    /// The healthy index at the rotation's next position; the rotation only
    /// advances when there is a healthy backend.
    fn select(&mut self, healthy_indices: &[usize]) -> (r: Option<usize>)
        ensures
            final(self).total_spec() == old(self).total_spec(),
            healthy_indices@.len() == 0 ==> r is None && final(self).counter() == old(self).counter(),
            healthy_indices@.len() > 0 ==> r == Some(
                rr_pick(old(self).counter(), old(self).total_spec(), healthy_indices@),
            ) && final(self).counter() == rr_advance(old(self).counter(), old(self).total_spec()),
    {
        if healthy_indices.len() == 0 {
            return None;
        }
        let pos = self.next_index();
        let healthy_pos = pos % healthy_indices.len();
        let r = healthy_indices[healthy_pos];
        assert(healthy_indices@.contains(r)) by {
            assert(healthy_indices@[healthy_pos as int] == r);
        }
        Some(r)
    }
}

/// Load balancing strategy of a proxy.
#[derive(Debug, Clone, Copy, PartialEq, Eq, Structural)]
pub enum LoadBalanceStrategy {
    /// Round-robin over the healthy backends.
    RoundRobin,
}

impl Default for LoadBalanceStrategy {
    fn default() -> (s: Self)
        ensures
            s == LoadBalanceStrategy::RoundRobin,
    {
        LoadBalanceStrategy::RoundRobin
    }
}

impl LoadBalanceStrategy {
    /// The selector of this strategy for `total` backends, at its start.
    pub fn into_selector(self, total: usize) -> (rr: RoundRobin)
        ensures
            rr.counter() == 0,
            rr.total_spec() == total,
    {
        match self {
            LoadBalanceStrategy::RoundRobin => RoundRobin::new(total),
        }
    }
}

/// With as many healthy backends as the rotation holds, the `k`-th selection
/// of a fresh selector picks the `k`-th healthy backend, for `k` below that
/// number: one round visits every healthy backend exactly once, in order.
pub proof fn lemma_round_robin_visits_in_order(total: usize, healthy: Seq<usize>, k: usize)
    requires
        healthy.len() == total,
        k < total,
    ensures
        rr_pick(k, total, healthy) == healthy[k as int],
{
    assert(k % total == k) by (nonlinear_arith)
        requires
            k < total,
    ;
    assert((k as int) % (healthy.len() as int) == k) by (nonlinear_arith)
        requires
            k < total,
            healthy.len() == total,
    ;
}

/// A selection repeats after one full round: position `k + total` picks the
/// same backend as position `k`.
pub proof fn lemma_round_robin_period(total: usize, healthy: Seq<usize>, k: usize)
    requires
        total > 0,
        healthy.len() > 0,
        k + total <= usize::MAX,
    ensures
        rr_pick((k + total) as usize, total, healthy) == rr_pick(k, total, healthy),
{
    assert(((k + total) as int) % (total as int) == (k as int) % (total as int)) by {
        vstd::arithmetic::div_mod::lemma_mod_add_multiples_vanish(k as int, total as int);
    }
}

/// A fresh selector's counter after `n` selections from a non-empty list is
/// `n`, as long as it has not wrapped.
pub proof fn lemma_round_robin_counts(total: usize, counter: usize)
    requires
        total > 0,
        counter < usize::MAX,
    ensures
        rr_advance(counter, total) == counter + 1,
{
}

/// With at most as many healthy backends as the rotation holds, the first
/// selections of a fresh selector visit the healthy backends in order: the
/// `j`-th selection picks the `j`-th healthy backend, so every one of them
/// receives a request, even when some backends of the rotation are down.
pub proof fn lemma_round_robin_spreads_over_healthy(total: usize, healthy: Seq<usize>, j: usize)
    requires
        0 < healthy.len() <= total,
        j < healthy.len(),
    ensures
        rr_pick(j, total, healthy) == healthy[j as int],
{
    vstd::arithmetic::div_mod::lemma_small_mod(j as nat, total as nat);
    vstd::arithmetic::div_mod::lemma_small_mod(j as nat, healthy.len());
}

/// From any position of the rotation, every healthy backend is picked within
/// `total` consecutive selections (before the counter wraps), when no more
/// backends are healthy than the rotation holds.
pub proof fn lemma_round_robin_reaches_every_healthy(
    counter: usize,
    total: usize,
    healthy: Seq<usize>,
    j: usize,
)
    requires
        0 < healthy.len() <= total,
        j < healthy.len(),
        counter + total <= usize::MAX,
    ensures
        exists|k: usize| k < total && #[trigger] rr_pick((counter + k) as usize, total, healthy) == healthy[j as int],
{
    let c = counter as int;
    let t = total as int;
    let p = c % t;
    let q = c / t;
    vstd::arithmetic::div_mod::lemma_fundamental_div_mod(c, t);
    assert(0 <= p < t) by {
        vstd::arithmetic::div_mod::lemma_mod_bound(c, t);
    }
    let k: int = if j as int >= p { j as int - p } else { j as int + t - p };
    let q2: int = if j as int >= p { q } else { q + 1 };
    assert(c + k == q2 * t + j as int) by (nonlinear_arith)
        requires
            c == t * q + p,
            k == (if j as int >= p { j as int - p } else { j as int + t - p }),
            q2 == (if j as int >= p { q } else { q + 1 }),
    ;
    vstd::arithmetic::div_mod::lemma_fundamental_div_mod_converse(c + k, t, q2, j as int);
    vstd::arithmetic::div_mod::lemma_small_mod(j as nat, healthy.len());
    let ku = k as usize;
    assert(rr_pick((counter + ku) as usize, total, healthy) == healthy[j as int]);
}

} // verus!
