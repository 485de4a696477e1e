//! Load balancer metrics: the figures a health check round reports.
//!
//! Recording gauges into the metrics registry happens outside this module.

use vstd::prelude::*;

verus! {

/// The number of healthy entries among `(address, healthy, connections)`.
pub open spec fn healthy_count(backends: Seq<(String, bool, u64)>) -> nat
    decreases backends.len(),
{
    if backends.len() == 0 {
        0
    } else {
        healthy_count(backends.drop_last()) + if backends.last().1 { 1nat } else { 0nat }
    }
}

/// Counts the backends and the healthy ones among
/// `(address, healthy, active connections)` entries: the totals that
/// `update_backend_metrics` reports.
pub fn backend_counts(backends: &Vec<(String, bool, u64)>) -> (r: (usize, usize))
    ensures
        r.0 == backends@.len(),
        r.1 == healthy_count(backends@),
{
    let mut total: usize = 0;
    let mut healthy: usize = 0;
    let mut i: usize = 0;
    while i < backends.len()
        invariant
            0 <= i <= backends@.len(),
            total == i,
            healthy == healthy_count(backends@.take(i as int)),
            healthy <= i,
        decreases backends@.len() - i,
    {
        assert(backends@.take(i + 1).drop_last() =~= backends@.take(i as int));
        total = total + 1;
        if backends[i].1 {
            healthy = healthy + 1;
        }
        i = i + 1;
    }
    assert(backends@.take(backends@.len() as int) =~= backends@);
    (total, healthy)
}

} // verus!
