//! A pool of in-process runtimes, served in round-robin order.

use crate::runtime::cluster::{task_runtimes, WorkerHandle};
use vstd::prelude::*;

verus! {

/// A pool of runtimes for load-balanced request handling, in round-robin
/// order.
pub struct RuntimePool<R> {
    runtimes: Vec<R>,
    next: usize,
}

impl<R> RuntimePool<R> {
    /// The runtimes, in order.
    pub closed spec fn runtimes_spec(&self) -> Seq<R> {
        self.runtimes@
    }

    /// The rotation counter.
    pub closed spec fn counter(&self) -> usize {
        self.next
    }

    /// A pool of these runtimes, starting at the first.
    pub fn new(runtimes: Vec<R>) -> (p: Self)
        ensures
            p.runtimes_spec() == runtimes@,
            p.counter() == 0,
    {
        RuntimePool { runtimes, next: 0 }
    }

    /// The runtime at the rotation's next position; `None` for an empty
    /// pool. The counter wraps at `usize::MAX`, as an atomic counter does.
    pub fn next(&mut self) -> (r: Option<&R>)
        ensures
            final(self).runtimes_spec() == old(self).runtimes_spec(),
            old(self).runtimes_spec().len() == 0 ==> r is None && final(self).counter() == old(self).counter(),
            old(self).runtimes_spec().len() > 0 ==> r == Some(
                &old(self).runtimes_spec()[(old(self).counter() as int) % (old(self).runtimes_spec().len() as int)],
            ) && final(self).counter() == (if old(self).counter() == usize::MAX {
                0
            } else {
                (old(self).counter() + 1) as usize
            }),
    {
        if self.runtimes.len() == 0 {
            return None;
        }
        let idx = self.next;
        self.next = if self.next == usize::MAX { 0 } else { self.next + 1 };
        Some(&self.runtimes[idx % self.runtimes.len()])
    }

    /// The number of runtimes in the pool.
    pub fn len(&self) -> (n: usize)
        ensures
            n == self.runtimes_spec().len(),
    {
        self.runtimes.len()
    }

    /// Whether the pool is empty.
    pub fn is_empty(&self) -> (b: bool)
        ensures
            b == (self.runtimes_spec().len() == 0),
    {
        self.runtimes.len() == 0
    }

    /// A pool of the task-based workers' runtimes, in order, starting at the
    /// first; the workers are consumed.
    pub fn from_workers<H>(workers: Vec<WorkerHandle<R, H>>) -> (p: RuntimePool<R>)
        ensures
            p.runtimes_spec() == task_runtimes(workers@),
            p.counter() == 0,
    {
        let ghost all = workers@;
        let mut runtimes: Vec<R> = Vec::new();
        let mut rest = workers;
        let mut i: usize = 0;
        let n = rest.len();
        while rest.len() > 0
            invariant
                all.len() == n,
                rest@.len() + i == all.len(),
                rest@ == all.skip(i as int),
                runtimes@ == task_runtimes(all.take(i as int)),
            decreases rest@.len(),
        {
            let w = rest.remove(0);
            assert(all.take(i + 1).drop_last() =~= all.take(i as int));
            assert(all.take(i + 1).last() == w);
            match w {
                WorkerHandle::Task { runtime, .. } => runtimes.push(runtime),
                WorkerHandle::Process { .. } => {},
            }
            i = i + 1;
            assert(rest@ =~= all.skip(i as int));
        }
        assert(all.take(all.len() as int) =~= all);
        RuntimePool::new(runtimes)
    }
}

} // verus!
