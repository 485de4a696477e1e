//! Clusters of workers: separate processes, or tasks holding a runtime in
//! this process. Starting and stopping workers is I/O that happens outside;
//! this module holds the workers, their ports and addresses, and the plan
//! of the processes to start.

pub mod process;
pub mod task;

use crate::runtime::address::SocketAddress;
use crate::runtime::builder::logical_cpus;
use vstd::prelude::*;

verus! {

/// Handle to a running worker: a process, or a task holding runtime `R`
/// with the handle `H` of its serving task, if it serves.
#[derive(Debug)]
pub enum WorkerHandle<R, H> {
    /// A worker running as a separate process.
    Process {
        /// Process ID of the worker.
        pid: u32,
        /// Port the worker is listening on.
        port: u16,
        /// Address the worker is listening on.
        addr: SocketAddress,
    },
    /// A worker running as a task in this process.
    Task {
        /// The runtime instance.
        runtime: R,
        /// Handle to the running task (if serving).
        handle: Option<H>,
        /// Port the worker is configured for.
        port: u16,
    },
}

impl<R, H> WorkerHandle<R, H> {
    /// The port of the worker.
    pub open spec fn port_spec(&self) -> u16 {
        match self {
            WorkerHandle::Process { port, .. } => *port,
            WorkerHandle::Task { port, .. } => *port,
        }
    }

    /// The address of the worker: its own for a process, the loopback
    /// address at its port for a task.
    pub open spec fn addr_spec(&self) -> Option<SocketAddress> {
        match self {
            WorkerHandle::Process { addr, .. } => Some(*addr),
            WorkerHandle::Task { port, .. } => Some(
                SocketAddress { ip: [127u8, 0u8, 0u8, 1u8], port: *port },
            ),
        }
    }

    /// The port this worker is listening on.
    pub fn port(&self) -> (p: u16)
        ensures
            p == self.port_spec(),
    {
        match self {
            WorkerHandle::Process { port, .. } => *port,
            WorkerHandle::Task { port, .. } => *port,
        }
    }

    /// The address this worker is listening on.
    pub fn addr(&self) -> (a: Option<SocketAddress>)
        ensures
            a == self.addr_spec(),
    {
        match self {
            WorkerHandle::Process { addr, .. } => Some(*addr),
            WorkerHandle::Task { port, .. } => Some(SocketAddress { ip: [127u8, 0u8, 0u8, 1u8], port: *port }),
        }
    }

    /// Whether this is a process-based worker.
    pub fn is_process(&self) -> (b: bool)
        ensures
            b == (*self is Process),
    {
        match self {
            WorkerHandle::Process { .. } => true,
            WorkerHandle::Task { .. } => false,
        }
    }

    /// Whether this is a task-based worker.
    pub fn is_task(&self) -> (b: bool)
        ensures
            b == (*self is Task),
    {
        match self {
            WorkerHandle::Process { .. } => false,
            WorkerHandle::Task { .. } => true,
        }
    }

    /// The runtime of a task-based worker.
    pub fn runtime(&self) -> (r: Option<&R>)
        ensures
            match self {
                WorkerHandle::Task { runtime, .. } => r == Some(runtime),
                WorkerHandle::Process { .. } => r is None,
            },
    {
        match self {
            WorkerHandle::Task { runtime, .. } => Some(runtime),
            WorkerHandle::Process { .. } => None,
        }
    }
}

/// The runtimes of the task-based workers among `workers`, in order.
pub open spec fn task_runtimes<R, H>(workers: Seq<WorkerHandle<R, H>>) -> Seq<R>
    decreases workers.len(),
{
    if workers.len() == 0 {
        Seq::empty()
    } else {
        let rest = task_runtimes(workers.drop_last());
        match workers.last() {
            WorkerHandle::Task { runtime, .. } => rest.push(runtime),
            WorkerHandle::Process { .. } => rest,
        }
    }
}

/// A cluster of workers.
pub struct Cluster<R, H> {
    workers: Vec<WorkerHandle<R, H>>,
    base_port: u16,
}

impl<R, H> Cluster<R, H> {
    /// The workers, in order.
    pub closed spec fn workers_spec(&self) -> Seq<WorkerHandle<R, H>> {
        self.workers@
    }

    /// The base port.
    pub closed spec fn base_port_spec(&self) -> u16 {
        self.base_port
    }

    /// A cluster of these workers.
    pub fn new(workers: Vec<WorkerHandle<R, H>>, base_port: u16) -> (c: Self)
        ensures
            c.workers_spec() == workers@,
            c.base_port_spec() == base_port,
    {
        Cluster { workers, base_port }
    }

    /// The workers.
    pub fn workers(&self) -> (w: &[WorkerHandle<R, H>])
        ensures
            w@ == self.workers_spec(),
    {
        self.workers.as_slice()
    }

    /// The workers, to wait for or stop them.
    pub fn into_workers(self) -> (w: Vec<WorkerHandle<R, H>>)
        ensures
            w@ == self.workers_spec(),
    {
        self.workers
    }

    /// The number of workers.
    pub fn worker_count(&self) -> (n: usize)
        ensures
            n == self.workers_spec().len(),
    {
        self.workers.len()
    }

    /// The base port of the workers.
    pub fn base_port(&self) -> (p: u16)
        ensures
            p == self.base_port_spec(),
    {
        self.base_port
    }

    /// The addresses of all workers, in order.
    pub fn worker_addrs(&self) -> (v: Vec<SocketAddress>)
        ensures
            v@.len() == self.workers_spec().len(),
            forall|i: int| 0 <= i < v@.len() ==> Some(#[trigger] v@[i]) == self.workers_spec()[i].addr_spec(),
    {
        let mut v: Vec<SocketAddress> = Vec::new();
        let mut i: usize = 0;
        while i < self.workers.len()
            invariant
                0 <= i <= self.workers@.len(),
                v@.len() == i,
                forall|k: int| 0 <= k < i ==> Some(#[trigger] v@[k]) == self.workers@[k].addr_spec(),
            decreases self.workers@.len() - i,
        {
            match self.workers[i].addr() {
                Some(a) => {
                    v.push(a);
                },
                None => {},
            }
            i = i + 1;
        }
        v
    }

    /// The runtimes of the task-based workers, in order.
    pub fn runtimes(&self) -> (v: Vec<&R>)
        ensures
            v@.map_values(|r: &R| *r) == task_runtimes(self.workers_spec()),
    {
        let mut v: Vec<&R> = Vec::new();
        let mut i: usize = 0;
        while i < self.workers.len()
            invariant
                0 <= i <= self.workers@.len(),
                v@.map_values(|r: &R| *r) == task_runtimes(self.workers@.take(i as int)),
            decreases self.workers@.len() - i,
        {
            assert(self.workers@.take(i + 1).drop_last() =~= self.workers@.take(i as int));
            assert(self.workers@.take(i + 1).last() == self.workers@[i as int]);
            let ghost before = v@;
            match self.workers[i].runtime() {
                Some(r) => {
                    v.push(r);
                    assert(v@.map_values(|r: &R| *r) =~= before.map_values(|r: &R| *r).push(*r));
                },
                None => {},
            }
            i = i + 1;
        }
        assert(self.workers@.take(self.workers@.len() as int) =~= self.workers@);
        v
    }
}

/// Builder for a cluster.
pub struct ClusterBuilder {
    worker_count: usize,
    base_port: u16,
    manifest_path: Option<String>,
}

impl Default for ClusterBuilder {
    fn default() -> (b: Self)
        ensures
            b.base_port_spec() == 3001,
            b.manifest_spec() is None,
    {
        ClusterBuilder::new()
    }
}

impl ClusterBuilder {
    /// The number of workers to start.
    pub closed spec fn worker_count_spec(&self) -> usize {
        self.worker_count
    }

    /// The base port.
    pub closed spec fn base_port_spec(&self) -> u16 {
        self.base_port
    }

    /// The manifest path, if set.
    pub closed spec fn manifest_spec(&self) -> Option<Seq<char>> {
        match self.manifest_path {
            Some(p) => Some(p@),
            None => None,
        }
    }

    /// A builder for one worker per logical CPU (a figure of the machine),
    /// from port 3001, without manifest.
    pub fn new() -> (b: Self)
        ensures
            b.worker_count_spec() >= 1,
            b.base_port_spec() == 3001,
            b.manifest_spec() is None,
    {
        ClusterBuilder { worker_count: logical_cpus(), base_port: 3001, manifest_path: None }
    }

    /// Sets the number of workers.
    pub fn workers(self, count: usize) -> (b: Self)
        ensures
            b.worker_count_spec() == count,
            b.base_port_spec() == self.base_port_spec(),
            b.manifest_spec() == self.manifest_spec(),
    {
        let mut b = self;
        b.worker_count = count;
        b
    }

    /// Sets the base port: worker `i` gets `base_port + i`.
    pub fn base_port(self, port: u16) -> (b: Self)
        ensures
            b.worker_count_spec() == self.worker_count_spec(),
            b.base_port_spec() == port,
            b.manifest_spec() == self.manifest_spec(),
    {
        let mut b = self;
        b.base_port = port;
        b
    }

    /// Sets the manifest file of process-based workers.
    pub fn manifest_file(self, path: &str) -> (b: Self)
        ensures
            b.worker_count_spec() == self.worker_count_spec(),
            b.base_port_spec() == self.base_port_spec(),
            b.manifest_spec() == Some(path@),
    {
        let mut b = self;
        b.manifest_path = Some(path.to_string());
        b
    }

    /// The number of workers to start.
    pub fn worker_count(&self) -> (n: usize)
        ensures
            n == self.worker_count_spec(),
    {
        self.worker_count
    }

    /// The base port.
    pub fn get_base_port(&self) -> (p: u16)
        ensures
            p == self.base_port_spec(),
    {
        self.base_port
    }

    /// The manifest path, if set.
    pub fn manifest_path(&self) -> (p: Option<&str>)
        ensures
            match p {
                Some(s) => self.manifest_spec() == Some(s@),
                None => self.manifest_spec() is None,
            },
    {
        match &self.manifest_path {
            Some(s) => Some(s.as_str()),
            None => None,
        }
    }
}

} // verus!
