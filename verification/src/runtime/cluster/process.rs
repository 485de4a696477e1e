//! The plan of process-based workers: which ports they take and how each
//! is started. Starting, stopping and waiting for the processes is I/O that
//! happens outside.

use crate::runtime::cluster::ClusterBuilder;
use crate::text::{decimal, u64_to_decimal};
use vstd::prelude::*;

verus! {

broadcast use vstd::string::group_string_axioms;

/// How to start one worker process: the arguments given to this program and
/// the environment variables set for it.
#[derive(Debug, Clone, PartialEq, Eq)]
pub struct WorkerCommand {
    /// Port the worker listens on.
    pub port: u16,
    /// Arguments: `run --port <port> --manifest <path>`.
    pub args: Vec<String>,
    /// Environment: `MIK_WORKER=1` and `MIK_WORKER_PORT=<port>`.
    pub env: Vec<(String, String)>,
}

/// The strings as character sequences.
pub open spec fn strings_view(v: Seq<String>) -> Seq<Seq<char>> {
    v.map_values(|s: String| s@)
}

/// The command of the worker on `port` with manifest `manifest_path`.
pub open spec fn is_worker_command(c: WorkerCommand, port: u16, manifest_path: Seq<char>) -> bool {
    &&& c.port == port
    &&& strings_view(c.args@) == seq!["run"@, "--port"@, decimal(port as nat), "--manifest"@, manifest_path]
    &&& c.env@.len() == 2
    &&& c.env@[0].0@ == "MIK_WORKER"@ && c.env@[0].1@ == "1"@
    &&& c.env@[1].0@ == "MIK_WORKER_PORT"@ && c.env@[1].1@ == decimal(port as nat)
}

/// How to start the worker on `port`.
pub fn worker_command(port: u16, manifest_path: &str) -> (c: WorkerCommand)
    ensures
        is_worker_command(c, port, manifest_path@),
{
    let mut args: Vec<String> = Vec::new();
    args.push("run".to_string());
    args.push("--port".to_string());
    args.push(u64_to_decimal(port as u64));
    args.push("--manifest".to_string());
    args.push(manifest_path.to_string());
    let mut env: Vec<(String, String)> = Vec::new();
    env.push(("MIK_WORKER".to_string(), "1".to_string()));
    env.push(("MIK_WORKER_PORT".to_string(), u64_to_decimal(port as u64)));
    let c = WorkerCommand { port, args, env };
    assert(strings_view(c.args@) =~= seq!["run"@, "--port"@, decimal(port as nat), "--manifest"@, manifest_path@]);
    c
}

/// Why no worker processes can be planned.
#[derive(Debug, Clone, Copy, PartialEq, Eq, Structural)]
pub enum ClusterError {
    /// Process-based workers need a manifest file.
    ManifestRequired,
    /// The workers' ports would run past 65535.
    PortRangeExceeded,
}

impl ClusterError {
    /// The message of the error.
    pub open spec fn message(self) -> Seq<char> {
        match self {
            ClusterError::ManifestRequired => "manifest_file is required for spawn_processes"@,
            ClusterError::PortRangeExceeded => "worker ports exceed 65535"@,
        }
    }

    /// The message of the error.
    pub fn to_string(&self) -> (s: String)
        ensures
            s@ == self.message(),
    {
        match self {
            ClusterError::ManifestRequired => "manifest_file is required for spawn_processes".to_string(),
            ClusterError::PortRangeExceeded => "worker ports exceed 65535".to_string(),
        }
    }
}

/// The commands of `count` workers from `base_port` on, worker `i` on port
/// `base_port + i`.
pub fn worker_commands(count: usize, base_port: u16, manifest_path: &str) -> (v: Vec<WorkerCommand>)
    requires
        base_port + count <= 65536,
    ensures
        v@.len() == count,
        forall|i: int| 0 <= i < count ==> is_worker_command(#[trigger] v@[i], (base_port + i) as u16, manifest_path@),
{
    let mut v: Vec<WorkerCommand> = Vec::new();
    let mut i: usize = 0;
    while i < count
        invariant
            0 <= i <= count,
            base_port + count <= 65536,
            v@.len() == i,
            forall|k: int| 0 <= k < i ==> is_worker_command(#[trigger] v@[k], (base_port + k) as u16, manifest_path@),
        decreases count - i,
    {
        let port = base_port + (i as u16);
        v.push(worker_command(port, manifest_path));
        i = i + 1;
    }
    v
}

/// The plan of a builder's process-based workers: refused without a
/// manifest file, or when the ports would run past 65535; otherwise one
/// command per worker.
pub fn plan_processes(builder: &ClusterBuilder) -> (r: Result<Vec<WorkerCommand>, ClusterError>)
    ensures
        builder.manifest_spec() is None <==> r == Err::<Vec<WorkerCommand>, ClusterError>(ClusterError::ManifestRequired),
        r == Err::<Vec<WorkerCommand>, ClusterError>(ClusterError::PortRangeExceeded) <==> (builder.manifest_spec() is Some
            && builder.base_port_spec() + builder.worker_count_spec() > 65536),
        r matches Ok(v) ==> builder.manifest_spec() matches Some(m) && v@.len() == builder.worker_count_spec()
            && forall|i: int| 0 <= i < v@.len() ==> is_worker_command(#[trigger] v@[i], (builder.base_port_spec() + i) as u16, m),
{
    let manifest = match builder.manifest_path() {
        Some(m) => m,
        None => {
            return Err(ClusterError::ManifestRequired);
        },
    };
    let count = builder.worker_count();
    let base = builder.get_base_port();
    if count > 65536 - (base as usize) {
        return Err(ClusterError::PortRangeExceeded);
    }
    Ok(worker_commands(count, base, manifest))
}

} // verus!
