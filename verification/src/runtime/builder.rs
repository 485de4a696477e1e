//! Runtime builder: assembles a host configuration from defaults, the
//! manifest's `[server]` section, the machine's resources and explicit
//! settings.

use crate::constants::{DEFAULT_CACHE_MB, DEFAULT_CACHE_SIZE, DEFAULT_MAX_CONCURRENT_REQUESTS, DEFAULT_MAX_PER_MODULE_REQUESTS};
use crate::manifest::{Manifest, ServerConfig};
use crate::paths::{path_buf_from, path_of};
use crate::runtime::host_config::{is_default_host_config, HostConfig, DEFAULT_MEMORY_LIMIT_BYTES};
use crate::time::{duration_as_secs, whole_secs};
use std::path::PathBuf;
use std::time::Duration;
use vstd::prelude::*;

verus! {

/// A machine's resources as the sysinfo crate reports them.
#[verifier::external_type_specification]
#[verifier::external_body]
pub struct ExSystem(sysinfo::System);

/// `sysinfo::System::new`: a handle with nothing loaded; `None` when the
/// platform cannot provide one. Nothing else is stated.
#[verifier::external_body]
fn system_new() -> Option<sysinfo::System> {
    sysinfo::System::new().ok()
}

/// `sysinfo::System::refresh_memory`: reloads the memory figures; they
/// depend on the machine, so nothing is stated.
#[verifier::external_body]
fn system_refresh_memory(sys: &mut sysinfo::System) {
    sys.refresh_memory()
}

/// `sysinfo::System::total_memory`: the RAM size in bytes; it depends on the
/// machine, so nothing is stated.
#[verifier::external_body]
fn system_total_memory(sys: &sysinfo::System) -> u64 {
    sys.total_memory()
}

/// `num_cpus::get`: the number of logical CPUs available to the process. It
/// depends on the machine; the crate documents that it is always at least 1.
#[verifier::external_body]
pub(crate) fn logical_cpus() -> (n: usize)
    ensures
        n >= 1,
{
    num_cpus::get()
}

/// `x` brought into `lo..=hi`.
pub open spec fn clamp(x: int, lo: int, hi: int) -> int {
    if x < lo {
        lo
    } else if x > hi {
        hi
    } else {
        x
    }
}

/// Limits sized from the machine's resources.
#[derive(Debug, Clone, Copy)]
pub struct SystemConfig {
    /// Total system RAM in bytes.
    pub total_memory_bytes: u64,
    /// Number of CPU cores.
    pub cpu_cores: usize,
    /// Module cache size: one module per 10MB of RAM, between 10 and 1000.
    pub cache_size: usize,
    /// Cache memory: a tenth of the RAM, between 64MB and 1GB.
    pub max_cache_bytes: usize,
    /// Concurrent requests: 150 per core, between 100 and 10000.
    pub max_concurrent_requests: usize,
    /// Per-module requests: a tenth of the concurrent ones, between 10 and 500.
    pub max_per_module_requests: usize,
}

/// The limits for a machine with `total_memory_bytes` of RAM and `cpu_cores` cores.
pub open spec fn system_for(total_memory_bytes: u64, cpu_cores: usize) -> SystemConfig {
    let max_concurrent = clamp(cpu_cores * 150, 100, 10000);
    SystemConfig {
        total_memory_bytes,
        cpu_cores,
        cache_size: clamp((total_memory_bytes / 10485760) as int, 10, 1000) as usize,
        max_cache_bytes: clamp((total_memory_bytes / 10) as int, 67108864, 1073741824) as usize,
        max_concurrent_requests: max_concurrent as usize,
        max_per_module_requests: clamp(max_concurrent / 10, 10, 500) as usize,
    }
}

impl SystemConfig {
    /// Sizes the limits for the given machine resources.
    pub fn from_resources(total_memory_bytes: u64, cpu_cores: usize) -> (s: Self)
        ensures
            s == system_for(total_memory_bytes, cpu_cores),
    {
        let modules = total_memory_bytes / 10485760;
        let cache_size: usize = if modules < 10 {
            10
        } else if modules > 1000 {
            1000
        } else {
            modules as usize
        };
        let tenth = total_memory_bytes / 10;
        let max_cache_bytes: usize = if tenth < 67108864 {
            67108864
        } else if tenth > 1073741824 {
            1073741824
        } else {
            tenth as usize
        };
        let max_concurrent_requests: usize = if cpu_cores > 10000 {
            10000
        } else if cpu_cores * 150 < 100 {
            100
        } else if cpu_cores * 150 > 10000 {
            10000
        } else {
            cpu_cores * 150
        };
        let per = max_concurrent_requests / 10;
        let max_per_module_requests: usize = if per < 10 {
            10
        } else if per > 500 {
            500
        } else {
            per
        };
        SystemConfig {
            total_memory_bytes,
            cpu_cores,
            cache_size,
            max_cache_bytes,
            max_concurrent_requests,
            max_per_module_requests,
        }
    }

    /// Reads the machine's RAM and CPU count and sizes the limits for them;
    /// a platform without memory figures counts as having none.
    pub fn detect() -> (s: Self)
        ensures
            exists|m: u64, c: usize| c >= 1 && s == system_for(m, c),
    {
        let total = match system_new() {
            Some(mut sys) => {
                system_refresh_memory(&mut sys);
                system_total_memory(&sys)
            },
            None => 0,
        };
        let cores = logical_cpus();
        let s = Self::from_resources(total, cores);
        assert(s == system_for(total, cores));
        s
    }
}

/// `value` unless it is 0 ("automatic"), then `fallback`.
pub open spec fn or_auto(value: usize, fallback: int) -> int {
    if value > 0 { value as int } else { fallback }
}

/// The host configuration built from a `[server]` section, the memory limit
/// per request, and, when the section asks for automatic sizing, the
/// machine's limits `sys`.
pub open spec fn config_from_server(
    c: HostConfig,
    server: ServerConfig,
    memory_limit_bytes: usize,
    sys: SystemConfig,
) -> bool {
    &&& c.cache_size == or_auto(
        server.cache_size,
        if server.auto { sys.cache_size as int } else { DEFAULT_CACHE_SIZE as int },
    )
    &&& c.max_cache_bytes == (if server.max_cache_mb > 0 {
        server.max_cache_mb * 1048576
    } else if server.auto {
        sys.max_cache_bytes as int
    } else {
        DEFAULT_CACHE_MB * 1048576
    })
    &&& c.max_concurrent_requests == or_auto(
        server.max_concurrent_requests,
        if server.auto { sys.max_concurrent_requests as int } else { DEFAULT_MAX_CONCURRENT_REQUESTS as int },
    )
    &&& c.max_per_module_requests == or_auto(
        server.max_per_module_requests,
        if server.auto { sys.max_per_module_requests as int } else { DEFAULT_MAX_PER_MODULE_REQUESTS as int },
    )
    &&& c.modules_path == path_of(server.modules@)
    &&& c.static_dir == match server.static_dir {
        Some(d) => Some(path_of(d@)),
        None => None::<PathBuf>,
    }
    &&& c.port == server.port
    &&& c.execution_timeout_secs == server.execution_timeout_secs
    &&& c.memory_limit_bytes == memory_limit_bytes
    &&& c.max_body_size_bytes == server.max_body_size_mb * 1048576
    &&& c.shutdown_timeout_secs == server.shutdown_timeout_secs
    &&& c.logging_enabled == server.logging
    &&& c.http_allowed@.len() == server.http_allowed@.len()
    &&& (forall|i: int| 0 <= i < c.http_allowed@.len() ==> #[trigger] c.http_allowed@[i]@ == server.http_allowed@[i]@)
    &&& c.scripts_dir == match server.scripts {
        Some(d) => Some(path_of(d@)),
        None => None::<PathBuf>,
    }
    &&& !c.hot_reload
    &&& c.aot_cache_max_mb == 0
    &&& c.fuel_budget is None
}

/// Two host configurations that agree on every setting but, possibly, the
/// memory limit per request (allowed hosts compared as text).
pub open spec fn same_but_memory_limit(a: HostConfig, b: HostConfig) -> bool {
    &&& a.modules_path == b.modules_path
    &&& a.cache_size == b.cache_size
    &&& a.max_cache_bytes == b.max_cache_bytes
    &&& a.static_dir == b.static_dir
    &&& a.port == b.port
    &&& a.execution_timeout_secs == b.execution_timeout_secs
    &&& a.max_concurrent_requests == b.max_concurrent_requests
    &&& a.max_body_size_bytes == b.max_body_size_bytes
    &&& a.max_per_module_requests == b.max_per_module_requests
    &&& a.shutdown_timeout_secs == b.shutdown_timeout_secs
    &&& a.logging_enabled == b.logging_enabled
    &&& a.http_allowed@.len() == b.http_allowed@.len()
    &&& (forall|i: int| 0 <= i < a.http_allowed@.len() ==> #[trigger] a.http_allowed@[i]@ == b.http_allowed@[i]@)
    &&& a.scripts_dir == b.scripts_dir
    &&& a.hot_reload == b.hot_reload
    &&& a.aot_cache_max_mb == b.aot_cache_max_mb
    &&& a.fuel_budget == b.fuel_budget
}

/// A `[server]` section applied with a given memory limit (as a manifest
/// file's own limit is) gives the configuration that the section alone
/// gives with the default limit, on the same machine, except that the
/// memory limit is the given one. With equal limits the two agree in every
/// setting: loading a manifest is loading its `[server]` section. Two calls
/// of `with_server_settings` on the same machine figures meet the
/// requirements.
pub proof fn lemma_server_settings_agree(
    a: HostConfig,
    b: HostConfig,
    server: ServerConfig,
    memory_limit_bytes: usize,
    sys: SystemConfig,
)
    requires
        config_from_server(a, server, memory_limit_bytes, sys),
        config_from_server(b, server, DEFAULT_MEMORY_LIMIT_BYTES, sys),
    ensures
        same_but_memory_limit(a, b),
        a.memory_limit_bytes == memory_limit_bytes,
        b.memory_limit_bytes == DEFAULT_MEMORY_LIMIT_BYTES,
{
}

/// Without automatic sizing the machine plays no part: two configurations
/// built from one `[server]` section and one memory limit agree in every
/// setting, whatever each detected.
pub proof fn lemma_fixed_sizes_ignore_machine(
    a: HostConfig,
    b: HostConfig,
    server: ServerConfig,
    memory_limit_bytes: usize,
    sys_a: SystemConfig,
    sys_b: SystemConfig,
)
    requires
        !server.auto,
        config_from_server(a, server, memory_limit_bytes, sys_a),
        config_from_server(b, server, memory_limit_bytes, sys_b),
    ensures
        same_but_memory_limit(a, b),
        a.memory_limit_bytes == b.memory_limit_bytes,
{
}

/// The sizes in a `[server]` section fit in memory once converted to bytes.
pub open spec fn server_sizes_fit(server: ServerConfig) -> bool {
    &&& server.max_cache_mb * 1048576 <= usize::MAX
    &&& server.max_body_size_mb * 1048576 <= usize::MAX
}

fn optional_path(s: &Option<String>) -> (p: Option<PathBuf>)
    ensures
        p == match *s {
            Some(d) => Some(path_of(d@)),
            None => None::<PathBuf>,
        },
{
    match s {
        Some(d) => Some(path_buf_from(d.as_str())),
        None => None,
    }
}

fn copy_strings(v: &Vec<String>) -> (r: Vec<String>)
    ensures
        r@.len() == v@.len(),
        forall|i: int| 0 <= i < r@.len() ==> #[trigger] r@[i]@ == v@[i]@,
{
    let mut r: Vec<String> = Vec::new();
    let mut i: usize = 0;
    while i < v.len()
        invariant
            0 <= i <= v@.len(),
            r@.len() == i,
            forall|j: int| 0 <= j < i ==> #[trigger] r@[j]@ == v@[j]@,
        decreases v@.len() - i,
    {
        r.push(v[i].as_str().to_string());
        i = i + 1;
    }
    r
}

/// Builder for the runtime's host configuration.
pub struct RuntimeBuilder {
    config: HostConfig,
}

impl Default for RuntimeBuilder {
    fn default() -> (b: Self)
        ensures
            is_default_host_config(b.config_spec()),
    {
        RuntimeBuilder { config: HostConfig::default() }
    }
}

impl RuntimeBuilder {
    /// The configuration built so far.
    pub closed spec fn config_spec(&self) -> HostConfig {
        self.config
    }

    /// Creates a builder with the default configuration.
    pub fn new() -> (b: Self)
        ensures
            is_default_host_config(b.config_spec()),
    {
        Self::default()
    }

    /// Applies a `[server]` section with a memory limit per request, sizing
    /// what the section leaves automatic by the machine figures `sys`.
    pub fn with_server_settings(
        self,
        server: &ServerConfig,
        memory_limit_bytes: usize,
        sys: &SystemConfig,
    ) -> (b: Self)
        requires
            server_sizes_fit(*server),
        ensures
            config_from_server(b.config_spec(), *server, memory_limit_bytes, *sys),
    {
        let cache_size = if server.cache_size > 0 {
            server.cache_size
        } else if server.auto {
            sys.cache_size
        } else {
            DEFAULT_CACHE_SIZE
        };
        let max_cache_bytes = if server.max_cache_mb > 0 {
            server.max_cache_mb * 1024 * 1024
        } else if server.auto {
            sys.max_cache_bytes
        } else {
            DEFAULT_CACHE_MB * 1024 * 1024
        };
        let max_concurrent_requests = if server.max_concurrent_requests > 0 {
            server.max_concurrent_requests
        } else if server.auto {
            sys.max_concurrent_requests
        } else {
            DEFAULT_MAX_CONCURRENT_REQUESTS
        };
        let max_per_module_requests = if server.max_per_module_requests > 0 {
            server.max_per_module_requests
        } else if server.auto {
            sys.max_per_module_requests
        } else {
            DEFAULT_MAX_PER_MODULE_REQUESTS
        };
        let config = HostConfig {
            modules_path: path_buf_from(server.modules.as_str()),
            cache_size,
            max_cache_bytes,
            static_dir: optional_path(&server.static_dir),
            port: server.port,
            execution_timeout_secs: server.execution_timeout_secs,
            memory_limit_bytes,
            max_concurrent_requests,
            max_body_size_bytes: server.max_body_size_mb * 1024 * 1024,
            max_per_module_requests,
            shutdown_timeout_secs: server.shutdown_timeout_secs,
            logging_enabled: server.logging,
            http_allowed: copy_strings(&server.http_allowed),
            scripts_dir: optional_path(&server.scripts),
            hot_reload: false,
            aot_cache_max_mb: 0,
            fuel_budget: None,
        };
        RuntimeBuilder { config }
    }

    /// Applies a `[server]` section with an explicit memory limit per
    /// request, as read from a manifest file; automatic sizes come from the
    /// machine when the section asks for them.
    pub fn from_server_settings(self, server: &ServerConfig, memory_limit_bytes: usize) -> (b: Self)
        requires
            server_sizes_fit(*server),
        ensures
            exists|m: u64, c: usize| config_from_server(b.config_spec(), *server, memory_limit_bytes, system_for(m, c)),
    {
        let sys = if server.auto {
            SystemConfig::detect()
        } else {
            SystemConfig::from_resources(0, 0)
        };
        self.with_server_settings(server, memory_limit_bytes, &sys)
    }

    /// Loads the configuration from a `[server]` section, with the default
    /// memory limit per request; automatic sizes come from the machine when
    /// the section asks for them.
    pub fn from_server_config(self, server: &ServerConfig) -> (b: Self)
        requires
            server_sizes_fit(*server),
        ensures
            exists|m: u64, c: usize| config_from_server(b.config_spec(), *server, DEFAULT_MEMORY_LIMIT_BYTES, system_for(m, c)),
    {
        self.from_server_settings(server, DEFAULT_MEMORY_LIMIT_BYTES)
    }

    /// Loads the configuration from a manifest's `[server]` section.
    pub fn from_manifest(self, manifest: &Manifest) -> (b: Self)
        requires
            server_sizes_fit(manifest.server),
        ensures
            exists|m: u64, c: usize| config_from_server(b.config_spec(), manifest.server, DEFAULT_MEMORY_LIMIT_BYTES, system_for(m, c)),
    {
        self.from_server_config(&manifest.server)
    }

    /// Sets the modules directory or single component path.
    pub fn modules_dir(self, path: &str) -> (b: Self)
        ensures
            b.config_spec() == (HostConfig { modules_path: path_of(path@), ..self.config_spec() }),
    {
        let mut b = self;
        b.config.modules_path = path_buf_from(path);
        b
    }

    /// Sets the LRU cache size (number of modules).
    pub fn cache_size(self, size: usize) -> (b: Self)
        ensures
            b.config_spec() == (HostConfig { cache_size: size, ..self.config_spec() }),
    {
        let mut b = self;
        b.config.cache_size = size;
        b
    }

    /// Sets the maximum cache memory in bytes.
    pub fn max_cache_bytes(self, bytes: usize) -> (b: Self)
        ensures
            b.config_spec() == (HostConfig { max_cache_bytes: bytes, ..self.config_spec() }),
    {
        let mut b = self;
        b.config.max_cache_bytes = bytes;
        b
    }

    /// Sets the static files directory.
    pub fn static_dir(self, path: &str) -> (b: Self)
        ensures
            b.config_spec() == (HostConfig { static_dir: Some(path_of(path@)), ..self.config_spec() }),
    {
        let mut b = self;
        b.config.static_dir = Some(path_buf_from(path));
        b
    }

    /// Sets the scripts directory for JS orchestration.
    pub fn scripts_dir(self, path: &str) -> (b: Self)
        ensures
            b.config_spec() == (HostConfig { scripts_dir: Some(path_of(path@)), ..self.config_spec() }),
    {
        let mut b = self;
        b.config.scripts_dir = Some(path_buf_from(path));
        b
    }

    /// Sets the port (for reference; the runtime does not bind it).
    pub fn port(self, port: u16) -> (b: Self)
        ensures
            b.config_spec() == (HostConfig { port, ..self.config_spec() }),
    {
        let mut b = self;
        b.config.port = port;
        b
    }

    /// Sets the execution timeout, in whole seconds of `timeout`.
    pub fn execution_timeout(self, timeout: Duration) -> (b: Self)
        ensures
            b.config_spec() == (HostConfig { execution_timeout_secs: whole_secs(timeout), ..self.config_spec() }),
    {
        let mut b = self;
        b.config.execution_timeout_secs = duration_as_secs(&timeout);
        b
    }

    /// Sets the execution timeout in seconds.
    pub fn execution_timeout_secs(self, timeout_secs: u64) -> (b: Self)
        ensures
            b.config_spec() == (HostConfig { execution_timeout_secs: timeout_secs, ..self.config_spec() }),
    {
        let mut b = self;
        b.config.execution_timeout_secs = timeout_secs;
        b
    }

    /// Sets the memory limit per request in bytes.
    pub fn memory_limit(self, limit_bytes: usize) -> (b: Self)
        ensures
            b.config_spec() == (HostConfig { memory_limit_bytes: limit_bytes, ..self.config_spec() }),
    {
        let mut b = self;
        b.config.memory_limit_bytes = limit_bytes;
        b
    }

    /// Sets the maximum concurrent requests.
    pub fn max_concurrent_requests(self, max: usize) -> (b: Self)
        ensures
            b.config_spec() == (HostConfig { max_concurrent_requests: max, ..self.config_spec() }),
    {
        let mut b = self;
        b.config.max_concurrent_requests = max;
        b
    }

    /// Sets the maximum request body size in bytes.
    pub fn max_body_size(self, max_bytes: usize) -> (b: Self)
        ensures
            b.config_spec() == (HostConfig { max_body_size_bytes: max_bytes, ..self.config_spec() }),
    {
        let mut b = self;
        b.config.max_body_size_bytes = max_bytes;
        b
    }

    /// Sets the maximum concurrent requests per module.
    pub fn max_per_module_requests(self, max: usize) -> (b: Self)
        ensures
            b.config_spec() == (HostConfig { max_per_module_requests: max, ..self.config_spec() }),
    {
        let mut b = self;
        b.config.max_per_module_requests = max;
        b
    }

    /// Sets the graceful shutdown timeout, in whole seconds of `timeout`.
    pub fn shutdown_timeout(self, timeout: Duration) -> (b: Self)
        ensures
            b.config_spec() == (HostConfig { shutdown_timeout_secs: whole_secs(timeout), ..self.config_spec() }),
    {
        let mut b = self;
        b.config.shutdown_timeout_secs = duration_as_secs(&timeout);
        b
    }

    /// Enables or disables wasi:logging for WASM modules.
    pub fn logging(self, enabled: bool) -> (b: Self)
        ensures
            b.config_spec() == (HostConfig { logging_enabled: enabled, ..self.config_spec() }),
    {
        let mut b = self;
        b.config.logging_enabled = enabled;
        b
    }

    /// Sets the allowed hosts for outgoing HTTP requests.
    pub fn http_allowed(self, hosts: Vec<String>) -> (b: Self)
        ensures
            b.config_spec() == (HostConfig { http_allowed: hosts, ..self.config_spec() }),
    {
        let mut b = self;
        b.config.http_allowed = hosts;
        b
    }

    /// Enables or disables hot-reload mode (bypasses the persistent AOT cache).
    pub fn hot_reload(self, enabled: bool) -> (b: Self)
        ensures
            b.config_spec() == (HostConfig { hot_reload: enabled, ..self.config_spec() }),
    {
        let mut b = self;
        b.config.hot_reload = enabled;
        b
    }

    /// Sets the maximum AOT cache size in MB.
    pub fn aot_cache_max_mb(self, max_mb: usize) -> (b: Self)
        ensures
            b.config_spec() == (HostConfig { aot_cache_max_mb: max_mb, ..self.config_spec() }),
    {
        let mut b = self;
        b.config.aot_cache_max_mb = max_mb;
        b
    }

    /// Sets the fuel budget per request for CPU limiting.
    pub fn fuel_budget(self, budget: u64) -> (b: Self)
        ensures
            b.config_spec() == (HostConfig { fuel_budget: Some(budget), ..self.config_spec() }),
    {
        let mut b = self;
        b.config.fuel_budget = Some(budget);
        b
    }

    /// The configured port.
    pub fn get_port(&self) -> (p: u16)
        ensures
            p == self.config_spec().port,
    {
        self.config.port
    }

    /// The configuration built so far.
    pub fn config(&self) -> (c: &HostConfig)
        ensures
            *c == self.config_spec(),
    {
        &self.config
    }
}

} // verus!
