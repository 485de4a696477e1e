//! Content-addressable cache of ahead-of-time compiled WASM components.
//!
//! Artifacts live in `~/.mik/cache/aot/v1/<wasmtime-version>/`, named by a
//! BLAKE3 hash of the component's bytes. Creating the directory, writing,
//! listing and removing files are file-system work outside this module; the
//! choice of which artifacts a size-limited cleanup removes is made here.

use crate::paths::{empty_path, joined, path_exists, path_join, path_of};
use crate::text::{hex_encode, hex_string, push_str};
use std::path::PathBuf;
use vstd::prelude::*;

verus! {

broadcast use vstd::string::group_string_axioms;

/// Cache format version. Increment when the cache format changes.
pub const CACHE_VERSION: &'static str = "v1";

/// Wasmtime version for cache isolation.
pub const WASMTIME_VERSION: &'static str = "wasmtime-40";

/// The 32-byte BLAKE3 hash of `data`.
pub uninterp spec fn blake3_of(data: Seq<u8>) -> Seq<u8>;

/// `blake3::hash` then `Hash::as_bytes`: the 32 bytes named `blake3_of(data)`.
#[verifier::external_body]
fn blake3_hash(data: &[u8]) -> (h: [u8; 32])
    ensures
        h@ == blake3_of(data@),
{
    *blake3::hash(data).as_bytes()
}

/// The cache directory under the home directory `home`:
/// `.mik/cache/aot/<cache version>/<wasmtime version>`.
pub fn cache_dir_in(home: &PathBuf) -> (d: PathBuf)
    ensures
        d == joined(
            joined(joined(joined(joined(*home, ".mik"@), "cache"@), "aot"@), CACHE_VERSION@),
            WASMTIME_VERSION@,
        ),
{
    let a = path_join(home, ".mik");
    let b = path_join(&a, "cache");
    let c = path_join(&b, "aot");
    let d = path_join(&c, CACHE_VERSION);
    path_join(&d, WASMTIME_VERSION)
}

/// AOT cache configuration.
#[derive(Debug, Clone)]
pub struct AotCacheConfig {
    /// Maximum cache size in bytes (default: 1GB).
    pub max_size_bytes: u64,
    /// Bypass cache entirely (for hot-reload mode).
    pub bypass: bool,
}

impl Default for AotCacheConfig {
    fn default() -> (c: Self)
        ensures
            c.max_size_bytes == 1073741824,
            !c.bypass,
    {
        AotCacheConfig { max_size_bytes: 1073741824, bypass: false }
    }
}

/// The cache key of a component: the first 16 bytes of its BLAKE3 hash in
/// lowercase hex (32 characters).
pub open spec fn cache_key(wasm: Seq<u8>) -> Seq<char> {
    hex_encode(blake3_of(wasm).take(16))
}

/// The file name of the artifact with key `key`.
pub open spec fn artifact_name(key: Seq<char>) -> Seq<char> {
    key + ".aot"@
}

/// Content-addressable AOT cache.
#[derive(Debug, Clone)]
pub struct AotCache {
    cache_dir: PathBuf,
    config: AotCacheConfig,
}

impl AotCache {
    /// The cache directory.
    pub closed spec fn dir_spec(&self) -> PathBuf {
        self.cache_dir
    }

    /// The configuration.
    pub closed spec fn config_spec(&self) -> AotCacheConfig {
        self.config
    }

    /// A cache over the existing directory `cache_dir`.
    pub fn with_dir(cache_dir: PathBuf, config: AotCacheConfig) -> (c: Self)
        ensures
            c.dir_spec() == cache_dir,
            c.config_spec() == config,
    {
        AotCache { cache_dir, config }
    }

    /// A cache that bypasses all caching (for hot-reload mode).
    pub fn bypass() -> (c: Self)
        ensures
            c.config_spec().bypass,
            c.config_spec().max_size_bytes == 1073741824,
            c.dir_spec() == path_of(Seq::empty()),
    {
        AotCache { cache_dir: empty_path(), config: AotCacheConfig { bypass: true, ..Default::default() } }
    }

    /// Whether the cache is in bypass mode.
    pub fn is_bypass(&self) -> (b: bool)
        ensures
            b == self.config_spec().bypass,
    {
        self.config.bypass
    }

    /// The cache key of a component: 32 lowercase hex characters of its
    /// BLAKE3 hash truncated to 128 bits.
    pub fn compute_key(wasm_bytes: &[u8]) -> (k: String)
        ensures
            k@ == cache_key(wasm_bytes@),
    {
        let hash = blake3_hash(wasm_bytes);
        let first = vstd::slice::slice_subrange(hash.as_slice(), 0, 16);
        assert(first@ =~= blake3_of(wasm_bytes@).take(16));
        hex_string(first)
    }

    /// Where the artifact of `wasm_bytes` is stored: the cache directory
    /// joined with its key and `.aot`.
    pub fn artifact_path(&self, wasm_bytes: &[u8]) -> (p: PathBuf)
        ensures
            p == joined(self.dir_spec(), artifact_name(cache_key(wasm_bytes@))),
    {
        let mut name = Self::compute_key(wasm_bytes);
        push_str(&mut name, ".aot");
        path_join(&self.cache_dir, name.as_str())
    }

    /// Where the artifact of `wasm_bytes` is written before it is renamed
    /// into place: its path with `.tmp` appended.
    pub fn temp_artifact_path(&self, wasm_bytes: &[u8]) -> (p: PathBuf)
        ensures
            p == joined(self.dir_spec(), artifact_name(cache_key(wasm_bytes@)) + ".tmp"@),
    {
        let mut name = Self::compute_key(wasm_bytes);
        push_str(&mut name, ".aot.tmp");
        proof {
            reveal_strlit(".aot.tmp");
            reveal_strlit(".aot");
            reveal_strlit(".tmp");
        }
        assert(name@ =~= artifact_name(cache_key(wasm_bytes@)) + ".tmp"@);
        path_join(&self.cache_dir, name.as_str())
    }

    /// The cache directory.
    pub fn cache_dir(&self) -> (d: &PathBuf)
        ensures
            *d == self.dir_spec(),
    {
        &self.cache_dir
    }

    /// The size limit of the cache in bytes.
    pub fn max_size_bytes(&self) -> (n: u64)
        ensures
            n == self.config_spec().max_size_bytes,
    {
        self.config.max_size_bytes
    }

    /// Where a compiled artifact of `wasm_bytes` is stored: the temporary
    /// file it is written to, then the path it is renamed to. A cache in
    /// bypass mode stores nothing.
    pub fn store_paths(&self, wasm_bytes: &[u8]) -> (r: Result<(PathBuf, PathBuf), AotStoreError>)
        ensures
            self.config_spec().bypass <==> r is Err,
            r matches Ok(ps) ==> ps.0 == joined(
                self.dir_spec(),
                artifact_name(cache_key(wasm_bytes@)) + ".tmp"@,
            ) && ps.1 == joined(self.dir_spec(), artifact_name(cache_key(wasm_bytes@))),
    {
        if self.config.bypass {
            return Err(AotStoreError::BypassEnabled);
        }
        Ok((self.temp_artifact_path(wasm_bytes), self.artifact_path(wasm_bytes)))
    }

    /// The path of the cached artifact of `wasm_bytes`, if there is one on
    /// disk; always `None` in bypass mode. Otherwise the file system is asked
    /// whether the artifact path exists, and the answer decides as
    /// [`cached_artifact`] states.
    pub fn get(&self, wasm_bytes: &[u8]) -> (r: Option<PathBuf>)
        ensures
            self.config_spec().bypass ==> r is None,
            !self.config_spec().bypass ==> exists|on_disk: bool|
                r == #[trigger] cached_artifact_spec(
                    joined(self.dir_spec(), artifact_name(cache_key(wasm_bytes@))),
                    on_disk,
                ),
    {
        if self.config.bypass {
            return None;
        }
        let path = self.artifact_path(wasm_bytes);
        let on_disk = path_exists(&path);
        let r = cached_artifact(path, on_disk);
        assert(r == cached_artifact_spec(
            joined(self.dir_spec(), artifact_name(cache_key(wasm_bytes@))),
            on_disk,
        ));
        r
    }
}

/// The answer to a cache lookup: the artifact path when the file is on
/// disk, else nothing.
pub open spec fn cached_artifact_spec(path: PathBuf, on_disk: bool) -> Option<PathBuf> {
    if on_disk {
        Some(path)
    } else {
        None
    }
}

/// Decides a cache lookup from the file system's answer: `Some(path)`
/// exactly when the artifact file `path` exists.
pub fn cached_artifact(path: PathBuf, on_disk: bool) -> (r: Option<PathBuf>)
    ensures
        r == cached_artifact_spec(path, on_disk),
{
    if on_disk {
        Some(path)
    } else {
        None
    }
}

/// The sum of some sizes.
pub open spec fn sum_sizes(sizes: Seq<u64>) -> nat
    decreases sizes.len(),
{
    if sizes.len() == 0 {
        0
    } else {
        sum_sizes(sizes.drop_last()) + sizes.last() as nat
    }
}

impl AotCache {
    /// The statistics of a cache whose artifact files have the sizes
    /// `sizes`: their number and total size, the limit and the directory. A
    /// cache in bypass mode reports zeros and an empty directory. `None`
    /// when the total does not fit in 64 bits.
    pub fn stats_from_sizes(&self, sizes: &Vec<u64>) -> (r: Option<CacheStats>)
        ensures
            self.config_spec().bypass ==> (r matches Some(s) && s.entry_count == 0
                && s.total_size_bytes == 0 && s.max_size_bytes == 0 && s.cache_dir == path_of(
                Seq::empty(),
            )),
            !self.config_spec().bypass ==> (r is Some <==> sum_sizes(sizes@) <= u64::MAX),
            !self.config_spec().bypass ==> (r matches Some(s) ==> s.entry_count == sizes@.len()
                && s.total_size_bytes == sum_sizes(sizes@) && s.max_size_bytes
                == self.config_spec().max_size_bytes && s.cache_dir == self.dir_spec()),
    {
        if self.config.bypass {
            return Some(
                CacheStats { entry_count: 0, total_size_bytes: 0, max_size_bytes: 0, cache_dir: empty_path() },
            );
        }
        let mut total: u64 = 0;
        let mut i: usize = 0;
        while i < sizes.len()
            invariant
                0 <= i <= sizes@.len(),
                !self.config_spec().bypass,
                total == sum_sizes(sizes@.take(i as int)),
            decreases sizes@.len() - i,
        {
            assert(sizes@.take(i + 1).drop_last() =~= sizes@.take(i as int));
            if total > u64::MAX - sizes[i] {
                proof {
                    lemma_sum_sizes_prefix(sizes@, i + 1);
                }
                return None;
            }
            total = total + sizes[i];
            i = i + 1;
        }
        assert(sizes@.take(sizes@.len() as int) =~= sizes@);
        Some(
            CacheStats {
                entry_count: sizes.len(),
                total_size_bytes: total,
                max_size_bytes: self.config.max_size_bytes,
                cache_dir: self.cache_dir.clone(),
            },
        )
    }

    /// Whether a cache holding `total_size_bytes` is over its limit, so that
    /// storing an artifact triggers a cleanup.
    pub fn over_limit(&self, total_size_bytes: u64) -> (b: bool)
        ensures
            b == (total_size_bytes > self.config_spec().max_size_bytes),
    {
        total_size_bytes > self.config.max_size_bytes
    }
}

proof fn lemma_sum_sizes_prefix(sizes: Seq<u64>, k: int)
    requires
        0 <= k <= sizes.len(),
    ensures
        sum_sizes(sizes.take(k)) <= sum_sizes(sizes),
    decreases sizes.len(),
{
    if k < sizes.len() {
        assert(sizes.drop_last().take(k) =~= sizes.take(k));
        lemma_sum_sizes_prefix(sizes.drop_last(), k);
    } else {
        assert(sizes.take(k) =~= sizes);
    }
}

/// Why an artifact cannot be stored.
#[derive(Debug, Clone, Copy, PartialEq, Eq, Structural)]
pub enum AotStoreError {
    /// The cache is in bypass mode.
    BypassEnabled,
}

impl AotStoreError {
    /// The human-readable message.
    pub fn to_string(&self) -> (s: String)
        ensures
            s@ == "Cannot store in cache when bypass is enabled"@,
    {
        "Cannot store in cache when bypass is enabled".to_string()
    }
}

/// Cache statistics.
#[derive(Debug)]
pub struct CacheStats {
    /// Number of cached entries.
    pub entry_count: usize,
    /// Total size of cached entries in bytes.
    pub total_size_bytes: u64,
    /// Maximum cache size in bytes.
    pub max_size_bytes: u64,
    /// Cache directory path.
    pub cache_dir: PathBuf,
}

/// Cleanup operation statistics.
#[derive(Debug, Clone, Copy, PartialEq, Eq, Structural)]
pub struct CleanupStats {
    /// Number of entries removed.
    pub entries_removed: usize,
    /// Bytes freed.
    pub bytes_freed: u64,
    /// Current cache size after cleanup.
    pub current_size_bytes: u64,
}

impl Default for CleanupStats {
    fn default() -> (s: Self)
        ensures
            s == (CleanupStats { entries_removed: 0, bytes_freed: 0, current_size_bytes: 0 }),
    {
        CleanupStats { entries_removed: 0, bytes_freed: 0, current_size_bytes: 0 }
    }
}

/// An artifact found in the cache directory: its size, and when it was last
/// accessed (nanoseconds since the epoch; its modification time when the
/// access time is unknown, and 0 when neither is).
#[derive(Debug, Clone, Copy, PartialEq, Eq, Structural)]
pub struct CacheEntryInfo {
    /// Size in bytes.
    pub size: u64,
    /// Last access, in nanoseconds since the epoch.
    pub accessed_nanos: u128,
}

/// The total size of the entries.
pub open spec fn total_size(entries: Seq<CacheEntryInfo>) -> nat
    decreases entries.len(),
{
    if entries.len() == 0 {
        0
    } else {
        total_size(entries.drop_last()) + entries.last().size as nat
    }
}

/// Entry `i` comes before entry `j` in least-recently-used order: it was
/// accessed earlier, or at the same time and listed earlier.
pub open spec fn lru_before(entries: Seq<CacheEntryInfo>, i: int, j: int) -> bool {
    entries[i].accessed_nanos < entries[j].accessed_nanos || (entries[i].accessed_nanos
        == entries[j].accessed_nanos && i <= j)
}

/// A size-limited cleanup in progress: entries are considered oldest first
/// (by access time, ties in listing order) while the cache is over its
/// limit; each removal that succeeds frees the entry's size.
pub struct CleanupRun {
    entries: Vec<CacheEntryInfo>,
    visited: Vec<bool>,
    max_size_bytes: u64,
    current: u64,
    removed: usize,
    freed: u64,
    failed: Ghost<nat>,
}

impl CleanupRun {
    /// The entries being cleaned.
    pub closed spec fn entries_spec(&self) -> Seq<CacheEntryInfo> {
        self.entries@
    }

    /// Whether entry `i` has been considered.
    pub closed spec fn visited_spec(&self, i: int) -> bool {
        self.visited@[i]
    }

    /// The size limit.
    pub closed spec fn limit(&self) -> u64 {
        self.max_size_bytes
    }

    /// The bytes of the entries whose removal failed.
    pub closed spec fn failed_bytes(&self) -> nat {
        self.failed@
    }

    /// The figures so far.
    pub closed spec fn stats_spec(&self) -> CleanupStats {
        CleanupStats { entries_removed: self.removed, bytes_freed: self.freed, current_size_bytes: self.current }
    }

    /// What every run keeps: the freed bytes and the remaining size add up
    /// to the total, the remaining size is that of the entries not yet
    /// considered and of those whose removal failed, and no more entries are
    /// removed than considered.
    pub closed spec fn wf(&self) -> bool {
        &&& self.visited@.len() == self.entries@.len()
        &&& self.current + self.freed == total_size(self.entries@)
        &&& total_size(self.entries@) <= u64::MAX
        &&& self.current == unvisited_total(self.entries@, self.visited@) + self.failed@
        &&& self.removed <= visited_count(self.visited@)
    }

    /// `i` is the least recently used entry not yet considered.
    pub open spec fn is_next(&self, i: int) -> bool {
        &&& 0 <= i < self.entries_spec().len()
        &&& !self.visited_spec(i)
        &&& forall|j: int|
            0 <= j < self.entries_spec().len() && !self.visited_spec(j) ==> lru_before(
                self.entries_spec(),
                i,
                j,
            )
    }

    /// Whether every entry has been considered.
    pub open spec fn all_visited(&self) -> bool {
        forall|j: int| 0 <= j < self.entries_spec().len() ==> self.visited_spec(j)
    }

    /// Starts a cleanup of `entries` down to `max_size_bytes`.
    pub fn new(entries: Vec<CacheEntryInfo>, max_size_bytes: u64) -> (r: Self)
        requires
            total_size(entries@) <= u64::MAX,
        ensures
            r.wf(),
            r.entries_spec() == entries@,
            r.limit() == max_size_bytes,
            forall|j: int| 0 <= j < entries@.len() ==> !r.visited_spec(j),
            r.failed_bytes() == 0,
            r.stats_spec() == (CleanupStats {
                entries_removed: 0,
                bytes_freed: 0,
                current_size_bytes: total_size(entries@) as u64,
            }),
    {
        let mut total: u64 = 0;
        let mut visited: Vec<bool> = Vec::new();
        let mut i: usize = 0;
        while i < entries.len()
            invariant
                0 <= i <= entries@.len(),
                total == total_size(entries@.take(i as int)),
                total_size(entries@) <= u64::MAX,
                visited@.len() == i,
                forall|j: int| 0 <= j < i ==> !visited@[j],
            decreases entries@.len() - i,
        {
            assert(entries@.take(i + 1).drop_last() =~= entries@.take(i as int));
            proof {
                lemma_total_size_prefix(entries@, i + 1);
            }
            total = total + entries[i].size;
            visited.push(false);
            i = i + 1;
        }
        assert(entries@.take(entries@.len() as int) =~= entries@);
        proof {
            lemma_unvisited_all(entries@, visited@);
        }
        CleanupRun {
            entries,
            visited,
            max_size_bytes,
            current: total,
            removed: 0,
            freed: 0,
            failed: Ghost(0),
        }
    }

    /// The next entry to remove: the least recently used one not yet
    /// considered, while the cache is over its limit; `None` once it is
    /// within the limit or every entry was considered.
    pub fn next_victim(&self) -> (r: Option<usize>)
        requires
            self.wf(),
        ensures
            self.stats_spec().current_size_bytes <= self.limit() ==> r is None,
            self.stats_spec().current_size_bytes > self.limit() ==> match r {
                Some(i) => self.is_next(i as int),
                None => self.all_visited(),
            },
    {
        if self.current <= self.max_size_bytes {
            return None;
        }
        let mut best: Option<usize> = None;
        let mut i: usize = 0;
        while i < self.entries.len()
            invariant
                self.wf(),
                0 <= i <= self.entries@.len(),
                match best {
                    Some(b) => b < i && !self.visited@[b as int] && forall|j: int|
                        0 <= j < i && !self.visited@[j] ==> lru_before(self.entries@, b as int, j),
                    None => forall|j: int| 0 <= j < i ==> self.visited@[j],
                },
            decreases self.entries@.len() - i,
        {
            if !self.visited[i] {
                match best {
                    Some(b) => {
                        if self.entries[i].accessed_nanos < self.entries[b].accessed_nanos {
                            best = Some(i);
                        }
                    },
                    None => {
                        best = Some(i);
                    },
                }
            }
            i = i + 1;
        }
        best
    }

    /// Records the outcome of removing entry `victim`: when the removal
    /// succeeded, its size is freed from the cache and it counts as removed.
    pub fn record_removal(&mut self, victim: usize, removed_ok: bool)
        requires
            old(self).wf(),
            old(self).is_next(victim as int),
        ensures
            final(self).wf(),
            final(self).entries_spec() == old(self).entries_spec(),
            final(self).limit() == old(self).limit(),
            final(self).visited_spec(victim as int),
            forall|j: int| 0 <= j < old(self).entries_spec().len() && j != victim ==> final(self).visited_spec(j)
                == old(self).visited_spec(j),
            final(self).stats_spec() == (if removed_ok {
                CleanupStats {
                    entries_removed: (old(self).stats_spec().entries_removed + 1) as usize,
                    bytes_freed: (old(self).stats_spec().bytes_freed + old(self).entries_spec()[victim as int].size) as u64,
                    current_size_bytes: (old(self).stats_spec().current_size_bytes - old(self).entries_spec()[victim as int].size) as u64,
                }
            } else {
                old(self).stats_spec()
            }),
            final(self).failed_bytes() == (if removed_ok {
                old(self).failed_bytes()
            } else {
                (old(self).failed_bytes() + old(self).entries_spec()[victim as int].size) as nat
            }),
    {
        proof {
            lemma_unvisited_part(self.entries@, self.visited@, victim as int);
            lemma_unvisited_mark(self.entries@, self.visited@, victim as int);
            lemma_visited_count_mark(self.visited@, victim as int);
        }
        let n = self.visited.len();
        assert(self.removed < n);
        self.visited.set(victim, true);
        if removed_ok {
            let size = self.entries[victim].size;
            self.freed = self.freed + size;
            self.current = self.current - size;
            self.removed = self.removed + 1;
        } else {
            self.failed = Ghost((self.failed@ + self.entries@[victim as int].size) as nat);
        }
    }

    /// The figures so far: entries removed, bytes freed, remaining size.
    pub fn stats(&self) -> (s: CleanupStats)
        ensures
            s == self.stats_spec(),
    {
        CleanupStats { entries_removed: self.removed, bytes_freed: self.freed, current_size_bytes: self.current }
    }
}

/// During a cleanup the bytes freed and the bytes left always add up to the
/// size the cache had when the cleanup started, and no more entries are
/// removed than there are.
pub proof fn lemma_cleanup_accounting(run: CleanupRun)
    requires
        run.wf(),
    ensures
        run.stats_spec().current_size_bytes + run.stats_spec().bytes_freed == total_size(
            run.entries_spec(),
        ),
        run.stats_spec().entries_removed <= run.entries_spec().len(),
{
    lemma_visited_count_bound(run.visited@);
}

/// A cleanup run that has ended (no next victim: the cache is within its
/// limit, or every entry was considered) leaves the cache within its limit,
/// or with exactly the bytes of the entries it failed to remove; so a run in
/// which every removal succeeds ends within the limit or with nothing left.
pub proof fn lemma_cleanup_run_end(run: CleanupRun)
    requires
        run.wf(),
        run.stats_spec().current_size_bytes <= run.limit() || run.all_visited(),
    ensures
        run.stats_spec().current_size_bytes <= run.limit() || run.stats_spec().current_size_bytes
            == run.failed_bytes(),
{
    if run.all_visited() {
        assert forall|j: int| 0 <= j < run.visited@.len() implies run.visited@[j] by {
            assert(run.visited_spec(j));
        }
        lemma_unvisited_none(run.entries@, run.visited@);
    }
}

proof fn lemma_unvisited_none(entries: Seq<CacheEntryInfo>, visited: Seq<bool>)
    requires
        visited.len() == entries.len(),
        forall|j: int| 0 <= j < visited.len() ==> visited[j],
    ensures
        unvisited_total(entries, visited) == 0,
    decreases entries.len(),
{
    if entries.len() > 0 {
        lemma_unvisited_none(entries.drop_last(), visited.drop_last());
    }
}

/// The total size of the entries not yet considered.
pub open spec fn unvisited_total(entries: Seq<CacheEntryInfo>, visited: Seq<bool>) -> nat
    decreases entries.len(),
{
    if entries.len() == 0 {
        0
    } else {
        unvisited_total(entries.drop_last(), visited.drop_last()) + if visited.last() {
            0
        } else {
            entries.last().size as nat
        }
    }
}

/// The number of entries considered.
pub open spec fn visited_count(visited: Seq<bool>) -> nat
    decreases visited.len(),
{
    if visited.len() == 0 {
        0
    } else {
        visited_count(visited.drop_last()) + if visited.last() { 1nat } else { 0nat }
    }
}

proof fn lemma_unvisited_all(entries: Seq<CacheEntryInfo>, visited: Seq<bool>)
    requires
        visited.len() == entries.len(),
        forall|j: int| 0 <= j < visited.len() ==> !visited[j],
    ensures
        unvisited_total(entries, visited) == total_size(entries),
        visited_count(visited) == 0,
    decreases entries.len(),
{
    if entries.len() > 0 {
        lemma_unvisited_all(entries.drop_last(), visited.drop_last());
    }
}

proof fn lemma_unvisited_part(entries: Seq<CacheEntryInfo>, visited: Seq<bool>, i: int)
    requires
        visited.len() == entries.len(),
        0 <= i < entries.len(),
        !visited[i],
    ensures
        entries[i].size <= unvisited_total(entries, visited),
        visited_count(visited) < visited.len(),
    decreases entries.len(),
{
    if i < entries.len() - 1 {
        lemma_unvisited_part(entries.drop_last(), visited.drop_last(), i);
    } else {
        lemma_visited_count_bound(visited.drop_last());
    }
}

proof fn lemma_visited_count_bound(visited: Seq<bool>)
    ensures
        visited_count(visited) <= visited.len(),
    decreases visited.len(),
{
    if visited.len() > 0 {
        lemma_visited_count_bound(visited.drop_last());
    }
}

proof fn lemma_unvisited_mark(entries: Seq<CacheEntryInfo>, visited: Seq<bool>, i: int)
    requires
        visited.len() == entries.len(),
        0 <= i < entries.len(),
        !visited[i],
    ensures
        unvisited_total(entries, visited.update(i, true)) + entries[i].size == unvisited_total(
            entries,
            visited,
        ),
    decreases entries.len(),
{
    let w = visited.update(i, true);
    if i < entries.len() - 1 {
        assert(w.drop_last() =~= visited.drop_last().update(i, true));
        lemma_unvisited_mark(entries.drop_last(), visited.drop_last(), i);
    } else {
        assert(w.drop_last() =~= visited.drop_last());
    }
}

proof fn lemma_visited_count_mark(visited: Seq<bool>, i: int)
    requires
        0 <= i < visited.len(),
        !visited[i],
    ensures
        visited_count(visited.update(i, true)) == visited_count(visited) + 1,
    decreases visited.len(),
{
    let w = visited.update(i, true);
    if i < visited.len() - 1 {
        assert(w.drop_last() =~= visited.drop_last().update(i, true));
        lemma_visited_count_mark(visited.drop_last(), i);
    } else {
        assert(w.drop_last() =~= visited.drop_last());
    }
}

proof fn lemma_total_size_prefix(entries: Seq<CacheEntryInfo>, n: int)
    requires
        0 <= n <= entries.len(),
    ensures
        total_size(entries.take(n)) <= total_size(entries),
    decreases entries.len(),
{
    if n < entries.len() {
        assert(entries.drop_last().take(n) =~= entries.take(n));
        lemma_total_size_prefix(entries.drop_last(), n);
    } else {
        assert(entries.take(n) =~= entries);
    }
}

} // verus!
