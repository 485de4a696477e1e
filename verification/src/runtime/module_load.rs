//! The steps of loading a module by name, as a state machine.
//!
//! A load first looks the (validated) name up in the module cache; on a miss
//! it checks that the module file exists, reads it, tries the AOT cache,
//! compiles when that gives nothing usable, stores the compiled artifact in
//! the AOT cache unless it is bypassed, and finally puts the component in
//! the module cache, weighed by the file's size. The caller performs each
//! action (they touch the disk and the compiler) and hands back what came of
//! it as the next event.

use crate::runtime::module_loader::cache_weight;
use vstd::prelude::*;

verus! {

/// Where a load stands: the answer it waits for next.
#[derive(Debug, Clone, Copy, PartialEq, Eq, Structural)]
pub enum LoadPhase {
    /// Waiting for the module cache lookup.
    CacheLookup,
    /// Waiting to learn whether the module file exists.
    ExistsCheck,
    /// Waiting for the file's size and bytes.
    Reading,
    /// Waiting for the AOT cache lookup.
    AotLookup,
    /// Waiting for the cached artifact to be deserialized.
    Deserializing,
    /// Waiting for the component to compile.
    Compiling,
    /// Waiting for the compiled component to be serialized.
    Serializing,
    /// Waiting for the artifact to be stored in the AOT cache.
    Storing,
    /// The load is over.
    Finished,
}

/// The state of a load: its phase, the module file's size once known, and
/// whether the AOT cache is bypassed.
#[derive(Debug, Clone, Copy, PartialEq, Eq, Structural)]
pub struct LoadState {
    /// What the load waits for.
    pub phase: LoadPhase,
    /// The module file's size in bytes (0 until read, or when unknown).
    pub size_bytes: usize,
    /// Whether the AOT cache is bypassed (hot-reload mode).
    pub bypass: bool,
}

/// What came of the last action.
#[derive(Debug, Clone, Copy, PartialEq, Eq, Structural)]
pub enum LoadEvent {
    /// The module cache lookup: whether the module was there.
    Cached(bool),
    /// Whether the module file exists.
    Exists(bool),
    /// The file's size (0 when its metadata could not be read) and whether
    /// its bytes were read.
    Read { size_bytes: usize, ok: bool },
    /// Whether the AOT cache holds an artifact for the bytes.
    AotFound(bool),
    /// Whether the cached artifact deserialized.
    Deserialized(bool),
    /// Whether the bytes compiled.
    Compiled(bool),
    /// Whether the component serialized.
    Serialized(bool),
    /// The artifact store finished (its outcome does not matter).
    Stored,
}

/// What the caller does next.
#[derive(Debug, Clone, Copy, PartialEq, Eq, Structural)]
pub enum LoadAction {
    /// Look the name up in the module cache.
    LookUpCache,
    /// Check whether the module file exists.
    CheckExists,
    /// Read the file's size and bytes.
    ReadFile,
    /// Look the bytes up in the AOT cache.
    LookUpAot,
    /// Deserialize the cached artifact.
    Deserialize,
    /// Remove the unusable cached artifact, then compile the bytes.
    RemoveStaleAndCompile,
    /// Compile the bytes.
    Compile,
    /// Serialize the compiled component for the AOT cache.
    Serialize,
    /// Store the serialized artifact in the AOT cache.
    StoreAot,
    /// Put the component in the module cache with this weight and return it.
    CacheAndReturn { weight: u32 },
    /// Return the component found in the module cache.
    ReturnCached,
    /// Fail: the module does not exist.
    NotFound,
    /// Fail: the module file could not be read.
    ReadFailed,
    /// Fail: the module could not be compiled.
    LoadFailed,
    /// The event does not belong to this phase: nothing to do.
    Ignore,
}

/// The weight a cached module gets: its size, at most `u32::MAX`.
pub open spec fn weight_of(size_bytes: usize) -> u32 {
    if size_bytes > u32::MAX {
        u32::MAX
    } else {
        size_bytes as u32
    }
}

/// The phase and action after a compiled (or deserialized) component is
/// ready: serialize it for the AOT cache unless that is bypassed, else
/// cache it and return it.
pub open spec fn after_component(s: LoadState) -> (LoadState, LoadAction) {
    if s.bypass {
        (
            LoadState { phase: LoadPhase::Finished, ..s },
            LoadAction::CacheAndReturn { weight: weight_of(s.size_bytes) },
        )
    } else {
        (LoadState { phase: LoadPhase::Serializing, ..s }, LoadAction::Serialize)
    }
}

/// The next state and action of a load, given its state and the event.
pub open spec fn load_next(s: LoadState, e: LoadEvent) -> (LoadState, LoadAction) {
    let finish = |a: LoadAction| (LoadState { phase: LoadPhase::Finished, ..s }, a);
    let cache_it = LoadAction::CacheAndReturn { weight: weight_of(s.size_bytes) };
    match (s.phase, e) {
        (LoadPhase::CacheLookup, LoadEvent::Cached(hit)) => if hit {
            finish(LoadAction::ReturnCached)
        } else {
            (LoadState { phase: LoadPhase::ExistsCheck, ..s }, LoadAction::CheckExists)
        },
        (LoadPhase::ExistsCheck, LoadEvent::Exists(found)) => if found {
            (LoadState { phase: LoadPhase::Reading, ..s }, LoadAction::ReadFile)
        } else {
            finish(LoadAction::NotFound)
        },
        (LoadPhase::Reading, LoadEvent::Read { size_bytes, ok }) => if ok {
            (LoadState { phase: LoadPhase::AotLookup, size_bytes, ..s }, LoadAction::LookUpAot)
        } else {
            (LoadState { phase: LoadPhase::Finished, size_bytes, ..s }, LoadAction::ReadFailed)
        },
        (LoadPhase::AotLookup, LoadEvent::AotFound(found)) => if found {
            (LoadState { phase: LoadPhase::Deserializing, ..s }, LoadAction::Deserialize)
        } else {
            (LoadState { phase: LoadPhase::Compiling, ..s }, LoadAction::Compile)
        },
        (LoadPhase::Deserializing, LoadEvent::Deserialized(ok)) => if ok {
            finish(cache_it)
        } else {
            (LoadState { phase: LoadPhase::Compiling, ..s }, LoadAction::RemoveStaleAndCompile)
        },
        (LoadPhase::Compiling, LoadEvent::Compiled(ok)) => if ok {
            after_component(s)
        } else {
            finish(LoadAction::LoadFailed)
        },
        (LoadPhase::Serializing, LoadEvent::Serialized(ok)) => if ok {
            (LoadState { phase: LoadPhase::Storing, ..s }, LoadAction::StoreAot)
        } else {
            finish(cache_it)
        },
        (LoadPhase::Storing, LoadEvent::Stored) => finish(cache_it),
        _ => (s, LoadAction::Ignore),
    }
}

/// The start of a load of a validated name: look it up in the module cache.
pub fn load_start(bypass: bool) -> (r: (LoadState, LoadAction))
    ensures
        r.0 == (LoadState { phase: LoadPhase::CacheLookup, size_bytes: 0, bypass }),
        r.1 == LoadAction::LookUpCache,
{
    (LoadState { phase: LoadPhase::CacheLookup, size_bytes: 0, bypass }, LoadAction::LookUpCache)
}

/// One step of a load: the next state and the action to perform.
pub fn load_step(s: LoadState, e: LoadEvent) -> (r: (LoadState, LoadAction))
    ensures
        r == load_next(s, e),
{
    let finished = LoadState { phase: LoadPhase::Finished, ..s };
    match (s.phase, e) {
        (LoadPhase::CacheLookup, LoadEvent::Cached(hit)) => {
            if hit {
                (finished, LoadAction::ReturnCached)
            } else {
                (LoadState { phase: LoadPhase::ExistsCheck, ..s }, LoadAction::CheckExists)
            }
        },
        (LoadPhase::ExistsCheck, LoadEvent::Exists(found)) => {
            if found {
                (LoadState { phase: LoadPhase::Reading, ..s }, LoadAction::ReadFile)
            } else {
                (finished, LoadAction::NotFound)
            }
        },
        (LoadPhase::Reading, LoadEvent::Read { size_bytes, ok }) => {
            if ok {
                (LoadState { phase: LoadPhase::AotLookup, size_bytes, ..s }, LoadAction::LookUpAot)
            } else {
                (LoadState { phase: LoadPhase::Finished, size_bytes, ..s }, LoadAction::ReadFailed)
            }
        },
        (LoadPhase::AotLookup, LoadEvent::AotFound(found)) => {
            if found {
                (LoadState { phase: LoadPhase::Deserializing, ..s }, LoadAction::Deserialize)
            } else {
                (LoadState { phase: LoadPhase::Compiling, ..s }, LoadAction::Compile)
            }
        },
        (LoadPhase::Deserializing, LoadEvent::Deserialized(ok)) => {
            if ok {
                (finished, LoadAction::CacheAndReturn { weight: cache_weight(s.size_bytes) })
            } else {
                (LoadState { phase: LoadPhase::Compiling, ..s }, LoadAction::RemoveStaleAndCompile)
            }
        },
        (LoadPhase::Compiling, LoadEvent::Compiled(ok)) => {
            if !ok {
                (finished, LoadAction::LoadFailed)
            } else if s.bypass {
                (finished, LoadAction::CacheAndReturn { weight: cache_weight(s.size_bytes) })
            } else {
                (LoadState { phase: LoadPhase::Serializing, ..s }, LoadAction::Serialize)
            }
        },
        (LoadPhase::Serializing, LoadEvent::Serialized(ok)) => {
            if ok {
                (LoadState { phase: LoadPhase::Storing, ..s }, LoadAction::StoreAot)
            } else {
                (finished, LoadAction::CacheAndReturn { weight: cache_weight(s.size_bytes) })
            }
        },
        (LoadPhase::Storing, LoadEvent::Stored) => {
            (finished, LoadAction::CacheAndReturn { weight: cache_weight(s.size_bytes) })
        },
        _ => (s, LoadAction::Ignore),
    }
}

/// A load in bypass mode never writes to the AOT cache: no step asks to
/// serialize or store an artifact.
pub proof fn lemma_bypass_never_stores(s: LoadState, e: LoadEvent)
    requires
        s.bypass,
        s.phase != LoadPhase::Serializing,
    ensures
        load_next(s, e).1 != LoadAction::Serialize,
        load_next(s, e).1 != LoadAction::StoreAot,
        load_next(s, e).0.bypass,
        load_next(s, e).0.phase != LoadPhase::Serializing,
{
}

/// A finished load stays finished: every later event is ignored.
pub proof fn lemma_finished_is_final(s: LoadState, e: LoadEvent)
    requires
        s.phase == LoadPhase::Finished,
    ensures
        load_next(s, e) == (s, LoadAction::Ignore),
{
}

/// A module put in the cache is weighed by its file's size, capped at
/// `u32::MAX`.
pub proof fn lemma_cached_weight(s: LoadState, e: LoadEvent)
    ensures
        load_next(s, e).1 matches LoadAction::CacheAndReturn { weight } ==> weight == weight_of(
            load_next(s, e).0.size_bytes,
        ),
{
}

/// A load reports a failure only on a failing answer: `NotFound` only when
/// the file does not exist, `ReadFailed` only when it could not be read, and
/// `LoadFailed` only when compiling failed. In particular a cached artifact
/// that deserializes never makes a load fail.
pub proof fn lemma_failures_have_causes(s: LoadState, e: LoadEvent)
    ensures
        load_next(s, e).1 == LoadAction::NotFound ==> s.phase == LoadPhase::ExistsCheck && e
            == LoadEvent::Exists(false),
        load_next(s, e).1 == LoadAction::ReadFailed ==> s.phase == LoadPhase::Reading && e matches LoadEvent::Read { ok: false, .. },
        load_next(s, e).1 == LoadAction::LoadFailed ==> s.phase == LoadPhase::Compiling && e
            == LoadEvent::Compiled(false),
{
}

/// A component that is ready (a cached artifact deserialized, a stored
/// artifact, or a compilation in bypass mode) ends the load: it is put in
/// the module cache, weighed by the module file's size, and returned.
pub proof fn lemma_ready_component_is_returned(s: LoadState, e: LoadEvent)
    requires
        (s.phase == LoadPhase::Deserializing && e == LoadEvent::Deserialized(true)) || (s.phase
            == LoadPhase::Storing && e == LoadEvent::Stored) || (s.phase == LoadPhase::Compiling
            && s.bypass && e == LoadEvent::Compiled(true)),
    ensures
        load_next(s, e).0.phase == LoadPhase::Finished,
        load_next(s, e).0.size_bytes == s.size_bytes,
        load_next(s, e).1 == (LoadAction::CacheAndReturn { weight: weight_of(s.size_bytes) }),
{
}

/// Only loads that got a component return one: a load that ends by caching
/// and returning a component got it from the AOT cache, from a store, or
/// from a compilation (bypassed, or whose serialization failed).
pub proof fn lemma_returned_component_was_made(s: LoadState, e: LoadEvent)
    requires
        load_next(s, e).1 matches LoadAction::CacheAndReturn { .. },
    ensures
        (s.phase == LoadPhase::Deserializing && e == LoadEvent::Deserialized(true)) || (s.phase
            == LoadPhase::Storing && e == LoadEvent::Stored) || (s.phase == LoadPhase::Compiling
            && s.bypass && e == LoadEvent::Compiled(true)) || (s.phase == LoadPhase::Serializing
            && e == LoadEvent::Serialized(false)),
{
}

/// Every step leaves the load waiting for the answer to the action it
/// hands out: a request for the file waits for its existence, a read for
/// the bytes, and so on; an action that ends the load finishes it.
pub proof fn lemma_phase_awaits_action(s: LoadState, e: LoadEvent)
    requires
        s.phase != LoadPhase::Finished,
        load_next(s, e).1 != LoadAction::Ignore,
    ensures
        ({
            let (n, a) = load_next(s, e);
            &&& a == LoadAction::CheckExists ==> n.phase == LoadPhase::ExistsCheck
            &&& a == LoadAction::ReadFile ==> n.phase == LoadPhase::Reading
            &&& a == LoadAction::LookUpAot ==> n.phase == LoadPhase::AotLookup
            &&& a == LoadAction::Deserialize ==> n.phase == LoadPhase::Deserializing
            &&& (a == LoadAction::Compile || a == LoadAction::RemoveStaleAndCompile) ==> n.phase
                == LoadPhase::Compiling
            &&& a == LoadAction::Serialize ==> n.phase == LoadPhase::Serializing
            &&& a == LoadAction::StoreAot ==> n.phase == LoadPhase::Storing
            &&& (a == LoadAction::ReturnCached || a == LoadAction::NotFound || a
                == LoadAction::ReadFailed || a == LoadAction::LoadFailed || a is CacheAndReturn)
                ==> n.phase == LoadPhase::Finished
            &&& n.bypass == s.bypass
        }),
{
}

/// Outside bypass mode a freshly compiled component goes to the AOT cache:
/// it is serialized before the load returns it.
pub proof fn lemma_compiled_component_is_stored(s: LoadState)
    requires
        s.phase == LoadPhase::Compiling,
        !s.bypass,
    ensures
        load_next(s, LoadEvent::Compiled(true)) == (LoadState { phase: LoadPhase::Serializing, ..s }, LoadAction::Serialize),
{
}

/// A module found in the module cache is returned at once; a miss goes on
/// to the module file.
pub proof fn lemma_cache_hit_short_circuits(s: LoadState, hit: bool)
    requires
        s.phase == LoadPhase::CacheLookup,
    ensures
        hit ==> load_next(s, LoadEvent::Cached(hit)).1 == LoadAction::ReturnCached,
        !hit ==> load_next(s, LoadEvent::Cached(hit)).1 == LoadAction::CheckExists,
{
}

} // verus!
