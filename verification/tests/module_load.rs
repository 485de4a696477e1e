//! Tests of the module load steps.

use mik::runtime::module_load::{load_start, load_step, LoadAction, LoadEvent, LoadPhase};

fn run(bypass: bool, events: &[LoadEvent]) -> Vec<LoadAction> {
    let (mut state, first) = load_start(bypass);
    let mut actions = vec![first];
    for e in events {
        let (next, action) = load_step(state, *e);
        state = next;
        actions.push(action);
    }
    actions
}

#[test]
fn cache_hit_returns_the_cached_component() {
    assert_eq!(
        run(false, &[LoadEvent::Cached(true)]),
        vec![LoadAction::LookUpCache, LoadAction::ReturnCached]
    );
}

#[test]
fn missing_module_is_not_found() {
    assert_eq!(
        run(false, &[LoadEvent::Cached(false), LoadEvent::Exists(false)]),
        vec![LoadAction::LookUpCache, LoadAction::CheckExists, LoadAction::NotFound]
    );
}

#[test]
fn fresh_compile_is_stored_then_cached_by_size() {
    let events = [
        LoadEvent::Cached(false),
        LoadEvent::Exists(true),
        LoadEvent::Read { size_bytes: 2000, ok: true },
        LoadEvent::AotFound(false),
        LoadEvent::Compiled(true),
        LoadEvent::Serialized(true),
        LoadEvent::Stored,
    ];
    assert_eq!(
        run(false, &events),
        vec![
            LoadAction::LookUpCache,
            LoadAction::CheckExists,
            LoadAction::ReadFile,
            LoadAction::LookUpAot,
            LoadAction::Compile,
            LoadAction::Serialize,
            LoadAction::StoreAot,
            LoadAction::CacheAndReturn { weight: 2000 },
        ]
    );
}

#[test]
fn bypass_mode_skips_the_aot_store() {
    let events = [
        LoadEvent::Cached(false),
        LoadEvent::Exists(true),
        LoadEvent::Read { size_bytes: 5_000_000_000, ok: true },
        LoadEvent::AotFound(false),
        LoadEvent::Compiled(true),
    ];
    assert_eq!(
        run(true, &events).last(),
        Some(&LoadAction::CacheAndReturn { weight: u32::MAX })
    );
}

#[test]
fn stale_artifact_is_removed_and_recompiled() {
    let events = [
        LoadEvent::Cached(false),
        LoadEvent::Exists(true),
        LoadEvent::Read { size_bytes: 10, ok: true },
        LoadEvent::AotFound(true),
        LoadEvent::Deserialized(false),
        LoadEvent::Compiled(false),
    ];
    assert_eq!(
        run(false, &events)[4..].to_vec(),
        vec![LoadAction::Deserialize, LoadAction::RemoveStaleAndCompile, LoadAction::LoadFailed]
    );
}

#[test]
fn unread_file_fails_and_later_events_are_ignored() {
    let (s, _) = load_start(false);
    let (s, _) = load_step(s, LoadEvent::Cached(false));
    let (s, _) = load_step(s, LoadEvent::Exists(true));
    let (s, a) = load_step(s, LoadEvent::Read { size_bytes: 0, ok: false });
    assert_eq!(a, LoadAction::ReadFailed);
    assert_eq!(s.phase, LoadPhase::Finished);
    let (same, ignored) = load_step(s, LoadEvent::Compiled(true));
    assert_eq!(ignored, LoadAction::Ignore);
    assert_eq!(same, s);
}
