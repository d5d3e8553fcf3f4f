use cxon::need_recompile;

#[test]
fn object_newer_than_source_is_reused() {
    // Staleness idempotence: strictly newer object => cache hit.
    assert!(!need_recompile(Some(5), Some(10)));
}

#[test]
fn repeated_runs_keep_reusing() {
    // The decision depends on the timestamps alone, and a cache hit changes
    // neither, so every repeated run decides the same way.
    for _ in 0..3 {
        assert!(!need_recompile(Some(5), Some(10)));
    }
}

#[test]
fn touching_source_forces_recompile() {
    // Cache invalidation: source advanced past the object => recompile.
    assert!(!need_recompile(Some(7), Some(10)));
    assert!(need_recompile(Some(11), Some(10)));
}

#[test]
fn equal_timestamps_are_up_to_date() {
    assert!(!need_recompile(Some(10), Some(10)));
}

#[test]
fn missing_object_is_stale() {
    assert!(need_recompile(Some(5), None));
}

#[test]
fn unknown_source_time_is_stale() {
    assert!(need_recompile(None, Some(10)));
    assert!(need_recompile(None, None));
}
