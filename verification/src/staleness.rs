//! The staleness oracle: decides, from modification times alone, whether a
//! source unit's object artifact must be regenerated.
//!
//! Policy (documented here once, relied on everywhere): an object that is
//! missing or whose modification time cannot be read is rebuilt; a source
//! whose modification time is unknown is always rebuilt; equal timestamps
//! count as up to date.

use vstd::prelude::*;

verus! {

/// A source unit is stale - its object must be rebuilt - unless both
/// modification times are known and the source is not newer than the object.
pub open spec fn is_stale(src_modified: Option<u64>, obj_modified: Option<u64>) -> bool {
    match (src_modified, obj_modified) {
        (Some(s), Some(o)) => s > o,
        _ => true,
    }
}

/// Decides whether the object artifact at hand must be regenerated.
/// `src_modified` is the source unit's modification time; `obj_modified` is
/// the object file's, with `None` standing for a missing object or an
/// unreadable timestamp.
pub fn need_recompile(src_modified: Option<u64>, obj_modified: Option<u64>) -> (stale: bool)
    ensures
        stale == is_stale(src_modified, obj_modified),
{
    match (src_modified, obj_modified) {
        (Some(s), Some(o)) => s > o,
        _ => true,
    }
}

/// Staleness idempotence: an object artifact strictly newer than its source
/// is never recompiled. A cache hit reports the object's on-disk timestamp
/// unchanged, so every following run over unmodified sources sees the same
/// pair and reuses the artifact again.
pub proof fn lemma_staleness_idempotent(src_m: u64, obj_m: u64)
    requires
        src_m < obj_m,
    ensures
        !is_stale(Some(src_m), Some(obj_m)),
{
}

/// Cache invalidation: re-writing a source so that its modification time
/// passes its object's forces that unit to be recompiled on the next run.
pub proof fn lemma_touch_invalidates(src_m: u64, obj_m: u64)
    requires
        src_m > obj_m,
    ensures
        is_stale(Some(src_m), Some(obj_m)),
{
}

} // verus!
