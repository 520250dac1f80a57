//! The record that the version-tracked views keep across frames, and the
//! rules by which a frame decides to rebuild.
use vstd::prelude::*;

verus! {

/// What a version-tracked view remembers between frames: the version of its
/// data at the last rebuild, and whether a child has asked for a rebuild
/// since.
pub struct Tracking {
    pub last_version: u64,
    pub dirty: bool,
}

/// The record right after a view was built from data at `version`.
pub open spec fn tracking_after_build(version: u64) -> Tracking {
    Tracking { last_version: version, dirty: false }
}

/// Whether a frame rebuilds: a child asked for it, the view now reads a
/// signal other than the one it was built from, or the version differs from
/// the one recorded at the last rebuild.
pub open spec fn rebuild_due(t: Tracking, same_source: bool, current_version: u64) -> bool {
    t.dirty || !same_source || t.last_version != current_version
}

/// The record after a frame's check: the request is consumed, and the
/// current version is recorded when the frame rebuilds.
pub open spec fn tracking_after_check(t: Tracking, same_source: bool, current_version: u64) -> Tracking {
    Tracking {
        last_version: if rebuild_due(t, same_source, current_version) {
            current_version
        } else {
            t.last_version
        },
        dirty: false,
    }
}

/// The record after a child answered a message; `requested` is whether the
/// answer asked for a rebuild.
pub open spec fn tracking_after_message(t: Tracking, requested: bool) -> Tracking {
    Tracking { last_version: t.last_version, dirty: t.dirty || requested }
}

/// One frame's check on the record held as `last_version` and `dirty`:
/// returns the version to record and whether to rebuild.
pub(crate) fn check_versions(last_version: u64, dirty: bool, same_source: bool, current_version: u64) -> (r: (u64, bool))
    ensures
        r.0 == tracking_after_check(Tracking { last_version, dirty }, same_source, current_version).last_version,
        r.1 == rebuild_due(Tracking { last_version, dirty }, same_source, current_version),
{
    if dirty || !same_source || last_version != current_version {
        (current_version, true)
    } else {
        (last_version, false)
    }
}

/// A view that was just built from data at some version does not rebuild in
/// a frame that sees the same signal at the same version.
pub proof fn lemma_fresh_view_is_kept(version: u64)
    ensures
        !rebuild_due(tracking_after_build(version), true, version),
{
}

/// With the same signal and no pending request, a frame rebuilds exactly
/// when the version changed since the last rebuild.
pub proof fn lemma_rebuild_iff_version_changed(t: Tracking, current_version: u64)
    requires
        !t.dirty,
    ensures
        rebuild_due(t, true, current_version) <==> t.last_version != current_version,
{
}

/// A pending request forces the next frame to rebuild, whatever the version
/// and whether or not the signal was replaced.
pub proof fn lemma_request_forces_rebuild(t: Tracking, same_source: bool, current_version: u64)
    ensures
        rebuild_due(tracking_after_message(t, true), same_source, current_version),
{
}

/// A message answer that does not ask for a rebuild leaves the record as it
/// was.
pub proof fn lemma_plain_answer_keeps_record(t: Tracking)
    ensures
        tracking_after_message(t, false) == t,
{
}

/// A frame consumes any pending request, and a frame that rebuilds records
/// the version it saw, however many times the signal was set before.
pub proof fn lemma_check_records_current(t: Tracking, same_source: bool, current_version: u64)
    ensures
        !tracking_after_check(t, same_source, current_version).dirty,
        rebuild_due(t, same_source, current_version) ==>
            tracking_after_check(t, same_source, current_version).last_version == current_version,
{
}

/// Once a frame has checked, a following frame on the same signal at the
/// same version, with no message in between, does not rebuild again.
pub proof fn lemma_second_check_is_quiet(t: Tracking, same_source: bool, current_version: u64)
    ensures
        !rebuild_due(tracking_after_check(t, same_source, current_version), true, current_version),
{
}

/// A frame whose signal was replaced by another always rebuilds, whatever
/// the versions of the two signals.
pub proof fn lemma_replaced_signal_rebuilds(t: Tracking, current_version: u64)
    ensures
        rebuild_due(t, false, current_version),
{
}

} // verus!
