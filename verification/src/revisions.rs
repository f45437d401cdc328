//! Revision history of content items: the decisions behind recording a
//! revision, undo, redo and restore, and the laws they obey together.
//!
//! Revisions of an item are numbered from 1 without gaps; the item points at
//! its current revision. Storage happens elsewhere: the functions here decide
//! which revision to go to and what to write.

use vstd::prelude::*;

verus! {

/// Why a revision could not be recorded.
#[derive(Debug, Clone, Copy, PartialEq, Eq, Structural)]
pub enum RevisionError {
    /// The revision counter reached `i32::MAX`.
    LimitReached,
}

/// What to do before recording: whether revision 1 must be created first, and
/// the current revision to continue from.
#[derive(Debug, Clone, Copy, PartialEq, Eq, Structural)]
pub struct RecordStart {
    pub insert_first: bool,
    pub current: i32,
}

/// How to record: drop the revisions after `truncate_after` (if any), then
/// store the new snapshot as revision `next` and point the item at it.
#[derive(Debug, Clone, Copy, PartialEq, Eq, Structural)]
pub struct RecordPlan {
    pub truncate_after: Option<i32>,
    pub next: i32,
}

/// The revision undo goes to: the previous one, or 1 when already there.
pub open spec fn undo_target_spec(current: int) -> int {
    if current <= 1 {
        1
    } else {
        current - 1
    }
}

/// The revision redo goes to: the next one if it exists, else the current one.
pub open spec fn redo_target_spec(current: int, next_exists: bool) -> int {
    if next_exists {
        current + 1
    } else {
        current
    }
}

/// The revision to continue from when recording: 1 if revision 1 had to be
/// created, the current one otherwise.
pub open spec fn record_start_spec(current: int, rev1_exists: bool) -> int {
    if rev1_exists {
        current
    } else {
        1
    }
}

/// The first revision is created when missing, and the pointer then reads at
/// least 1.
pub fn start_initial(current: i32, rev1_exists: bool) -> (r: (bool, bool, i32))
    ensures
        r.0 == !rev1_exists,
        r.1 == (current < 1),
        r.2 == (if current < 1 {
            1
        } else {
            current
        }),
{
    let value = if current < 1 {
        1
    } else {
        current
    };
    (!rev1_exists, current < 1, value)
}

/// The revision undo goes to.
pub fn undo_target(current: i32) -> (r: i32)
    ensures
        r == undo_target_spec(current as int),
{
    if current <= 1 {
        1
    } else {
        current - 1
    }
}

/// The number of the revision after `current`, if it can be represented.
pub fn next_revision(current: i32) -> (r: Option<i32>)
    ensures
        r matches Some(n) ==> n == current + 1,
        r is None <==> current == i32::MAX,
{
    if current < i32::MAX {
        Some(current + 1)
    } else {
        None
    }
}

/// The revision redo goes to, given whether the next revision exists.
pub fn redo_target(current: i32, next_exists: bool) -> (r: i32)
    requires
        current < i32::MAX,
    ensures
        r == redo_target_spec(current as int, next_exists),
{
    if next_exists {
        current + 1
    } else {
        current
    }
}

/// The first step of recording a revision.
pub fn record_start(current: i32, rev1_exists: bool) -> (r: RecordStart)
    ensures
        r.insert_first == !rev1_exists,
        r.current == record_start_spec(current as int, rev1_exists),
{
    if rev1_exists {
        RecordStart { insert_first: false, current }
    } else {
        RecordStart { insert_first: true, current: 1 }
    }
}

/// The second step of recording a revision, given the highest revision number
/// stored: later revisions (undone ones) are dropped and the new one follows the
/// current one.
pub fn record_finish(current: i32, max_rev: i32) -> (r: Result<RecordPlan, RevisionError>)
    ensures
        current == i32::MAX ==> r == Err::<RecordPlan, RevisionError>(RevisionError::LimitReached),
        current < i32::MAX ==> r == Ok::<RecordPlan, RevisionError>(
            RecordPlan {
                truncate_after: if current < max_rev {
                    Some(current)
                } else {
                    None
                },
                next: (current + 1) as i32,
            },
        ),
{
    let truncate_after = if current < max_rev {
        Some(current)
    } else {
        None
    };
    match next_revision(current) {
        Some(next) => Ok(RecordPlan { truncate_after, next }),
        None => Err(RevisionError::LimitReached),
    }
}

/// Number of revisions listed: the requested number (50 by default) clamped to
/// the range 1 to 200.
pub fn revisions_limit(requested: Option<i64>) -> (r: i64)
    ensures
        r == (match requested {
            None => 50,
            Some(n) => if n < 1 {
                1
            } else if n > 200 {
                200
            } else {
                n
            },
        }),
{
    let n = match requested {
        Some(n) => n,
        None => 50,
    };
    if n < 1 {
        1
    } else if n > 200 {
        200
    } else {
        n
    }
}

// ---------------------------------------------------------------------------
// The history model and its laws
// ---------------------------------------------------------------------------

/// The revisions of one item (revision `i` is `revs[i - 1]`) and the revision
/// the item currently shows.
pub struct History<S> {
    pub revs: Seq<S>,
    pub current: int,
}

/// The pointer designates a stored revision.
pub open spec fn history_wf<S>(h: History<S>) -> bool {
    1 <= h.current <= h.revs.len()
}

/// What the item shows.
pub open spec fn shown<S>(h: History<S>) -> S {
    h.revs[h.current - 1]
}

/// Recording `s`: revisions after the current one are dropped and `s` becomes
/// the current revision, numbered one past the current one.
pub open spec fn record<S>(h: History<S>, s: S) -> History<S> {
    History { revs: h.revs.take(h.current).push(s), current: h.current + 1 }
}

/// Undo.
pub open spec fn undo<S>(h: History<S>) -> History<S> {
    History { revs: h.revs, current: undo_target_spec(h.current) }
}

/// Redo.
pub open spec fn redo<S>(h: History<S>) -> History<S> {
    History { revs: h.revs, current: redo_target_spec(h.current, h.current + 1 <= h.revs.len()) }
}

/// Restoring revision `rev`, when it is stored.
pub open spec fn restore<S>(h: History<S>, rev: int) -> History<S> {
    if 1 <= rev <= h.revs.len() {
        History { revs: h.revs, current: rev }
    } else {
        h
    }
}

/// Recording follows the two decision steps: with revision 1 present, it
/// continues from the current revision, keeps the revisions up to it, drops
/// some (the planned truncation) exactly when the current revision is not the
/// last one, and numbers the new revision `current + 1`.
pub proof fn lemma_record_matches_plan<S>(h: History<S>, s: S)
    requires
        history_wf(h),
        h.current < i32::MAX,
    ensures
        record_start_spec(h.current, true) == h.current,
        record(h, s).current == h.current + 1,
        (h.current < h.revs.len()) <==> record(h, s).revs.len() <= h.revs.len(),
        record(h, s).revs.take(h.current) == h.revs.take(h.current),
        record(h, s).revs.len() == h.current + 1,
{
    assert(record(h, s).revs.take(h.current) =~= h.revs.take(h.current));
}

/// Every operation keeps the pointer on a stored revision.
pub proof fn lemma_history_wf_preserved<S>(h: History<S>, s: S, rev: int)
    requires
        history_wf(h),
    ensures
        history_wf(record(h, s)),
        history_wf(undo(h)),
        history_wf(redo(h)),
        history_wf(restore(h, rev)),
{
}

/// The recorded snapshot is what the item shows afterwards.
pub proof fn lemma_record_shows_snapshot<S>(h: History<S>, s: S)
    requires
        history_wf(h),
    ensures
        shown(record(h, s)) == s,
{
}

/// Undo after recording shows again what was shown before recording.
pub proof fn lemma_undo_reverts_record<S>(h: History<S>, s: S)
    requires
        history_wf(h),
    ensures
        shown(undo(record(h, s))) == shown(h),
        undo(record(h, s)).current == h.current,
{
}

/// Redo after undo returns to the revision undone, when there was one to undo.
pub proof fn lemma_redo_reverts_undo<S>(h: History<S>)
    requires
        history_wf(h),
        h.current > 1,
    ensures
        redo(undo(h)) == h,
{
}

/// Undo after redo returns to the revision left, when there was one to redo.
pub proof fn lemma_undo_reverts_redo<S>(h: History<S>)
    requires
        history_wf(h),
        h.current < h.revs.len(),
    ensures
        undo(redo(h)) == h,
{
}

/// Recording discards the redo history: right after recording, redo changes
/// nothing.
pub proof fn lemma_record_clears_redo<S>(h: History<S>, s: S)
    requires
        history_wf(h),
    ensures
        redo(record(h, s)) == record(h, s),
{
}

/// Undo on the first revision and redo on the last change nothing.
pub proof fn lemma_history_ends<S>(h: History<S>)
    requires
        history_wf(h),
    ensures
        h.current == 1 ==> undo(h) == h,
        h.current == h.revs.len() ==> redo(h) == h,
{
}

/// Restoring a stored revision shows it.
pub proof fn lemma_restore_shows_revision<S>(h: History<S>, rev: int)
    requires
        history_wf(h),
        1 <= rev <= h.revs.len(),
    ensures
        shown(restore(h, rev)) == h.revs[rev - 1],
{
}

} // verus!
