//! What holds of the queue operations, whatever the queue and the id.

use vstd::prelude::*;
use crate::queue::item::{QueueItemStatus, QueueItemView};
use crate::queue::model::{QueueView, changed_keeps_ids, distinct_ids, position_is_unique};

verus! {

/// Changing the item `id` of a well-formed queue by a change that keeps ids
/// gives a queue whose item `id` is the changed item.
pub proof fn changed_item(
    q: QueueView,
    id: Seq<char>,
    change: spec_fn(QueueItemView) -> QueueItemView,
)
    requires
        distinct_ids(q.items),
        q.has_item(id),
        forall|i: QueueItemView| (#[trigger] change(i)).id == i.id,
    ensures
        q.changed(id, change).has_item(id),
        q.changed(id, change).item(id) == change(q.item(id)),
{
    let at = q.position(id);
    changed_keeps_ids(q, id, change);
    let after = q.changed(id, change);
    assert(after.items[at] == change(q.items[at]));
    position_is_unique(after, id, at);
}

/// Pausing a running download removes its registration and leaves its item
/// `Paused`; pausing a download that is not running changes nothing.
pub proof fn pause_law(q: QueueView, id: Seq<char>)
    requires
        q.wf(),
    ensures
        q.paused(id).wf(),
        !q.paused(id).is_active(id),
        q.is_active(id) && q.has_item(id) ==> q.paused(id).item(id).status
            == QueueItemStatus::Paused,
        !q.is_active(id) ==> q.paused(id) == q,
{
    if q.is_active(id) {
        let change = |i: QueueItemView| i.with_status(QueueItemStatus::Paused);
        let base = q.unregistered(id);
        changed_keeps_ids(base, id, change);
        if q.has_item(id) {
            changed_item(base, id, change);
        }
        let after = q.paused(id);
        assert forall|k: int| 0 <= k < after.items.len() implies (#[trigger] after.items[k]).valid() by {
            assert(q.items[k].valid());
        }
    }
}

/// Resuming succeeds exactly on a paused item and leaves it `Pending`, never
/// `Downloading`; on any other item, or on none, it changes nothing.
pub proof fn resume_law(q: QueueView, id: Seq<char>)
    requires
        q.wf(),
    ensures
        q.resumed(id).wf(),
        q.can_resume(id) ==> q.resumed(id).item(id).status == QueueItemStatus::Pending,
        !q.can_resume(id) ==> q.resumed(id) == q,
        q.resumed(id).active == q.active,
{
    if q.can_resume(id) {
        let change = |i: QueueItemView| i.with_status(QueueItemStatus::Pending);
        changed_keeps_ids(q, id, change);
        changed_item(q, id, change);
        let after = q.resumed(id);
        assert forall|k: int| 0 <= k < after.items.len() implies (#[trigger] after.items[k]).valid() by {
            assert(q.items[k].valid());
        }
    }
}

/// Cancelling leaves the item `Cancelled` and without a registration,
/// whether or not the download was running.
pub proof fn cancel_law(q: QueueView, id: Seq<char>)
    requires
        q.wf(),
    ensures
        q.cancelled(id).wf(),
        !q.cancelled(id).is_active(id),
        q.has_item(id) ==> q.cancelled(id).item(id).status == QueueItemStatus::Cancelled,
{
    let change = |i: QueueItemView| i.with_status(QueueItemStatus::Cancelled);
    let base = q.unregistered(id);
    changed_keeps_ids(base, id, change);
    if q.has_item(id) {
        changed_item(base, id, change);
    }
    let after = q.cancelled(id);
    assert forall|k: int| 0 <= k < after.items.len() implies (#[trigger] after.items[k]).valid() by {
        assert(q.items[k].valid());
    }
}

/// An item that is added, started and then completed ends `Completed`, with
/// the file path set, without an error and without a registration.
pub proof fn round_trip_law(q: QueueView, item: QueueItemView, file_path: Seq<char>)
    requires
        q.wf(),
        !q.has_item(item.id),
        item == QueueItemView::pending(
            item.id,
            item.url,
            item.title,
            item.thumbnail,
            item.quality,
            item.output_dir,
            item.output_filename,
            item.added_at,
        ),
    ensures
        ({
            let added = q.enqueued(item);
            let started = added.started(item.id);
            let done = started.finished_ok(item.id, file_path);
            &&& added.wf() && started.wf() && done.wf()
            &&& added.can_start(item.id)
            &&& started.item(item.id).status == QueueItemStatus::Downloading
            &&& started.is_active(item.id)
            &&& done.item(item.id).status == QueueItemStatus::Completed
            &&& done.item(item.id).file_path == Some(file_path)
            &&& done.item(item.id).error is None
            &&& !done.is_active(item.id)
        }),
{
    let id = item.id;
    let added = q.enqueued(item);
    let at = q.items.len() as int;
    assert(added.items[at] == item);
    assert(distinct_ids(added.items)) by {
        assert forall|i: int, j: int| 0 <= i < j < added.items.len() implies added.items[i].id
            != added.items[j].id by {
            assert(added.items[i] == q.items[i]);
            if j < at {
                assert(added.items[j] == q.items[j]);
            }
        }
    }
    assert forall|k: int| 0 <= k < added.items.len() implies (#[trigger] added.items[k]).valid() by {
        if k < at {
            assert(added.items[k] == q.items[k]);
        }
    }
    position_is_unique(added, id, at);

    let go = |i: QueueItemView| i.with_status(QueueItemStatus::Downloading);
    let running = added.with_status(id, QueueItemStatus::Downloading);
    changed_keeps_ids(added, id, go);
    changed_item(added, id, go);
    let started = added.started(id);
    assert(started.items == running.items);
    assert forall|k: int| 0 <= k < started.items.len() implies (#[trigger] started.items[k]).valid() by {
        assert(added.items[k].valid());
    }
    assert(started.has_item(id) && started.item(id) == running.item(id));

    let finish = |i: QueueItemView| i.completed(file_path);
    let base = started.unregistered(id);
    changed_keeps_ids(base, id, finish);
    assert(base.has_item(id) && base.item(id) == started.item(id));
    changed_item(base, id, finish);
    let done = started.finished_ok(id, file_path);
    assert forall|k: int| 0 <= k < done.items.len() implies (#[trigger] done.items[k]).valid() by {
        assert(started.items[k].valid());
    }
}

/// Once a download has lost its registration, by a pause or a cancel, the
/// end of its transfer no longer changes the queue: its status is not
/// overwritten.
pub proof fn outcome_after_cancel_is_dropped(q: QueueView, id: Seq<char>, file_path: Seq<char>, error: Seq<char>)
    requires
        q.wf(),
    ensures
        q.paused(id).finished_ok(id, file_path) == q.paused(id),
        q.paused(id).finished_err(id, error) == q.paused(id),
        q.cancelled(id).finished_ok(id, file_path) == q.cancelled(id),
        q.cancelled(id).finished_err(id, error) == q.cancelled(id),
{
    pause_law(q, id);
    cancel_law(q, id);
}

/// Clearing the queue leaves no item and no registration.
pub proof fn clear_all_law(q: QueueView)
    requires
        q.wf(),
    ensures
        q.cleared().wf(),
        q.cleared().items.len() == 0,
        forall|id: Seq<char>| !q.cleared().is_active(id),
{
}

/// While an item is downloading, a progress report never sets its recorded
/// progress back, and the item stays valid.
pub proof fn progress_law(
    item: QueueItemView,
    progress: crate::progress::Progress,
    speed: Seq<char>,
    eta: Seq<char>,
)
    requires
        item.valid(),
        progress.wf(),
    ensures
        item.with_progress(progress, speed, eta).valid(),
        item.status == QueueItemStatus::Downloading ==> item.progress.at_most(
            item.with_progress(progress, speed, eta).progress,
        ),
{
    crate::progress::at_most_is_an_order(item.progress, progress, progress);
}

} // verus!
