//! The queue as a mathematical value, and what each operation does to it.

use vstd::prelude::*;
use crate::progress::Progress;
use crate::queue::item::{QueueItemStatus, QueueItemView};

verus! {

/// The queue as a value: the items in display order, the ids that hold a
/// registration as a running download, and the advisory ceiling on
/// concurrent downloads.
pub struct QueueView {
    pub items: Seq<QueueItemView>,
    pub active: Set<Seq<char>>,
    pub max_concurrent: nat,
}

/// No two items of `items` share an id.
pub open spec fn distinct_ids(items: Seq<QueueItemView>) -> bool {
    forall|i: int, j: int| 0 <= i < j < items.len() ==> items[i].id != items[j].id
}

/// Some item of `items` has the id `id`.
pub open spec fn has_id(items: Seq<QueueItemView>, id: Seq<char>) -> bool {
    exists|i: int| 0 <= i < items.len() && #[trigger] items[i].id == id
}

/// The status that `clear_completed` removes: the download is over, with a
/// file or with an error.
pub open spec fn is_finished(status: QueueItemStatus) -> bool {
    status == QueueItemStatus::Completed || status == QueueItemStatus::Failed
}

/// The ceiling that `set_max_concurrent` stores for a request of `max`.
pub open spec fn clamp_concurrent(max: nat) -> nat {
    if max < 1 {
        1
    } else if max > 5 {
        5
    } else {
        max
    }
}

/// The place an item at `pos` moves to, in a list of `len` items: one later
/// for a positive `direction`, one earlier otherwise, and nowhere at the ends.
pub open spec fn neighbour(pos: int, len: int, direction: int) -> int {
    if direction > 0 {
        if pos + 1 < len {
            pos + 1
        } else {
            pos
        }
    } else {
        if pos > 0 {
            pos - 1
        } else {
            pos
        }
    }
}

impl QueueView {
    /// What the queue keeps true at all times.
    pub open spec fn wf(self) -> bool {
        &&& distinct_ids(self.items)
        &&& forall|i: int| 0 <= i < self.items.len() ==> (#[trigger] self.items[i]).valid()
        &&& self.active.finite()
        &&& 1 <= self.max_concurrent <= 5
    }

    /// The queue holds an item with this id.
    pub open spec fn has_item(self, id: Seq<char>) -> bool {
        has_id(self.items, id)
    }

    /// The position of the item with this id.
    pub open spec fn position(self, id: Seq<char>) -> int
        recommends
            self.has_item(id),
    {
        choose|i: int| 0 <= i < self.items.len() && #[trigger] self.items[i].id == id
    }

    /// The item with this id.
    pub open spec fn item(self, id: Seq<char>) -> QueueItemView
        recommends
            self.has_item(id),
    {
        self.items[self.position(id)]
    }

    /// The download with this id holds a registration: it is running.
    pub open spec fn is_active(self, id: Seq<char>) -> bool {
        self.active.contains(id)
    }

    /// The queue with `change` applied to the item with this id, if there is
    /// one, and nothing else touched.
    pub open spec fn changed(
        self,
        id: Seq<char>,
        change: spec_fn(QueueItemView) -> QueueItemView,
    ) -> QueueView {
        QueueView {
            items: self.items.map_values(
                |i: QueueItemView|
                    if i.id == id {
                        change(i)
                    } else {
                        i
                    },
            ),
            ..self
        }
    }

    /// A fresh queue: no items, nothing running, a ceiling of two.
    pub open spec fn empty() -> QueueView {
        QueueView { items: Seq::empty(), active: Set::empty(), max_concurrent: 2 }
    }

    /// The queue with `item` added at the end.
    pub open spec fn enqueued(self, item: QueueItemView) -> QueueView {
        QueueView { items: self.items.push(item), ..self }
    }

    /// The queue with the item `id` moved to `status`.
    pub open spec fn with_status(self, id: Seq<char>, status: QueueItemStatus) -> QueueView {
        self.changed(id, |i: QueueItemView| i.with_status(status))
    }

    /// The queue after a progress report for the item `id`.
    pub open spec fn with_progress(
        self,
        id: Seq<char>,
        progress: Progress,
        speed: Seq<char>,
        eta: Seq<char>,
    ) -> QueueView {
        self.changed(id, |i: QueueItemView| i.with_progress(progress, speed, eta))
    }

    /// The queue after the download `id` failed with `error`.
    pub open spec fn failed(self, id: Seq<char>, error: Seq<char>) -> QueueView {
        self.changed(id, |i: QueueItemView| i.failed(error))
    }

    /// The queue after the download `id` ended with the file at `file_path`.
    pub open spec fn completed(self, id: Seq<char>, file_path: Seq<char>) -> QueueView {
        self.changed(id, |i: QueueItemView| i.completed(file_path))
    }

    /// The queue with a registration for `id`.
    pub open spec fn registered(self, id: Seq<char>) -> QueueView {
        QueueView { active: self.active.insert(id), ..self }
    }

    /// The queue without a registration for `id`.
    pub open spec fn unregistered(self, id: Seq<char>) -> QueueView {
        QueueView { active: self.active.remove(id), ..self }
    }

    /// The queue after `pause(id)`: a running download loses its
    /// registration and becomes `Paused`; otherwise nothing changes.
    pub open spec fn paused(self, id: Seq<char>) -> QueueView {
        if self.is_active(id) {
            self.unregistered(id).with_status(id, QueueItemStatus::Paused)
        } else {
            self
        }
    }

    /// Whether `resume(id)` applies: the item is there and is `Paused`.
    pub open spec fn can_resume(self, id: Seq<char>) -> bool {
        self.has_item(id) && self.item(id).status == QueueItemStatus::Paused
    }

    /// The queue after `resume(id)`: a paused item becomes `Pending`;
    /// otherwise nothing changes.
    pub open spec fn resumed(self, id: Seq<char>) -> QueueView {
        if self.can_resume(id) {
            self.with_status(id, QueueItemStatus::Pending)
        } else {
            self
        }
    }

    /// The queue after `cancel(id)`: the registration is gone and the item is
    /// `Cancelled`.
    pub open spec fn cancelled(self, id: Seq<char>) -> QueueView {
        self.unregistered(id).with_status(id, QueueItemStatus::Cancelled)
    }

    /// The queue after `remove(id)`: the registration and the item are gone.
    pub open spec fn removed(self, id: Seq<char>) -> QueueView {
        QueueView {
            items: self.items.filter(|i: QueueItemView| i.id != id),
            active: self.active.remove(id),
            ..self
        }
    }

    /// The queue without its completed and failed items.
    pub open spec fn without_finished(self) -> QueueView {
        QueueView { items: self.items.filter(|i: QueueItemView| !is_finished(i.status)), ..self }
    }

    /// The queue after `clear_all`: no items and no registrations.
    pub open spec fn cleared(self) -> QueueView {
        QueueView { items: Seq::empty(), active: Set::empty(), ..self }
    }

    /// The pending items, in display order.
    pub open spec fn pending_items(self) -> Seq<QueueItemView> {
        self.items.filter(|i: QueueItemView| i.status == QueueItemStatus::Pending)
    }

    /// The queue with the item `id` and its neighbour in `direction` having
    /// changed places; unchanged where there is no such item or neighbour.
    pub open spec fn moved(self, id: Seq<char>, direction: int) -> QueueView {
        if self.has_item(id) {
            let pos = self.position(id);
            let to = neighbour(pos, self.items.len() as int, direction);
            QueueView {
                items: self.items.update(pos, self.items[to]).update(to, self.items[pos]),
                ..self
            }
        } else {
            self
        }
    }

    /// The queue with its ceiling set for a request of `max`.
    pub open spec fn with_max_concurrent(self, max: nat) -> QueueView {
        QueueView { max_concurrent: clamp_concurrent(max), ..self }
    }

    /// Whether `start(id)` applies: the item is there and is `Pending` or
    /// `Paused`.
    pub open spec fn can_start(self, id: Seq<char>) -> bool {
        &&& self.has_item(id)
        &&& (self.item(id).status == QueueItemStatus::Pending || self.item(id).status
            == QueueItemStatus::Paused)
    }

    /// The queue after `start(id)` on an item that can start: the item is
    /// `Downloading` and holds a registration.
    pub open spec fn started(self, id: Seq<char>) -> QueueView {
        self.with_status(id, QueueItemStatus::Downloading).registered(id)
    }

    /// The queue after the transfer of `id` ended with a file: if the
    /// download still holds its registration, the registration is released
    /// and the item is completed; if it was paused or cancelled meanwhile,
    /// nothing changes.
    pub open spec fn finished_ok(self, id: Seq<char>, file_path: Seq<char>) -> QueueView {
        if self.is_active(id) {
            self.unregistered(id).completed(id, file_path)
        } else {
            self
        }
    }

    /// The queue after the transfer of `id` ended with an error, under the
    /// same rule as `finished_ok`.
    pub open spec fn finished_err(self, id: Seq<char>, error: Seq<char>) -> QueueView {
        if self.is_active(id) {
            self.unregistered(id).failed(id, error)
        } else {
            self
        }
    }
}

/// The length of the longest id in `items`.
pub open spec fn longest_id(items: Seq<QueueItemView>) -> nat
    decreases items.len(),
{
    if items.len() == 0 {
        0
    } else {
        let rest = longest_id(items.drop_last());
        if items.last().id.len() > rest {
            items.last().id.len()
        } else {
            rest
        }
    }
}

/// `n` hyphens.
pub open spec fn padding(n: nat) -> Seq<char> {
    Seq::new(n, |i: int| '-')
}

/// The id that a new item gets when `candidate` is proposed for it: the
/// candidate itself if no item has it, else the candidate made longer than
/// every id in the list by hyphens at its end.
pub open spec fn unused_id(items: Seq<QueueItemView>, candidate: Seq<char>) -> Seq<char> {
    if has_id(items, candidate) {
        candidate + padding((longest_id(items) + 1 - candidate.len()) as nat)
    } else {
        candidate
    }
}

/// No id in a list is longer than the longest.
pub proof fn longest_id_bounds(items: Seq<QueueItemView>, at: int)
    requires
        0 <= at < items.len(),
    ensures
        items[at].id.len() <= longest_id(items),
    decreases items.len(),
{
    if at < items.len() - 1 {
        longest_id_bounds(items.drop_last(), at);
    }
}

/// The id given to a new item is held by no item of the list.
pub proof fn unused_id_is_unused(items: Seq<QueueItemView>, candidate: Seq<char>)
    ensures
        !has_id(items, unused_id(items, candidate)),
{
    if has_id(items, candidate) {
        let k = choose|k: int| 0 <= k < items.len() && #[trigger] items[k].id == candidate;
        longest_id_bounds(items, k);
        let fresh = unused_id(items, candidate);
        assert(fresh.len() == longest_id(items) + 1);
        assert forall|i: int| 0 <= i < items.len() implies (#[trigger] items[i]).id != fresh by {
            longest_id_bounds(items, i);
        }
    }
}

/// In a list without repeated ids, the position of an id is the one place
/// where it stands.
pub proof fn position_is_unique(q: QueueView, id: Seq<char>, at: int)
    requires
        distinct_ids(q.items),
        0 <= at < q.items.len(),
        q.items[at].id == id,
    ensures
        q.has_item(id),
        q.position(id) == at,
        q.item(id) == q.items[at],
{
    let p = q.position(id);
    if p < at {
        assert(q.items[p].id != q.items[at].id);
    } else if at < p {
        assert(q.items[at].id != q.items[p].id);
    }
}

/// Changing one item keeps the number of items, their ids and their order,
/// and touches no other item.
pub proof fn changed_keeps_ids(
    q: QueueView,
    id: Seq<char>,
    change: spec_fn(QueueItemView) -> QueueItemView,
)
    requires
        forall|i: QueueItemView| (#[trigger] change(i)).id == i.id,
    ensures
        q.changed(id, change).items.len() == q.items.len(),
        forall|k: int|
            0 <= k < q.items.len() ==> (#[trigger] q.changed(id, change).items[k]).id
                == q.items[k].id,
        forall|k: int|
            0 <= k < q.items.len() && q.items[k].id != id ==> #[trigger] q.changed(
                id,
                change,
            ).items[k] == q.items[k],
        distinct_ids(q.items) ==> distinct_ids(q.changed(id, change).items),
        forall|other: Seq<char>| q.changed(id, change).has_item(other) == q.has_item(other),
{
    let after = q.changed(id, change);
    assert forall|other: Seq<char>| after.has_item(other) == q.has_item(other) by {
        if q.has_item(other) {
            let k = q.position(other);
            assert(after.items[k].id == other);
        }
        if after.has_item(other) {
            let k = after.position(other);
            assert(q.items[k].id == other);
        }
    }
}

/// Dropping items from a list keeps what the queue requires of a list: the
/// ids that stay are still distinct, and the items that stay are still valid.
pub proof fn filter_keeps_items_in_order(items: Seq<QueueItemView>, keep: spec_fn(QueueItemView) -> bool)
    requires
        distinct_ids(items),
        forall|i: int| 0 <= i < items.len() ==> (#[trigger] items[i]).valid(),
    ensures
        distinct_ids(items.filter(keep)),
        forall|i: int|
            0 <= i < items.filter(keep).len() ==> (#[trigger] items.filter(keep)[i]).valid(),
        forall|i: int|
            0 <= i < items.filter(keep).len() ==> has_id(items, (#[trigger] items.filter(keep)[i]).id),
    decreases items.len(),
{
    reveal(Seq::filter);
    let kept = items.filter(keep);
    if items.len() > 0 {
        let front = items.drop_last();
        let last = items.last();
        assert forall|i: int| 0 <= i < front.len() implies (#[trigger] front[i]).valid() by {
            assert(front[i] == items[i]);
        }
        assert(distinct_ids(front)) by {
            assert forall|i: int, j: int| 0 <= i < j < front.len() implies front[i].id
                != front[j].id by {
                assert(front[i] == items[i] && front[j] == items[j]);
            }
        }
        filter_keeps_items_in_order(front, keep);
        let inner = front.filter(keep);
        assert forall|i: int| 0 <= i < inner.len() implies has_id(items, (#[trigger] inner[i]).id)
            && inner[i].id != last.id by {
            assert(has_id(front, inner[i].id));
            let k = choose|k: int| 0 <= k < front.len() && #[trigger] front[k].id == inner[i].id;
            assert(items[k].id == inner[i].id);
            assert(items[k].id != items[items.len() - 1].id);
        }
        if keep(last) {
            assert(kept == inner.push(last));
            assert(items[items.len() - 1].id == last.id);
            assert forall|i: int| 0 <= i < kept.len() implies has_id(items, (#[trigger] kept[i]).id)
                && kept[i].valid() by {
                if i < inner.len() {
                    assert(kept[i] == inner[i]);
                } else {
                    assert(kept[i] == last);
                }
            }
            assert forall|i: int, j: int| 0 <= i < j < kept.len() implies kept[i].id
                != kept[j].id by {
                assert(kept[i] == inner[i]);
                if j < inner.len() {
                    assert(kept[j] == inner[j]);
                } else {
                    assert(kept[j] == last);
                }
            }
        } else {
            assert(kept == inner);
        }
    }
}

} // verus!
