//! The download queue: the list of jobs and the registrations of the running
//! ones.
//!
//! The queue owns its items. Every change goes through one of its
//! operations, and each operation says what it does to the queue seen as a
//! [`QueueView`].

pub mod item;
pub mod laws;
pub mod model;
pub mod signal;

use vstd::prelude::*;
use tokio::sync::oneshot::{Receiver, Sender};
use vstd::string::*;
use crate::error::DownloaderError;
use crate::progress::Progress;
use crate::text::{contains_text, join_text, last_word, str_contains, str_last_word};
use crate::queue::signal::{fire, new_signal, now_rfc3339, random_id};

pub use crate::queue::item::{QueueItem, QueueItemStatus, QueueItemView, QueueProgress, QueueProgressView};
pub use crate::queue::model::{
    QueueView, clamp_concurrent, distinct_ids, has_id, is_finished, longest_id, neighbour, padding,
    unused_id,
};

verus! {

/// The cancellation signal held for one running download.
struct Registration {
    id: String,
    signal: Sender<()>,
}

/// The queue of downloads.
pub struct DownloadQueue {
    items: Vec<QueueItem>,
    active: Vec<Registration>,
    max_concurrent: usize,
}

/// The items of a list, each as its view.
pub open spec fn item_views(items: Seq<QueueItem>) -> Seq<QueueItemView> {
    items.map_values(|i: QueueItem| i@)
}

spec fn registered_ids(active: Seq<Registration>) -> Seq<Seq<char>> {
    active.map_values(|r: Registration| r.id@)
}

impl View for DownloadQueue {
    type V = QueueView;

    closed spec fn view(&self) -> QueueView {
        QueueView {
            items: item_views(self.items@),
            active: registered_ids(self.active@).to_set(),
            max_concurrent: self.max_concurrent as nat,
        }
    }
}

impl DownloadQueue {
    /// The queue is in order: its view is well formed, and no id holds two
    /// registrations.
    pub closed spec fn wf(&self) -> bool {
        &&& self@.wf()
        &&& registered_ids(self.active@).no_duplicates()
    }

    /// A well-formed queue has a well-formed view.
    pub proof fn wf_view(&self)
        requires
            self.wf(),
        ensures
            self@.wf(),
    {
    }

    /// An empty queue with a ceiling of two concurrent downloads.
    pub fn new() -> (queue: DownloadQueue)
        ensures
            queue.wf(),
            queue@ == QueueView::empty(),
    {
        let queue = DownloadQueue { items: Vec::new(), active: Vec::new(), max_concurrent: 2 };
        assert(queue@.items =~= Seq::empty());
        assert(queue@.active =~= Set::empty());
        queue
    }

    /// The position of the item with this id.
    fn find_item(&self, id: &str) -> (found: Option<usize>)
        ensures
            match found {
                Some(pos) => pos < self.items.len() && self.items[pos as int].id@ == id@,
                None => !self@.has_item(id@),
            },
    {
        let mut pos: usize = 0;
        while pos < self.items.len()
            invariant
                pos <= self.items.len(),
                forall|k: int| 0 <= k < pos ==> self.items[k].id@ != id@,
            decreases self.items.len() - pos,
        {
            if self.items[pos].id.as_str().eq(id) {
                return Some(pos);
            }
            pos = pos + 1;
        }
        assert forall|k: int| 0 <= k < self@.items.len() implies self@.items[k].id != id@ by {
            assert(self@.items[k] == self.items[k]@);
        }
        None
    }

    /// A copy of every item, in display order.
    pub fn get_items(&self) -> (items: Vec<QueueItem>)
        ensures
            item_views(items@) == self@.items,
    {
        let mut out: Vec<QueueItem> = Vec::new();
        let mut pos: usize = 0;
        while pos < self.items.len()
            invariant
                pos <= self.items.len(),
                out.len() == pos,
                forall|k: int| 0 <= k < pos ==> out[k]@ == self.items[k]@,
            decreases self.items.len() - pos,
        {
            out.push(self.items[pos].clone());
            pos = pos + 1;
        }
        assert(item_views(out@) =~= item_views(self.items@));
        out
    }

    /// A copy of the item with this id.
    pub fn get_item(&self, id: &str) -> (item: Option<QueueItem>)
        requires
            self.wf(),
        ensures
            item is Some == self@.has_item(id@),
            item matches Some(i) ==> i@ == self@.item(id@),
    {
        match self.find_item(id) {
            Some(pos) => {
                proof {
                    assert(self@.items[pos as int] == self.items[pos as int]@);
                    model::position_is_unique(self@, id@, pos as int);
                }
                Some(self.items[pos].clone())
            },
            None => None,
        }
    }

    /// The item at `pos` is the only one with its id.
    proof fn only_at(&self, pos: int)
        requires
            self.wf(),
            0 <= pos < self.items.len(),
        ensures
            forall|k: int|
                0 <= k < self.items.len() && k != pos ==> self.items[k].id@
                    != self.items[pos].id@,
    {
        assert forall|k: int| 0 <= k < self.items.len() && k != pos implies self.items[k].id@
            != self.items[pos].id@ by {
            assert(self@.items[k] == self.items[k]@);
            assert(self@.items[pos] == self.items[pos]@);
            if k < pos {
                assert(self@.items[k].id != self@.items[pos].id);
            } else {
                assert(self@.items[pos].id != self@.items[k].id);
            }
        }
    }

    /// Moves the item with this id to `status`. `Completed` and `Failed` are
    /// entered through `update_item_completed` and `update_item_error`, which
    /// bring the file path and the error; asked for one of them, this
    /// operation leaves the item as it is.
    pub fn update_item_status(&mut self, id: &str, status: QueueItemStatus)
        requires
            old(self).wf(),
        ensures
            final(self).wf(),
            final(self)@ == old(self)@.with_status(id@, status),
    {
        match self.find_item(id) {
            Some(pos) => {
                proof {
                    self.only_at(pos as int);
                }
                if status != QueueItemStatus::Completed && status != QueueItemStatus::Failed {
                    self.items[pos].status = status;
                    self.items[pos].error = None;
                    self.items[pos].file_path = None;
                }
                assert(self@.items =~= old(self)@.with_status(id@, status).items);
            },
            None => {
                assert(self@.items =~= old(self)@.with_status(id@, status).items);
            },
        }
    }

    /// Records a progress report for the item with this id: the speed and the
    /// time left as given, and the progress as given unless the item is
    /// downloading and the report is behind what is recorded.
    pub fn update_item_progress(&mut self, id: &str, progress: Progress, speed: String, eta: String)
        requires
            old(self).wf(),
            progress.wf(),
        ensures
            final(self).wf(),
            final(self)@ == old(self)@.with_progress(id@, progress, speed@, eta@),
    {
        match self.find_item(id) {
            Some(pos) => {
                proof {
                    self.only_at(pos as int);
                }
                let behind = self.items[pos].status == QueueItemStatus::Downloading
                    && !self.items[pos].progress.no_further_than(&progress);
                if !behind {
                    self.items[pos].progress = progress;
                }
                self.items[pos].speed = speed;
                self.items[pos].eta = eta;
                assert(self@.items =~= old(self)@.with_progress(id@, progress, speed@, eta@).items);
            },
            None => {
                assert(self@.items =~= old(self)@.with_progress(id@, progress, speed@, eta@).items);
            },
        }
    }

    /// Marks the item with this id as failed, with the error text kept as
    /// given.
    pub fn update_item_error(&mut self, id: &str, error: String)
        requires
            old(self).wf(),
        ensures
            final(self).wf(),
            final(self)@ == old(self)@.failed(id@, error@),
    {
        match self.find_item(id) {
            Some(pos) => {
                proof {
                    self.only_at(pos as int);
                }
                self.items[pos].status = QueueItemStatus::Failed;
                self.items[pos].error = Some(error);
                self.items[pos].file_path = None;
                assert(self@.items =~= old(self)@.failed(id@, error@).items);
            },
            None => {
                assert(self@.items =~= old(self)@.failed(id@, error@).items);
            },
        }
    }

    /// Marks the item with this id as completed: its progress is 100% and its
    /// file path is the one given.
    pub fn update_item_completed(&mut self, id: &str, file_path: String)
        requires
            old(self).wf(),
        ensures
            final(self).wf(),
            final(self)@ == old(self)@.completed(id@, file_path@),
    {
        match self.find_item(id) {
            Some(pos) => {
                proof {
                    self.only_at(pos as int);
                }
                self.items[pos].status = QueueItemStatus::Completed;
                self.items[pos].progress = Progress::full();
                self.items[pos].error = None;
                self.items[pos].file_path = Some(file_path);
                assert(self@.items =~= old(self)@.completed(id@, file_path@).items);
            },
            None => {
                assert(self@.items =~= old(self)@.completed(id@, file_path@).items);
            },
        }
    }

    /// The position of the registration held for this id.
    fn find_registration(&self, id: &str) -> (found: Option<usize>)
        ensures
            match found {
                Some(at) => at < self.active.len() && self.active[at as int].id@ == id@
                    && self@.is_active(id@),
                None => !self@.is_active(id@),
            },
    {
        let mut at: usize = 0;
        while at < self.active.len()
            invariant
                at <= self.active.len(),
                forall|k: int| 0 <= k < at ==> self.active[k].id@ != id@,
            decreases self.active.len() - at,
        {
            if self.active[at].id.as_str().eq(id) {
                assert(registered_ids(self.active@)[at as int] == id@);
                return Some(at);
            }
            at = at + 1;
        }
        assert forall|k: int| 0 <= k < registered_ids(self.active@).len() implies registered_ids(
            self.active@,
        )[k] != id@ by {
            assert(registered_ids(self.active@)[k] == self.active[k].id@);
        }
        None
    }

    /// Takes the registration held for this id out of the queue and hands
    /// over its signal.
    fn take_registration(&mut self, id: &str) -> (signal: Option<Sender<()>>)
        requires
            old(self).wf(),
        ensures
            final(self).wf(),
            final(self)@ == old(self)@.unregistered(id@),
            signal is Some == old(self)@.is_active(id@),
    {
        match self.find_registration(id) {
            Some(at) => {
                proof {
                    ids_without(self.active@, at as int);
                }
                let registration = self.active.remove(at);
                Some(registration.signal)
            },
            None => {
                assert(self@.active =~= old(self)@.unregistered(id@).active);
                None
            },
        }
    }

    /// Registers the download `id` as running and returns the receiving end
    /// of its cancellation signal. A registration that the id already held is
    /// replaced, and its signal is dropped without being fired.
    pub fn register_active_download(&mut self, id: &str) -> (cancelled: Receiver<()>)
        requires
            old(self).wf(),
        ensures
            final(self).wf(),
            final(self)@ == old(self)@.registered(id@),
    {
        let _replaced = self.take_registration(id);
        let (signal, cancelled) = new_signal();
        let entry = Registration { id: id.to_owned(), signal };
        proof {
            let ids = registered_ids(self.active@);
            assert(registered_ids(self.active@.push(entry)) =~= ids.push(id@));
            ids.lemma_push_to_set_commute(id@);
            assert(!ids.to_set().contains(id@));
            assert(forall|k: int| 0 <= k < ids.len() ==> ids[k] != id@);
            assert(old(self)@.active.remove(id@).insert(id@) =~= old(self)@.active.insert(id@));
        }
        self.active.push(entry);
        cancelled
    }

    /// Releases the registration of the download `id`, if it holds one. The
    /// signal is dropped without being fired.
    pub fn unregister_active_download(&mut self, id: &str)
        requires
            old(self).wf(),
        ensures
            final(self).wf(),
            final(self)@ == old(self)@.unregistered(id@),
    {
        let _released = self.take_registration(id);
    }

    /// How many downloads hold a registration.
    pub fn get_active_count(&self) -> (count: usize)
        requires
            self.wf(),
        ensures
            count == self@.active.len(),
    {
        proof {
            registered_ids(self.active@).unique_seq_to_set();
        }
        self.active.len()
    }

    /// Pauses the download `id` if it is running: its signal is fired, its
    /// registration removed and its item set to `Paused`. Returns whether it
    /// was running; if it was not, nothing changes.
    pub fn pause_download(&mut self, id: &str) -> (paused: bool)
        requires
            old(self).wf(),
        ensures
            final(self).wf(),
            paused == old(self)@.is_active(id@),
            final(self)@ == old(self)@.paused(id@),
    {
        match self.take_registration(id) {
            Some(signal) => {
                fire(signal);
                self.update_item_status(id, QueueItemStatus::Paused);
                true
            },
            None => {
                assert(self@ == old(self)@) by {
                    assert(self@.active =~= old(self)@.active);
                }
                false
            },
        }
    }

    /// Puts a paused item back to `Pending`; it is not started. Returns
    /// whether the item was there and paused; if not, nothing changes.
    pub fn resume_download(&mut self, id: &str) -> (resumed: bool)
        requires
            old(self).wf(),
        ensures
            final(self).wf(),
            resumed == old(self)@.can_resume(id@),
            final(self)@ == old(self)@.resumed(id@),
    {
        match self.find_item(id) {
            Some(pos) => {
                proof {
                    assert(self@.items[pos as int] == self.items[pos as int]@);
                    model::position_is_unique(self@, id@, pos as int);
                }
                if self.items[pos].status == QueueItemStatus::Paused {
                    self.update_item_status(id, QueueItemStatus::Pending);
                    true
                } else {
                    false
                }
            },
            None => false,
        }
    }

    /// Cancels the download `id`: a registration it holds is fired and
    /// removed, and its item is set to `Cancelled` whether it was running or
    /// not. Always returns true.
    pub fn cancel_download(&mut self, id: &str) -> (cancelled: bool)
        requires
            old(self).wf(),
        ensures
            final(self).wf(),
            cancelled,
            final(self)@ == old(self)@.cancelled(id@),
    {
        match self.take_registration(id) {
            Some(signal) => {
                fire(signal);
            },
            None => {},
        }
        self.update_item_status(id, QueueItemStatus::Cancelled);
        true
    }

    /// Sets the advisory ceiling on concurrent downloads, held to 1..=5.
    pub fn set_max_concurrent(&mut self, max: usize)
        requires
            old(self).wf(),
        ensures
            final(self).wf(),
            final(self)@ == old(self)@.with_max_concurrent(max as nat),
    {
        self.max_concurrent = if max < 1 {
            1
        } else if max > 5 {
            5
        } else {
            max
        };
    }

    /// The advisory ceiling on concurrent downloads.
    pub fn get_max_concurrent(&self) -> (max: usize)
        ensures
            max == self@.max_concurrent,
    {
        self.max_concurrent
    }

    /// Removes the download `id`: it is cancelled first, so that a running
    /// transfer is told to stop, and then its item is deleted.
    pub fn remove_item(&mut self, id: &str)
        requires
            old(self).wf(),
        ensures
            final(self).wf(),
            final(self)@ == old(self)@.removed(id@),
    {
        match self.take_registration(id) {
            Some(signal) => {
                fire(signal);
            },
            None => {},
        }
        let ghost start = self@;
        let ghost keep = |i: QueueItemView| i.id != id@;
        match self.find_item(id) {
            Some(pos) => {
                proof {
                    self.only_at(pos as int);
                    assert forall|k: int| 0 <= k < start.items.len() implies (start.items[k].id
                        == id@) == (k == pos) by {
                        assert(start.items[k] == self.items[k]@);
                    }
                    filter_drops_one(start.items, keep, pos as int);
                }
                self.items.remove(pos);
                assert(self@.items =~= start.items.remove(pos as int));
            },
            None => {
                proof {
                    assert forall|k: int| 0 <= k < start.items.len() implies keep(
                        start.items[k],
                    ) by {}
                    filter_keeps_all(start.items, keep);
                }
            },
        }
    }

    /// Deletes every item that is `Completed` or `Failed`. Registrations are
    /// left alone.
    pub fn clear_completed(&mut self)
        requires
            old(self).wf(),
        ensures
            final(self).wf(),
            final(self)@ == old(self)@.without_finished(),
    {
        let ghost before = self@.items;
        let ghost keep = |i: QueueItemView| !is_finished(i.status);
        let ghost mut seen: int = 0;
        let mut pos: usize = 0;
        proof {
            assert(before.take(0).filter(keep) =~= Seq::<QueueItemView>::empty());
            assert(before.skip(0) =~= before);
        }
        while pos < self.items.len()
            invariant
                pos <= self.items.len(),
                0 <= seen <= before.len(),
                self.items.len() - pos == before.len() - seen,
                item_views(self.items@).take(pos as int) == before.take(seen).filter(keep),
                item_views(self.items@).skip(pos as int) == before.skip(seen),
                self.active == old(self).active,
                self.max_concurrent == old(self).max_concurrent,
                keep == |i: QueueItemView| !is_finished(i.status),
            decreases self.items.len() - pos,
        {
            let ghost here = item_views(self.items@);
            proof {
                assert(here.skip(pos as int)[0] == before.skip(seen)[0]);
                assert(here[pos as int] == before[seen]);
                assert(here[pos as int] == self.items[pos as int]@);
                assert(before.take(seen + 1) =~= before.take(seen).push(before[seen]));
                before.take(seen).lemma_filter_push(before[seen], keep);
                assert(before.skip(seen + 1) =~= before.skip(seen).skip(1));
            }
            let status = self.items[pos].status;
            if status == QueueItemStatus::Completed || status == QueueItemStatus::Failed {
                self.items.remove(pos);
                proof {
                    let now = item_views(self.items@);
                    assert(now =~= here.remove(pos as int));
                    assert(now.take(pos as int) =~= here.take(pos as int));
                    assert(now.skip(pos as int) =~= here.skip(pos as int).skip(1));
                }
            } else {
                proof {
                    assert(here.take(pos + 1) =~= here.take(pos as int).push(here[pos as int]));
                    assert(here.skip(pos + 1) =~= here.skip(pos as int).skip(1));
                }
                pos = pos + 1;
            }
            proof {
                seen = seen + 1;
            }
        }
        proof {
            let now = item_views(self.items@);
            assert(now.take(pos as int) =~= now);
            assert(before.take(seen) =~= before);
            old(self).wf_view();
            model::filter_keeps_items_in_order(before, keep);
        }
    }

    /// Cancels every running download and empties the list.
    pub fn clear_all(&mut self)
        requires
            old(self).wf(),
        ensures
            final(self).wf(),
            final(self)@ == old(self)@.cleared(),
    {
        while self.active.len() > 0
            invariant
                self.items == old(self).items,
                self.max_concurrent == old(self).max_concurrent,
            decreases self.active.len(),
        {
            match self.active.pop() {
                Some(registration) => {
                    fire(registration.signal);
                },
                None => {},
            }
        }
        self.items.clear();
        proof {
            assert(self@.items =~= Seq::<QueueItemView>::empty());
            assert(registered_ids(self.active@) =~= Seq::<Seq<char>>::empty());
            assert(self@.active =~= Set::<Seq<char>>::empty());
            old(self).wf_view();
        }
    }

    /// A copy of every item that is `Pending`, in display order.
    pub fn get_pending_items(&self) -> (pending: Vec<QueueItem>)
        ensures
            item_views(pending@) == self@.pending_items(),
    {
        let ghost all = self@.items;
        let ghost wanted = |i: QueueItemView| i.status == QueueItemStatus::Pending;
        let mut out: Vec<QueueItem> = Vec::new();
        let mut pos: usize = 0;
        proof {
            assert(all.take(0).filter(wanted) =~= Seq::<QueueItemView>::empty());
            assert(item_views(out@) =~= Seq::<QueueItemView>::empty());
        }
        while pos < self.items.len()
            invariant
                pos <= self.items.len(),
                all == item_views(self.items@),
                item_views(out@) == all.take(pos as int).filter(wanted),
                wanted == |i: QueueItemView| i.status == QueueItemStatus::Pending,
            decreases self.items.len() - pos,
        {
            proof {
                assert(all[pos as int] == self.items[pos as int]@);
                assert(all.take(pos + 1) =~= all.take(pos as int).push(all[pos as int]));
                all.take(pos as int).lemma_filter_push(all[pos as int], wanted);
            }
            if self.items[pos].status == QueueItemStatus::Pending {
                let ghost prev = item_views(out@);
                out.push(self.items[pos].clone());
                assert(item_views(out@) =~= prev.push(all[pos as int]));
            }
            pos = pos + 1;
        }
        assert(all.take(pos as int) =~= all);
        out
    }

    /// Moves the item `id` one place in display order: later for a positive
    /// `direction`, earlier otherwise. At either end it stays where it is.
    pub fn move_item(&mut self, id: &str, direction: i32)
        requires
            old(self).wf(),
        ensures
            final(self).wf(),
            final(self)@ == old(self)@.moved(id@, direction as int),
    {
        match self.find_item(id) {
            Some(pos) => {
                proof {
                    assert(self@.items[pos as int] == self.items[pos as int]@);
                    model::position_is_unique(self@, id@, pos as int);
                }
                let to: usize = if direction > 0 {
                    if pos + 1 < self.items.len() {
                        pos + 1
                    } else {
                        pos
                    }
                } else {
                    if pos > 0 {
                        pos - 1
                    } else {
                        pos
                    }
                };
                if pos != to {
                    let ghost before = self@.items;
                    let item = self.items.remove(pos);
                    self.items.insert(to, item);
                    proof {
                        let after = self@.items;
                        let swapped = before.update(pos as int, before[to as int]).update(
                            to as int,
                            before[pos as int],
                        );
                        assert(after =~= swapped);
                        assert forall|i: int, j: int| 0 <= i < j < after.len() implies after[i].id
                            != after[j].id by {
                            let bi = if i == pos { to as int } else if i == to { pos as int } else { i };
                            let bj = if j == pos { to as int } else if j == to { pos as int } else { j };
                            assert(after[i] == before[bi]);
                            assert(after[j] == before[bj]);
                            if bi < bj {
                                assert(before[bi].id != before[bj].id);
                            } else {
                                assert(before[bj].id != before[bi].id);
                            }
                        }
                        assert forall|i: int| 0 <= i < after.len() implies (#[trigger] after[i]).valid() by {
                            let bi = if i == pos { to as int } else if i == to { pos as int } else { i };
                            assert(after[i] == before[bi]);
                            assert(before[bi].valid());
                        }
                    }
                } else {
                    assert(self@.items =~= old(self)@.moved(id@, direction as int).items);
                }
            },
            None => {},
        }
    }

    /// The length of the longest id in the list.
    fn longest_id_len(&self) -> (longest: usize)
        ensures
            longest == longest_id(self@.items),
    {
        let mut longest: usize = 0;
        let mut pos: usize = 0;
        proof {
            assert(self@.items.take(0) =~= Seq::<QueueItemView>::empty());
        }
        while pos < self.items.len()
            invariant
                pos <= self.items.len(),
                longest == longest_id(self@.items.take(pos as int)),
            decreases self.items.len() - pos,
        {
            let len = self.items[pos].id.as_str().unicode_len();
            proof {
                let upto = self@.items.take(pos + 1);
                assert(upto.drop_last() =~= self@.items.take(pos as int));
                assert(upto.last() == self.items[pos as int]@);
            }
            if len > longest {
                longest = len;
            }
            pos = pos + 1;
        }
        assert(self@.items.take(pos as int) =~= self@.items);
        longest
    }

    /// Adds a pending item under the id proposed for it, or, should an item
    /// hold that id already, under the id made unused by hyphens at its end.
    /// Returns the id the item got.
    pub fn enqueue(
        &mut self,
        candidate_id: String,
        added_at: String,
        url: String,
        title: String,
        thumbnail: String,
        quality: String,
        output_dir: String,
        output_filename: String,
    ) -> (id: String)
        requires
            old(self).wf(),
        ensures
            final(self).wf(),
            id@ == unused_id(old(self)@.items, candidate_id@),
            !old(self)@.has_item(id@),
            final(self)@ == old(self)@.enqueued(
                QueueItemView::pending(
                    id@,
                    url@,
                    title@,
                    thumbnail@,
                    quality@,
                    output_dir@,
                    output_filename@,
                    added_at@,
                ),
            ),
    {
        let mut id = candidate_id;
        proof {
            model::unused_id_is_unused(self@.items, id@);
        }
        match self.find_item(id.as_str()) {
            Some(pos) => {
                let longest = self.longest_id_len();
                let mut len = id.as_str().unicode_len();
                proof {
                    assert(self@.items[pos as int] == self.items[pos as int]@);
                    model::longest_id_bounds(self@.items, pos as int);
                    assert(padding(1) =~= Seq::<char>::empty().push('-'));
                    assert(candidate_id@ + padding(1) =~= candidate_id@.push('-'));
                }
                id.push('-');
                while len < longest
                    invariant
                        len <= longest,
                        candidate_id@.len() <= len,
                        id@ == candidate_id@ + padding((len + 1 - candidate_id@.len()) as nat),
                    decreases longest - len,
                {
                    proof {
                        let n = (len + 1 - candidate_id@.len()) as nat;
                        assert(padding(n).push('-') =~= padding(n + 1));
                        assert((candidate_id@ + padding(n)).push('-') =~= candidate_id@ + padding(
                            n + 1,
                        ));
                    }
                    id.push('-');
                    len = len + 1;
                }
            },
            None => {},
        }
        let ghost before = self@;
        let item = QueueItem {
            id: id.clone(),
            url,
            title,
            thumbnail,
            quality,
            output_dir,
            output_filename,
            status: QueueItemStatus::Pending,
            progress: Progress::zero(),
            speed: String::new(),
            eta: String::new(),
            error: None,
            file_path: None,
            added_at,
        };
        self.items.push(item);
        proof {
            assert(self@.items =~= before.items.push(item@));
            assert forall|i: int, j: int| 0 <= i < j < self@.items.len() implies self@.items[i].id
                != self@.items[j].id by {
                assert(self@.items[i] == before.items[i]);
                if j < before.items.len() {
                    assert(self@.items[j] == before.items[j]);
                }
            }
            assert forall|i: int| 0 <= i < self@.items.len() implies (#[trigger] self@.items[i]).valid() by {
                if i < before.items.len() {
                    assert(self@.items[i] == before.items[i]);
                }
            }
        }
        id
    }

    /// Adds a pending item for the given download under a fresh id and
    /// returns the id. The transfer is not started. The id is a random UUID;
    /// the time of adding is read from the clock.
    pub fn add_item(
        &mut self,
        url: String,
        title: String,
        thumbnail: String,
        quality: String,
        output_dir: String,
        output_filename: String,
    ) -> (id: String)
        requires
            old(self).wf(),
        ensures
            final(self).wf(),
            !old(self)@.has_item(id@),
            final(self)@.items.len() == old(self)@.items.len() + 1,
            final(self)@ == old(self)@.enqueued(
                QueueItemView::pending(
                    id@,
                    url@,
                    title@,
                    thumbnail@,
                    quality@,
                    output_dir@,
                    output_filename@,
                    final(self)@.items.last().added_at,
                ),
            ),
    {
        let candidate = random_id();
        let added_at = now_rfc3339();
        self.enqueue(candidate, added_at, url, title, thumbnail, quality, output_dir, output_filename)
    }

    /// Starts the download `id`: the item, which has to be `Pending` or
    /// `Paused`, becomes `Downloading` and gets a registration. Returns a
    /// copy of the item as it now is, and the receiving end of the
    /// cancellation signal that the transfer has to race against.
    pub fn start_download(&mut self, id: &str) -> (started: Result<(QueueItem, Receiver<()>), StartError>)
        requires
            old(self).wf(),
        ensures
            final(self).wf(),
            match started {
                Ok((item, _)) => {
                    &&& old(self)@.can_start(id@)
                    &&& final(self)@ == old(self)@.started(id@)
                    &&& item@ == old(self)@.item(id@).with_status(QueueItemStatus::Downloading)
                    &&& item@ == final(self)@.item(id@)
                },
                Err(StartError::NotFound) => !old(self)@.has_item(id@) && final(self)@ == old(self)@,
                Err(StartError::NotStartable) => {
                    &&& old(self)@.has_item(id@)
                    &&& !old(self)@.can_start(id@)
                    &&& final(self)@ == old(self)@
                },
            },
    {
        match self.find_item(id) {
            Some(pos) => {
                proof {
                    assert(self@.items[pos as int] == self.items[pos as int]@);
                    model::position_is_unique(self@, id@, pos as int);
                }
                let status = self.items[pos].status;
                if status != QueueItemStatus::Pending && status != QueueItemStatus::Paused {
                    return Err(StartError::NotStartable);
                }
                self.update_item_status(id, QueueItemStatus::Downloading);
                proof {
                    let after = self@;
                    assert(after.items[pos as int] == old(self)@.items[pos as int].with_status(
                        QueueItemStatus::Downloading,
                    ));
                    self.wf_view();
                    model::position_is_unique(after, id@, pos as int);
                }
                let item = self.items[pos].clone();
                assert(self@.items[pos as int] == self.items[pos as int]@);
                let cancelled = self.register_active_download(id);
                Ok((item, cancelled))
            },
            None => Err(StartError::NotFound),
        }
    }

    /// Records how the transfer of `id` ended, unless the download was
    /// paused or cancelled meanwhile: then it holds no registration any more,
    /// the outcome is dropped and nothing is returned. Otherwise the
    /// registration is released, the item becomes `Completed` with the file
    /// path or `Failed` with the message of the error, and the report for
    /// the host is returned.
    pub fn finish_download(&mut self, id: &str, outcome: Result<String, DownloaderError>) -> (report:
        Option<QueueProgress>)
        requires
            old(self).wf(),
        ensures
            final(self).wf(),
            report is Some == old(self)@.is_active(id@),
            match outcome {
                Ok(path) => {
                    &&& final(self)@ == old(self)@.finished_ok(id@, path@)
                    &&& report matches Some(r) ==> r@ == completed_report(id@, path@)
                },
                Err(e) => {
                    &&& final(self)@ == old(self)@.finished_err(id@, e@.message())
                    &&& report matches Some(r) ==> r@ == failed_report(id@, e@.message())
                },
            },
    {
        match self.take_registration(id) {
            Some(_released) => {
                match outcome {
                    Ok(path) => {
                        self.update_item_completed(id, path.clone());
                        Some(
                            QueueProgress {
                                id: id.to_owned(),
                                status: QueueItemStatus::Completed,
                                progress: Progress::full(),
                                speed: String::new(),
                                eta: String::new(),
                                message: "ดาวน์โหลดเสร็จสมบูรณ์".to_owned(),
                                file_path: Some(path),
                            },
                        )
                    },
                    Err(e) => {
                        let text = e.message();
                        self.update_item_error(id, text.clone());
                        Some(
                            QueueProgress {
                                id: id.to_owned(),
                                status: QueueItemStatus::Failed,
                                progress: Progress::zero(),
                                speed: String::new(),
                                eta: String::new(),
                                message: join_text("ดาวน์โหลดล้มเหลว: ", text.as_str()),
                                file_path: None,
                            },
                        )
                    },
                }
            },
            None => {
                assert(self@ == old(self)@) by {
                    assert(self@.active =~= old(self)@.active);
                }
                None
            },
        }
    }

    /// Takes one progress report of the transfer of `id`: records it on the
    /// item and returns the report for the host. The speed is the last word
    /// of the message where the message names a rate in KB/s or MB/s, and
    /// empty otherwise; the time left is not known.
    pub fn report_progress(&mut self, id: &str, progress: Progress, message: String) -> (report:
        QueueProgress)
        requires
            old(self).wf(),
            progress.wf(),
        ensures
            final(self).wf(),
            final(self)@ == old(self)@.with_progress(
                id@,
                progress,
                speed_in(message@),
                Seq::empty(),
            ),
            report@ == progress_report(id@, progress, message@),
    {
        let speed = speed_of(message.as_str());
        self.update_item_progress(id, progress, speed.clone(), String::new());
        QueueProgress {
            id: id.to_owned(),
            status: QueueItemStatus::Downloading,
            progress,
            speed,
            eta: String::new(),
            message,
            file_path: None,
        }
    }
}

impl Default for DownloadQueue {
    /// An empty queue with a ceiling of two concurrent downloads.
    fn default() -> (queue: DownloadQueue)
        ensures
            queue.wf(),
            queue@ == QueueView::empty(),
    {
        DownloadQueue::new()
    }
}

/// Why a download could not be started.
#[derive(Clone, Copy, Debug, PartialEq, Eq, Structural)]
pub enum StartError {
    /// The queue holds no item with the id.
    NotFound,
    /// The item is neither `Pending` nor `Paused`.
    NotStartable,
}

impl StartError {
    /// The line shown to the user.
    pub open spec fn text(self) -> Seq<char> {
        match self {
            StartError::NotFound => "Item not found"@,
            StartError::NotStartable => "Item is not in a downloadable state"@,
        }
    }

    /// The line shown to the user.
    pub fn message(&self) -> (text: String)
        ensures
            text@ == self.text(),
    {
        match self {
            StartError::NotFound => "Item not found".to_owned(),
            StartError::NotStartable => "Item is not in a downloadable state".to_owned(),
        }
    }
}

/// The speed that a progress message names: its last word where it holds
/// "KB/s" or "MB/s", and nothing otherwise.
pub open spec fn speed_in(message: Seq<char>) -> Seq<char> {
    if contains_text(message, "KB/s"@) || contains_text(message, "MB/s"@) {
        last_word(message)
    } else {
        Seq::empty()
    }
}

/// The speed that a progress message names.
pub fn speed_of(message: &str) -> (speed: String)
    ensures
        speed@ == speed_in(message@),
{
    if str_contains(message, "KB/s") || str_contains(message, "MB/s") {
        str_last_word(message)
    } else {
        String::new()
    }
}

/// The report sent on a progress tick of a running download.
pub open spec fn progress_report(id: Seq<char>, progress: Progress, message: Seq<char>) -> QueueProgressView {
    QueueProgressView {
        id,
        status: QueueItemStatus::Downloading,
        progress,
        speed: speed_in(message),
        eta: Seq::empty(),
        message,
        file_path: None,
    }
}

/// The report sent when a download has ended with the file at `file_path`.
pub open spec fn completed_report(id: Seq<char>, file_path: Seq<char>) -> QueueProgressView {
    QueueProgressView {
        id,
        status: QueueItemStatus::Completed,
        progress: Progress { done: 1, total: 1 },
        speed: Seq::empty(),
        eta: Seq::empty(),
        message: "ดาวน์โหลดเสร็จสมบูรณ์"@,
        file_path: Some(file_path),
    }
}

/// The report sent when a download has failed with the message `error`.
pub open spec fn failed_report(id: Seq<char>, error: Seq<char>) -> QueueProgressView {
    QueueProgressView {
        id,
        status: QueueItemStatus::Failed,
        progress: Progress { done: 0, total: 1 },
        speed: Seq::empty(),
        eta: Seq::empty(),
        message: "ดาวน์โหลดล้มเหลว: "@ + error,
        file_path: None,
    }
}

/// Taking one registration out of a list without repeated ids leaves a list
/// without repeated ids, whose ids are the former ones but the one taken out.
proof fn ids_without(active: Seq<Registration>, at: int)
    requires
        0 <= at < active.len(),
        registered_ids(active).no_duplicates(),
    ensures
        registered_ids(active.remove(at)).no_duplicates(),
        registered_ids(active.remove(at)).to_set() == registered_ids(active).to_set().remove(
            active[at].id@,
        ),
{
    let before = registered_ids(active);
    let after = registered_ids(active.remove(at));
    assert(after =~= before.remove(at));
    assert forall|i: int, j: int| 0 <= i < after.len() && 0 <= j < after.len() && i != j implies after[i]
        != after[j] by {
        let bi = if i < at { i } else { i + 1 };
        let bj = if j < at { j } else { j + 1 };
        assert(after[i] == before[bi]);
        assert(after[j] == before[bj]);
    }
    assert forall|id: Seq<char>| after.to_set().contains(id) == before.to_set().remove(
        active[at].id@,
    ).contains(id) by {
        if after.to_set().contains(id) {
            let k = choose|k: int| 0 <= k < after.len() && after[k] == id;
            let b = if k < at { k } else { k + 1 };
            assert(before[b] == id);
            assert(before[at] == active[at].id@);
        }
        if before.to_set().remove(active[at].id@).contains(id) {
            let b = choose|b: int| 0 <= b < before.len() && before[b] == id;
            assert(b != at);
            let k = if b < at { b } else { b - 1 };
            assert(after[k] == id);
        }
    }
    assert(after.to_set() =~= before.to_set().remove(active[at].id@));
}

/// A filter that every element passes keeps the sequence as it is.
proof fn filter_keeps_all<A>(s: Seq<A>, keep: spec_fn(A) -> bool)
    requires
        forall|k: int| 0 <= k < s.len() ==> keep(#[trigger] s[k]),
    ensures
        s.filter(keep) == s,
    decreases s.len(),
{
    reveal(Seq::filter);
    if s.len() > 0 {
        filter_keeps_all(s.drop_last(), keep);
        assert(s.drop_last().push(s.last()) =~= s);
    }
}

/// A filter that only the element at `at` fails removes that element.
proof fn filter_drops_one<A>(s: Seq<A>, keep: spec_fn(A) -> bool, at: int)
    requires
        0 <= at < s.len(),
        forall|k: int| 0 <= k < s.len() ==> keep(#[trigger] s[k]) == (k != at),
    ensures
        s.filter(keep) == s.remove(at),
    decreases s.len(),
{
    reveal(Seq::filter);
    let front = s.drop_last();
    if at == s.len() - 1 {
        assert forall|k: int| 0 <= k < front.len() implies keep(#[trigger] front[k]) by {
            assert(front[k] == s[k]);
        }
        filter_keeps_all(front, keep);
        assert(s.remove(at) =~= front);
    } else {
        assert forall|k: int| 0 <= k < front.len() implies keep(#[trigger] front[k]) == (k
            != at) by {
            assert(front[k] == s[k]);
        }
        filter_drops_one(front, keep, at);
        assert(s.remove(at) =~= front.remove(at).push(s.last()));
    }
}

} // verus!
