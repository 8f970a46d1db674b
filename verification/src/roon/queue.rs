//! The play-queue subscription: at most one zone's queue is subscribed
//! upstream, and its items are cached once the first snapshot has arrived.

use vstd::prelude::*;
use vstd::string::*;

use crate::text::str_eq;

verus! {

/// How many queue items a subscription asks for.
pub const QUEUE_MAX_ITEMS: u32 = 50;

/// How long a caller waits for the first snapshot, in milliseconds.
pub const QUEUE_WAIT_MS: u64 = 2000;

/// One entry of a play queue.
#[derive(Debug, PartialEq, Eq)]
pub struct QueueItem {
    pub queue_item_id: u32,
    pub length: u32,
    pub image_key: Option<String>,
    pub one_line: String,
    pub two_line_1: String,
    pub two_line_2: String,
    pub three_line_1: String,
    pub three_line_2: String,
    pub three_line_3: String,
}

pub struct QueueItemView {
    pub queue_item_id: u32,
    pub length: u32,
    pub image_key: Option<Seq<char>>,
    pub one_line: Seq<char>,
    pub two_line_1: Seq<char>,
    pub two_line_2: Seq<char>,
    pub three_line_1: Seq<char>,
    pub three_line_2: Seq<char>,
    pub three_line_3: Seq<char>,
}

impl View for QueueItem {
    type V = QueueItemView;

    open spec fn view(&self) -> QueueItemView {
        QueueItemView {
            queue_item_id: self.queue_item_id,
            length: self.length,
            image_key: self.image_key.deep_view(),
            one_line: self.one_line@,
            two_line_1: self.two_line_1@,
            two_line_2: self.two_line_2@,
            three_line_1: self.three_line_1@,
            three_line_2: self.three_line_2@,
            three_line_3: self.three_line_3@,
        }
    }
}

impl DeepView for QueueItem {
    type V = QueueItemView;

    open spec fn deep_view(&self) -> QueueItemView {
        self@
    }
}

impl Clone for QueueItem {
    fn clone(&self) -> (copy: Self)
        ensures
            copy@ == self@,
    {
        QueueItem {
            queue_item_id: self.queue_item_id,
            length: self.length,
            image_key: self.image_key.clone(),
            one_line: self.one_line.clone(),
            two_line_1: self.two_line_1.clone(),
            two_line_2: self.two_line_2.clone(),
            three_line_1: self.three_line_1.clone(),
            three_line_2: self.three_line_2.clone(),
            three_line_3: self.three_line_3.clone(),
        }
    }
}

/// What a queue delta does.
#[derive(Clone, Copy, Debug, PartialEq, Eq, Structural)]
pub enum QueueOperation {
    Insert,
    Remove,
}

/// One operation of a queue delta.
#[derive(Debug, PartialEq, Eq)]
pub struct QueueChange {
    pub operation: QueueOperation,
    pub index: usize,
    pub items: Option<Vec<QueueItem>>,
    pub count: Option<usize>,
}

pub struct QueueChangeView {
    pub operation: QueueOperation,
    pub index: usize,
    pub items: Option<Seq<QueueItemView>>,
    pub count: Option<usize>,
}

impl View for QueueChange {
    type V = QueueChangeView;

    open spec fn view(&self) -> QueueChangeView {
        QueueChangeView {
            operation: self.operation,
            index: self.index,
            items: self.items.deep_view(),
            count: self.count,
        }
    }
}

impl DeepView for QueueChange {
    type V = QueueChangeView;

    open spec fn deep_view(&self) -> QueueChangeView {
        self@
    }
}

/// A call to make upstream on behalf of the queue subscription.
#[derive(Debug, PartialEq, Eq)]
pub enum QueueRequest {
    /// Give up the current subscription.
    Unsubscribe,
    /// Subscribe to the queue of a zone.
    Subscribe { zone_id: String, max_items: u32 },
    /// Wait until the first snapshot arrives, but no longer than this.
    Await { timeout_ms: u64 },
}

pub enum QueueRequestView {
    Unsubscribe,
    Subscribe { zone_id: Seq<char>, max_items: u32 },
    Await { timeout_ms: u64 },
}

impl View for QueueRequest {
    type V = QueueRequestView;

    open spec fn view(&self) -> QueueRequestView {
        match self {
            QueueRequest::Unsubscribe => QueueRequestView::Unsubscribe,
            QueueRequest::Subscribe { zone_id, max_items } => QueueRequestView::Subscribe {
                zone_id: zone_id@,
                max_items: *max_items,
            },
            QueueRequest::Await { timeout_ms } => QueueRequestView::Await {
                timeout_ms: *timeout_ms,
            },
        }
    }
}

impl DeepView for QueueRequest {
    type V = QueueRequestView;

    open spec fn deep_view(&self) -> QueueRequestView {
        self@
    }
}

impl Clone for QueueRequest {
    fn clone(&self) -> (copy: Self)
        ensures
            copy@ == self@,
    {
        match self {
            QueueRequest::Unsubscribe => QueueRequest::Unsubscribe,
            QueueRequest::Subscribe { zone_id, max_items } => QueueRequest::Subscribe {
                zone_id: zone_id.clone(),
                max_items: *max_items,
            },
            QueueRequest::Await { timeout_ms } => QueueRequest::Await { timeout_ms: *timeout_ms },
        }
    }
}

/// The queue after one operation. An insert puts its items, in order, at
/// its index; one whose index lies beyond the end, or that carries no
/// items, changes nothing. A remove takes out `count` items (one when no
/// count is given) from its index on, or as many as there are.
pub open spec fn apply_change(items: Seq<QueueItemView>, change: QueueChangeView) -> Seq<
    QueueItemView,
> {
    let at = change.index as int;
    match change.operation {
        QueueOperation::Insert => match change.items {
            Some(added) => if at <= items.len() {
                items.subrange(0, at) + added + items.subrange(at, items.len() as int)
            } else {
                items
            },
            None => items,
        },
        QueueOperation::Remove => {
            let count = match change.count {
                Some(n) => n as int,
                None => 1,
            };
            if at < items.len() {
                let end = if at + count < items.len() {
                    at + count
                } else {
                    items.len() as int
                };
                items.subrange(0, at) + items.subrange(end, items.len() as int)
            } else {
                items
            }
        },
    }
}

/// The queue after the operations of a delta, applied in order.
pub open spec fn apply_changes(items: Seq<QueueItemView>, changes: Seq<QueueChangeView>) -> Seq<
    QueueItemView,
>
    decreases changes.len(),
{
    if changes.len() == 0 {
        items
    } else {
        apply_change(apply_changes(items, changes.drop_last()), changes.last())
    }
}

/// Applies one operation of a delta to a queue.
pub fn apply_queue_change(queue: &mut Vec<QueueItem>, change: &QueueChange)
    ensures
        final(queue).deep_view() == apply_change(old(queue).deep_view(), change@),
{
    let ghost before = queue.deep_view();
    let at: usize = change.index;
    match change.operation {
        QueueOperation::Insert => {
            match &change.items {
                Some(added) => {
                    if at <= queue.len() {
                        let mut i: usize = 0;
                        while i < added.len()
                            invariant
                                i <= added.len(),
                                at <= before.len(),
                                queue.len() == before.len() + i,
                                queue.deep_view() =~= before.subrange(0, at as int)
                                    + added.deep_view().take(i as int) + before.subrange(
                                    at as int,
                                    before.len() as int,
                                ),
                            decreases added.len() - i,
                        {
                            let item = added[i].clone();
                            let ghost so_far = queue.deep_view();
                            queue.insert(at + i, item);
                            assert(queue.deep_view() =~= so_far.insert(at + i, item@));
                            i += 1;
                        }
                        assert(added.deep_view().take(added.len() as int) =~= added.deep_view());
                    }
                },
                None => {},
            }
        },
        QueueOperation::Remove => {
            let count: usize = match change.count {
                Some(n) => n,
                None => 1,
            };
            if at < queue.len() {
                let available: usize = queue.len() - at;
                let take: usize = if count < available {
                    count
                } else {
                    available
                };
                let mut i: usize = 0;
                while i < take
                    invariant
                        i <= take,
                        at + take <= before.len(),
                        queue.len() == before.len() - i,
                        queue.deep_view() =~= before.subrange(0, at as int) + before.subrange(
                            at + i,
                            before.len() as int,
                        ),
                    decreases take - i,
                {
                    let ghost so_far = queue.deep_view();
                    let _ = queue.remove(at);
                    assert(queue.deep_view() =~= so_far.remove(at as int));
                    i += 1;
                }
            }
        },
    }
}

/// The queue subscription and its cached items.
#[derive(Debug)]
pub struct QueueSubscription {
    active: Option<String>,
    items: Option<Vec<QueueItem>>,
}

pub struct QueueSubscriptionView {
    /// The zone whose queue is subscribed upstream.
    pub active: Option<Seq<char>>,
    /// Its items, once a snapshot has arrived.
    pub items: Option<Seq<QueueItemView>>,
}

impl View for QueueSubscription {
    type V = QueueSubscriptionView;

    closed spec fn view(&self) -> QueueSubscriptionView {
        QueueSubscriptionView { active: self.active.deep_view(), items: self.items.deep_view() }
    }
}

/// The calls that make `id` the subscribed zone: none when it already is;
/// otherwise an unsubscribe if another zone is subscribed, then the
/// subscribe, then the wait for the first snapshot.
pub open spec fn subscribe_requests(active: Option<Seq<char>>, id: Seq<char>) -> Seq<
    QueueRequestView,
> {
    let subscribe = seq![
        QueueRequestView::Subscribe { zone_id: id, max_items: QUEUE_MAX_ITEMS },
        QueueRequestView::Await { timeout_ms: QUEUE_WAIT_MS },
    ];
    match active {
        Some(current) => if current == id {
            Seq::empty()
        } else {
            seq![QueueRequestView::Unsubscribe] + subscribe
        },
        None => subscribe,
    }
}

/// The subscription after `id` has been made the subscribed zone.
pub open spec fn subscribed_to(queue: QueueSubscriptionView, id: Seq<char>)
    -> QueueSubscriptionView {
    if queue.active == Some(id) {
        queue
    } else {
        QueueSubscriptionView { active: Some(id), items: None }
    }
}

/// The subscription after a snapshot has arrived: it becomes the cache of
/// the subscribed zone, and is dropped when no zone is subscribed.
pub open spec fn with_snapshot(queue: QueueSubscriptionView, items: Seq<QueueItemView>)
    -> QueueSubscriptionView {
    if queue.active is Some {
        QueueSubscriptionView { active: queue.active, items: Some(items) }
    } else {
        queue
    }
}

/// Does a delta for zone `id` apply? Only to the subscribed zone, and only
/// once its snapshot is cached.
pub open spec fn delta_applies(queue: QueueSubscriptionView, id: Seq<char>) -> bool {
    queue.active == Some(id) && queue.items is Some
}

/// The subscription after a delta for zone `id`.
pub open spec fn with_delta(
    queue: QueueSubscriptionView,
    id: Seq<char>,
    changes: Seq<QueueChangeView>,
) -> QueueSubscriptionView {
    if delta_applies(queue, id) {
        QueueSubscriptionView {
            active: queue.active,
            items: Some(apply_changes(queue.items->0, changes)),
        }
    } else {
        queue
    }
}

/// The cached queue of zone `id`.
pub open spec fn cached_queue(queue: QueueSubscriptionView, id: Seq<char>) -> Option<
    Seq<QueueItemView>,
> {
    if queue.active == Some(id) {
        queue.items
    } else {
        None
    }
}

impl QueueSubscription {
    /// No zone subscribed, nothing cached.
    pub fn new() -> (queue: Self)
        ensures
            queue@.active is None,
            queue@.items is None,
    {
        QueueSubscription { active: None, items: None }
    }

    /// The subscribed zone.
    pub fn active_zone(&self) -> (zone: Option<&String>)
        ensures
            zone.deep_view() == self@.active,
    {
        self.active.as_ref()
    }

    /// Is `id` the subscribed zone?
    pub fn is_active(&self, id: &str) -> (yes: bool)
        ensures
            yes == (self@.active == Some(id@)),
    {
        match &self.active {
            Some(current) => str_eq(current.as_str(), id),
            None => false,
        }
    }

    /// Makes `id` the subscribed zone and says which calls to make
    /// upstream for it.
    pub fn ensure_subscribed(&mut self, id: &str) -> (requests: Vec<QueueRequest>)
        ensures
            requests.deep_view() == subscribe_requests(old(self)@.active, id@),
            final(self)@ == subscribed_to(old(self)@, id@),
    {
        let mut requests: Vec<QueueRequest> = Vec::new();
        if self.is_active(id) {
            assert(requests.deep_view() =~= Seq::<QueueRequestView>::empty());
            return requests;
        }
        if self.active.is_some() {
            requests.push(QueueRequest::Unsubscribe);
        }
        requests.push(QueueRequest::Subscribe { zone_id: id.to_owned(), max_items: QUEUE_MAX_ITEMS });
        requests.push(QueueRequest::Await { timeout_ms: QUEUE_WAIT_MS });
        self.active = Some(id.to_owned());
        self.items = None;
        assert(requests.deep_view() =~= subscribe_requests(old(self)@.active, id@));
        requests
    }

    /// Caches a snapshot for the subscribed zone; `true` when a zone is
    /// subscribed and the snapshot was kept.
    pub fn store_snapshot(&mut self, items: Vec<QueueItem>) -> (kept: bool)
        ensures
            kept == (old(self)@.active is Some),
            final(self)@ == with_snapshot(old(self)@, items.deep_view()),
    {
        if self.active.is_some() {
            self.items = Some(items);
            true
        } else {
            false
        }
    }

    /// Applies a delta for zone `id`; `true` when it applied.
    pub fn apply_delta(&mut self, id: &str, changes: &Vec<QueueChange>) -> (applied: bool)
        ensures
            applied == delta_applies(old(self)@, id@),
            final(self)@ == with_delta(old(self)@, id@, changes.deep_view()),
    {
        if !self.is_active(id) {
            return false;
        }
        let ghost before = self@;
        let mut taken: Option<Vec<QueueItem>> = None;
        core::mem::swap(&mut taken, &mut self.items);
        match taken {
            Some(mut queue) => {
                let ghost start = queue.deep_view();
                let mut i: usize = 0;
                while i < changes.len()
                    invariant
                        i <= changes.len(),
                        queue.deep_view() == apply_changes(
                            start,
                            changes.deep_view().take(i as int),
                        ),
                    decreases changes.len() - i,
                {
                    proof {
                        let upto = changes.deep_view().take(i + 1);
                        assert(upto.drop_last() =~= changes.deep_view().take(i as int));
                        assert(upto.last() == changes[i as int]@);
                    }
                    apply_queue_change(&mut queue, &changes[i]);
                    i += 1;
                }
                assert(changes.deep_view().take(changes.len() as int) =~= changes.deep_view());
                self.items = Some(queue);
                true
            },
            None => false,
        }
    }

    /// The cached queue of zone `id`.
    pub fn queue_for(&self, id: &str) -> (items: Option<Vec<QueueItem>>)
        ensures
            items.deep_view() == cached_queue(self@, id@),
    {
        if !self.is_active(id) {
            return None;
        }
        match &self.items {
            Some(queue) => {
                let copy = queue.clone();
                assert(copy.deep_view() =~= queue.deep_view());
                Some(copy)
            },
            None => None,
        }
    }
}

} // verus!
