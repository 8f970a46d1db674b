//! The engine as a mathematical state machine: the state that the client
//! stands for, and what each event makes of it. The client's contracts are
//! stated over these functions, and the laws of the engine are proved of
//! them.

use vstd::prelude::*;

use crate::roon::debounce::cancel_task;
use crate::roon::debounce::deadline_after;
use crate::roon::debounce::distinct_tasks;
use crate::roon::debounce::kind_of;
use crate::roon::debounce::schedule_task;
use crate::roon::debounce::tasks_due;
use crate::roon::debounce::tasks_waiting;
use crate::roon::debounce::PendingView;
use crate::roon::debounce::SettleKind;
use crate::roon::debounce::DCS_UPDATE_DELAY_MS;
use crate::roon::debounce::STOP_BROADCAST_DELAY_MS;
use crate::roon::event::EffectView;
use crate::roon::event::EventView;
use crate::roon::event::ZoneSeekView;
use crate::roon::images::cache_wf;
use crate::roon::images::content_type_of;
use crate::roon::images::store_image;
use crate::roon::images::wants_image;
use crate::roon::images::CachedImageView;
use crate::roon::images::ImageCacheView;
use crate::roon::images::ImageDataView;
use crate::roon::queue::delta_applies;
use crate::roon::queue::with_delta;
use crate::roon::queue::with_snapshot;
use crate::roon::queue::QueueSubscriptionView;
use crate::roon::store::distinct_ids;
use crate::roon::store::patch_seek_zone;
use crate::roon::store::remove_zone;
use crate::roon::store::upsert_zone;
use crate::roon::view_model::is_premium_playing;
use crate::roon::view_model::view_models;
use crate::roon::view_model::WsMessageView;
use crate::roon::zone::State;
use crate::roon::zone::ZoneView;

verus! {

/// The side of the box that requested cover images are scaled to fit.
pub const IMAGE_SIZE: u32 = 300;

/// Everything the engine knows.
pub struct ClientView {
    pub connected: bool,
    pub core_name: Option<Seq<char>>,
    pub zones: Seq<ZoneView>,
    pub pending: Seq<PendingView>,
    pub images: ImageCacheView,
    pub queue: QueueSubscriptionView,
    pub has_transport: bool,
    pub has_image_service: bool,
    pub premium_prefix: Seq<char>,
}

impl ClientView {
    /// The state's invariant: one zone per identifier, one task per zone,
    /// one image per key, no image asked for twice.
    pub open spec fn wf(self) -> bool {
        &&& distinct_ids(self.zones)
        &&& distinct_tasks(self.pending)
        &&& cache_wf(self.images)
    }
}

/// The message that shows the whole picture as the state has it.
pub open spec fn zones_message(state: ClientView) -> WsMessageView {
    WsMessageView::ZonesChanged {
        now_playing: view_models(state.zones, None, state.premium_prefix),
        raw_zones: state.zones,
    }
}

/// The store after a batch of zones has been upserted, in order.
pub open spec fn upsert_all(zones: Seq<ZoneView>, batch: Seq<ZoneView>) -> Seq<ZoneView>
    decreases batch.len(),
{
    if batch.len() == 0 {
        zones
    } else {
        upsert_zone(upsert_all(zones, batch.drop_last()), batch.last())
    }
}

/// The store after the zones named by `ids` have been removed, in order.
pub open spec fn remove_all(zones: Seq<ZoneView>, ids: Seq<Seq<char>>) -> Seq<ZoneView>
    decreases ids.len(),
{
    if ids.len() == 0 {
        zones
    } else {
        remove_zone(remove_all(zones, ids.drop_last()), ids.last())
    }
}

/// The table after the tasks of the zones named by `ids` have been
/// cancelled.
pub open spec fn cancel_all(tasks: Seq<PendingView>, ids: Seq<Seq<char>>) -> Seq<PendingView>
    decreases ids.len(),
{
    if ids.len() == 0 {
        tasks
    } else {
        cancel_task(cancel_all(tasks, ids.drop_last()), ids.last())
    }
}

/// The store after the positions of a seek batch have been patched in, in
/// order.
pub open spec fn seek_all(zones: Seq<ZoneView>, seeks: Seq<ZoneSeekView>) -> Seq<ZoneView>
    decreases seeks.len(),
{
    if seeks.len() == 0 {
        zones
    } else {
        patch_seek_zone(
            seek_all(zones, seeks.drop_last()),
            seeks.last().zone_id,
            seeks.last().seek_position,
        )
    }
}

/// One seek message per entry of a seek batch, in order.
pub open spec fn seek_effects(seeks: Seq<ZoneSeekView>) -> Seq<EffectView> {
    Seq::new(
        seeks.len(),
        |i: int|
            EffectView::Broadcast(
                WsMessageView::SeekUpdated {
                    zone_id: seeks[i].zone_id,
                    seek_position: seeks[i].seek_position,
                    queue_time_remaining: seeks[i].queue_time_remaining,
                },
            ),
    )
}

/// The key of the cover image that a zone shows.
pub open spec fn image_key_of(zone: ZoneView) -> Option<Seq<char>> {
    match zone.now_playing {
        Some(playing) => playing.image_key,
        None => None,
    }
}

/// The cache after the cover images of a batch have been looked at, in
/// order: each key that is neither cached nor asked for is now asked for.
pub open spec fn request_keys(cache: ImageCacheView, batch: Seq<ZoneView>) -> ImageCacheView
    decreases batch.len(),
{
    if batch.len() == 0 {
        cache
    } else {
        let so_far = request_keys(cache, batch.drop_last());
        match image_key_of(batch.last()) {
            Some(key) => if wants_image(so_far, key) {
                ImageCacheView { requested: so_far.requested.push(key), ..so_far }
            } else {
                so_far
            },
            None => so_far,
        }
    }
}

/// One image request per key, in order.
pub open spec fn request_effects(keys: Seq<Seq<char>>) -> Seq<EffectView> {
    Seq::new(
        keys.len(),
        |i: int|
            EffectView::RequestImage { image_key: keys[i], width: IMAGE_SIZE, height: IMAGE_SIZE },
    )
}

/// What one zone of the snapshot does to the settle table. A zone that is
/// not stopped loses its waiting stop. A stopped zone whose stop waits
/// already loses it too (the stop was reported twice); any other stopped
/// zone gets a stop to wait for.
pub open spec fn settle_table(tasks: Seq<PendingView>, zone: ZoneView, stop_deadline: u64) -> Seq<
    PendingView,
> {
    if kind_of(tasks, zone.zone_id) == Some(SettleKind::StopSettle) {
        cancel_task(tasks, zone.zone_id)
    } else if zone.state == State::Stopped {
        schedule_task(
            tasks,
            PendingView {
                zone_id: zone.zone_id,
                kind: SettleKind::StopSettle,
                deadline: stop_deadline,
            },
        )
    } else {
        tasks
    }
}

/// What one zone of the snapshot asks of the host: a stop reported twice
/// is published at once, a first stop is scheduled, anything else asks
/// for nothing.
pub open spec fn settle_effect(
    tasks: Seq<PendingView>,
    zone: ZoneView,
    stop_deadline: u64,
    message: WsMessageView,
) -> Seq<EffectView> {
    if zone.state == State::Stopped {
        if kind_of(tasks, zone.zone_id) == Some(SettleKind::StopSettle) {
            seq![EffectView::Broadcast(message)]
        } else {
            seq![
                EffectView::Schedule {
                    zone_id: zone.zone_id,
                    kind: SettleKind::StopSettle,
                    deadline: stop_deadline,
                },
            ]
        }
    } else {
        Seq::empty()
    }
}

/// The settle table and the effects after every zone of the snapshot has
/// been looked at, in store order.
pub open spec fn settle_pass(
    zones: Seq<ZoneView>,
    tasks: Seq<PendingView>,
    stop_deadline: u64,
    message: WsMessageView,
) -> (Seq<PendingView>, Seq<EffectView>)
    decreases zones.len(),
{
    if zones.len() == 0 {
        (tasks, Seq::empty())
    } else {
        let (table, effects) = settle_pass(zones.drop_last(), tasks, stop_deadline, message);
        (
            settle_table(table, zones.last(), stop_deadline),
            effects + settle_effect(table, zones.last(), stop_deadline, message),
        )
    }
}

/// Some zone is not stopped.
pub open spec fn any_non_stop(zones: Seq<ZoneView>) -> bool {
    exists|i: int| 0 <= i < zones.len() && (#[trigger] zones[i]).state != State::Stopped
}

/// Some zone is not loading.
pub open spec fn any_non_loading(zones: Seq<ZoneView>) -> bool {
    exists|i: int| 0 <= i < zones.len() && (#[trigger] zones[i]).state != State::Loading
}

/// The identifier of the first playing premium zone at or after `from`.
pub open spec fn first_premium_from(zones: Seq<ZoneView>, prefix: Seq<char>, from: int) -> Option<
    Seq<char>,
>
    decreases zones.len() - from,
{
    if from < 0 || from >= zones.len() {
        None
    } else if is_premium_playing(zones[from], prefix) {
        Some(zones[from].zone_id)
    } else {
        first_premium_from(zones, prefix, from + 1)
    }
}

/// Is the snapshot worth publishing on account of its zones that are not
/// stopped? There must be one, and the snapshot must not consist of
/// loading zones alone.
pub open spec fn worth_publishing(zones: Seq<ZoneView>) -> bool {
    any_non_stop(zones) && any_non_loading(zones)
}

/// The last part of a zones update: a snapshot worth publishing is
/// published at once, unless a premium zone plays; then the publication
/// waits, in that zone's slot, for the device to settle.
pub open spec fn publish_step(
    zones: Seq<ZoneView>,
    tasks: Seq<PendingView>,
    prefix: Seq<char>,
    format_deadline: u64,
    message: WsMessageView,
) -> (Seq<PendingView>, Seq<EffectView>) {
    if worth_publishing(zones) {
        match first_premium_from(zones, prefix, 0) {
            Some(id) => (
                schedule_task(
                    tasks,
                    PendingView {
                        zone_id: id,
                        kind: SettleKind::FormatSettle,
                        deadline: format_deadline,
                    },
                ),
                seq![
                    EffectView::Schedule {
                        zone_id: id,
                        kind: SettleKind::FormatSettle,
                        deadline: format_deadline,
                    },
                ],
            ),
            None => (tasks, seq![EffectView::Broadcast(message)]),
        }
    } else {
        (tasks, Seq::empty())
    }
}

/// The image cache after a batch of zones, which asks for images only
/// while the image service is there.
pub open spec fn cache_after_batch(state: ClientView, batch: Seq<ZoneView>) -> ImageCacheView {
    if state.has_image_service {
        request_keys(state.images, batch)
    } else {
        state.images
    }
}

/// The keys that a batch of zones makes the engine ask for.
pub open spec fn keys_asked(state: ClientView, batch: Seq<ZoneView>) -> Seq<Seq<char>> {
    let after = cache_after_batch(state, batch).requested;
    after.subrange(state.images.requested.len() as int, after.len() as int)
}

/// A batch of changed zones arrives at `now`.
pub open spec fn step_zones(state: ClientView, batch: Seq<ZoneView>, now: u64) -> (
    ClientView,
    Seq<EffectView>,
) {
    let stored = ClientView {
        zones: upsert_all(state.zones, batch),
        images: cache_after_batch(state, batch),
        ..state
    };
    let message = zones_message(stored);
    let (settled, settle_effects) = settle_pass(
        stored.zones,
        state.pending,
        deadline_after(now, STOP_BROADCAST_DELAY_MS),
        message,
    );
    let (table, publish_effects) = publish_step(
        stored.zones,
        settled,
        state.premium_prefix,
        deadline_after(now, DCS_UPDATE_DELAY_MS),
        message,
    );
    (
        ClientView { pending: table, ..stored },
        request_effects(keys_asked(state, batch)) + settle_effects + publish_effects,
    )
}

/// A batch of removed zones arrives: the zones go, their tasks with them,
/// and the new picture is published at once.
pub open spec fn step_removed(state: ClientView, ids: Seq<Seq<char>>) -> (
    ClientView,
    Seq<EffectView>,
) {
    let after = ClientView {
        zones: remove_all(state.zones, ids),
        pending: cancel_all(state.pending, ids),
        ..state
    };
    (after, seq![EffectView::Broadcast(zones_message(after))])
}

/// A batch of seek positions arrives: each is patched in and published by
/// itself.
pub open spec fn step_seek(state: ClientView, seeks: Seq<ZoneSeekView>) -> (
    ClientView,
    Seq<EffectView>,
) {
    (ClientView { zones: seek_all(state.zones, seeks), ..state }, seek_effects(seeks))
}

/// The core accepted the registration.
pub open spec fn step_registered(
    state: ClientView,
    core_name: Seq<char>,
    transport: bool,
    image: bool,
) -> (ClientView, Seq<EffectView>) {
    let connected = seq![
        EffectView::Broadcast(WsMessageView::ConnectionChanged { connected: true }),
    ];
    (
        ClientView {
            connected: true,
            core_name: Some(core_name),
            has_transport: state.has_transport || transport,
            has_image_service: state.has_image_service || image,
            ..state
        },
        if transport {
            connected.push(EffectView::SubscribeZones)
        } else {
            connected
        },
    )
}

/// The connection to the core is gone: every zone is forgotten, and with
/// the zones their tasks.
pub open spec fn step_lost(state: ClientView) -> (ClientView, Seq<EffectView>) {
    (
        ClientView {
            connected: false,
            core_name: None,
            zones: Seq::empty(),
            pending: Seq::empty(),
            has_transport: false,
            has_image_service: false,
            ..state
        },
        seq![EffectView::Broadcast(WsMessageView::ConnectionChanged { connected: false })],
    )
}

/// The snapshot of the subscribed queue arrives.
pub open spec fn step_queue(
    state: ClientView,
    items: Seq<crate::roon::queue::QueueItemView>,
) -> (ClientView, Seq<EffectView>) {
    match state.queue.active {
        Some(id) => (
            ClientView { queue: with_snapshot(state.queue, items), ..state },
            seq![
                EffectView::NotifyQueueReady,
                EffectView::Broadcast(WsMessageView::QueueChanged { zone_id: id }),
            ],
        ),
        None => (state, Seq::empty()),
    }
}

/// A delta of the subscribed queue arrives.
pub open spec fn step_queue_changes(
    state: ClientView,
    changes: Seq<crate::roon::queue::QueueChangeView>,
) -> (ClientView, Seq<EffectView>) {
    match state.queue.active {
        Some(id) => if delta_applies(state.queue, id) {
            (
                ClientView { queue: with_delta(state.queue, id, changes), ..state },
                seq![EffectView::Broadcast(WsMessageView::QueueChanged { zone_id: id })],
            )
        } else {
            (state, Seq::empty())
        },
        None => (state, Seq::empty()),
    }
}

/// An image arrives and is cached under its key.
pub open spec fn step_image(
    state: ClientView,
    image_key: Seq<char>,
    format: crate::roon::images::ImageFormat,
    data: Seq<u8>,
) -> (ClientView, Seq<EffectView>) {
    let entry = CachedImageView {
        key: image_key,
        image: ImageDataView { content_type: content_type_of(format), data },
    };
    (
        ClientView {
            images: ImageCacheView {
                entries: store_image(state.images.entries, entry),
                ..state.images
            },
            ..state
        },
        Seq::empty(),
    )
}

/// What an event that arrives at `now` makes of the state, and what it
/// asks of the host.
pub open spec fn step(state: ClientView, event: EventView, now: u64) -> (
    ClientView,
    Seq<EffectView>,
) {
    match event {
        EventView::Registered { core_name, transport, image } => step_registered(
            state,
            core_name,
            transport,
            image,
        ),
        EventView::Lost => step_lost(state),
        EventView::Zones(batch) => step_zones(state, batch, now),
        EventView::ZonesRemoved(ids) => step_removed(state, ids),
        EventView::ZonesSeek(seeks) => step_seek(state, seeks),
        EventView::Queue(items) => step_queue(state, items),
        EventView::QueueChanges(changes) => step_queue_changes(state, changes),
        EventView::Image { image_key, format, data } => step_image(state, image_key, format, data),
        EventView::Unrecognized => (state, Seq::empty()),
    }
}

/// The deadlines that have come at `now` fire: each due task leaves the
/// table and publishes the picture as it is at this moment.
pub open spec fn fire_due_step(state: ClientView, now: u64) -> (ClientView, Seq<EffectView>) {
    (
        ClientView { pending: tasks_waiting(state.pending, now), ..state },
        Seq::new(
            tasks_due(state.pending, now).len(),
            |i: int| EffectView::Broadcast(zones_message(state)),
        ),
    )
}

} // verus!
