//! Runs of the engine: what a sequence of inputs makes of a state, that
//! the state's invariant survives every input, and that no image is asked
//! for twice in a run.

use vstd::prelude::*;

use crate::roon::debounce::distinct_tasks;
use crate::roon::debounce::lemma_cancel;
use crate::roon::debounce::lemma_schedule;
use crate::roon::debounce::lemma_waiting_distinct;
use crate::roon::debounce::PendingView;
use crate::roon::debounce::SettleKind;
use crate::roon::event::EffectView;
use crate::roon::event::EventView;
use crate::roon::event::ZoneSeekView;
use crate::roon::images::cache_wf;
use crate::roon::images::lemma_store_image;
use crate::roon::images::wants_image;
use crate::roon::images::CachedImageView;
use crate::roon::images::ImageCacheView;
use crate::roon::images::ImageDataView;
use crate::roon::model::cache_after_batch;
use crate::roon::model::cancel_all;
use crate::roon::model::fire_due_step;
use crate::roon::model::image_key_of;
use crate::roon::model::keys_asked;
use crate::roon::model::publish_step;
use crate::roon::model::remove_all;
use crate::roon::model::request_effects;
use crate::roon::model::request_keys;
use crate::roon::model::seek_all;
use crate::roon::model::settle_effect;
use crate::roon::model::settle_pass;
use crate::roon::model::settle_table;
use crate::roon::model::step;
use crate::roon::model::step_zones;
use crate::roon::model::upsert_all;
use crate::roon::model::ClientView;
use crate::roon::model::IMAGE_SIZE;
use crate::roon::store::distinct_ids;
use crate::roon::store::lemma_patch_keeps_distinct;
use crate::roon::store::lemma_remove_keeps_distinct;
use crate::roon::store::lemma_upsert_keeps_distinct;
use crate::roon::view_model::WsMessageView;
use crate::roon::zone::ZoneView;

verus! {

/// One thing that happens to the engine.
pub enum Input {
    /// An upstream event arrives at `now`.
    Incoming { event: EventView, now: u64 },
    /// The host reports that the clock has reached `now`.
    Deadline { now: u64 },
}

/// What one input makes of the state, and what it asks of the host.
pub open spec fn advance(state: ClientView, input: Input) -> (ClientView, Seq<EffectView>) {
    match input {
        Input::Incoming { event, now } => step(state, event, now),
        Input::Deadline { now } => fire_due_step(state, now),
    }
}

/// What a sequence of inputs makes of the state, and everything it asks of
/// the host, in order.
pub open spec fn run(state: ClientView, inputs: Seq<Input>) -> (ClientView, Seq<EffectView>)
    decreases inputs.len(),
{
    if inputs.len() == 0 {
        (state, Seq::empty())
    } else {
        let (before, asked) = run(state, inputs.drop_last());
        let (after, more) = advance(before, inputs.last());
        (after, asked + more)
    }
}

/// The keys of the image requests among `effects`, in order.
pub open spec fn image_requests(effects: Seq<EffectView>) -> Seq<Seq<char>>
    decreases effects.len(),
{
    if effects.len() == 0 {
        Seq::empty()
    } else {
        let rest = image_requests(effects.drop_last());
        match effects.last() {
            EffectView::RequestImage { image_key, width, height } => rest.push(image_key),
            _ => rest,
        }
    }
}

/// Upserting a batch keeps identifiers distinct.
pub proof fn lemma_upsert_all_distinct(zones: Seq<ZoneView>, batch: Seq<ZoneView>)
    requires
        distinct_ids(zones),
    ensures
        distinct_ids(upsert_all(zones, batch)),
    decreases batch.len(),
{
    if batch.len() > 0 {
        lemma_upsert_all_distinct(zones, batch.drop_last());
        lemma_upsert_keeps_distinct(upsert_all(zones, batch.drop_last()), batch.last());
    }
}

/// Removing a batch keeps identifiers distinct.
pub proof fn lemma_remove_all_distinct(zones: Seq<ZoneView>, ids: Seq<Seq<char>>)
    requires
        distinct_ids(zones),
    ensures
        distinct_ids(remove_all(zones, ids)),
    decreases ids.len(),
{
    if ids.len() > 0 {
        lemma_remove_all_distinct(zones, ids.drop_last());
        lemma_remove_keeps_distinct(remove_all(zones, ids.drop_last()), ids.last());
    }
}

/// Patching a batch of positions keeps identifiers distinct.
pub proof fn lemma_seek_all_distinct(zones: Seq<ZoneView>, seeks: Seq<ZoneSeekView>)
    requires
        distinct_ids(zones),
    ensures
        distinct_ids(seek_all(zones, seeks)),
    decreases seeks.len(),
{
    if seeks.len() > 0 {
        lemma_seek_all_distinct(zones, seeks.drop_last());
        lemma_patch_keeps_distinct(
            seek_all(zones, seeks.drop_last()),
            seeks.last().zone_id,
            seeks.last().seek_position,
        );
    }
}

/// Cancelling a batch keeps one task per zone.
pub proof fn lemma_cancel_all_distinct(tasks: Seq<PendingView>, ids: Seq<Seq<char>>)
    requires
        distinct_tasks(tasks),
    ensures
        distinct_tasks(cancel_all(tasks, ids)),
    decreases ids.len(),
{
    if ids.len() > 0 {
        lemma_cancel_all_distinct(tasks, ids.drop_last());
        lemma_cancel(cancel_all(tasks, ids.drop_last()), ids.last());
    }
}

/// Settling one zone keeps one task per zone.
pub proof fn lemma_settle_table_distinct(tasks: Seq<PendingView>, zone: ZoneView, deadline: u64)
    requires
        distinct_tasks(tasks),
    ensures
        distinct_tasks(settle_table(tasks, zone, deadline)),
{
    lemma_cancel(tasks, zone.zone_id);
    lemma_schedule(
        tasks,
        PendingView { zone_id: zone.zone_id, kind: SettleKind::StopSettle, deadline },
    );
}

/// The settle pass keeps one task per zone.
pub proof fn lemma_settle_pass_distinct(
    zones: Seq<ZoneView>,
    tasks: Seq<PendingView>,
    deadline: u64,
    message: WsMessageView,
)
    requires
        distinct_tasks(tasks),
    ensures
        distinct_tasks(settle_pass(zones, tasks, deadline, message).0),
    decreases zones.len(),
{
    if zones.len() > 0 {
        lemma_settle_pass_distinct(zones.drop_last(), tasks, deadline, message);
        lemma_settle_table_distinct(
            settle_pass(zones.drop_last(), tasks, deadline, message).0,
            zones.last(),
            deadline,
        );
    }
}

/// The publish step keeps one task per zone.
pub proof fn lemma_publish_distinct(
    zones: Seq<ZoneView>,
    tasks: Seq<PendingView>,
    prefix: Seq<char>,
    deadline: u64,
    message: WsMessageView,
)
    requires
        distinct_tasks(tasks),
    ensures
        distinct_tasks(publish_step(zones, tasks, prefix, deadline, message).0),
{
    match crate::roon::model::first_premium_from(zones, prefix, 0) {
        Some(id) => {
            lemma_schedule(
                tasks,
                PendingView { zone_id: id, kind: SettleKind::FormatSettle, deadline },
            );
        },
        None => {},
    }
}

/// Looking at the cover images of a batch keeps the cache's invariant,
/// leaves the cached images alone, and only adds to what was asked for.
pub proof fn lemma_request_keys(cache: ImageCacheView, batch: Seq<ZoneView>)
    requires
        cache_wf(cache),
    ensures
        cache_wf(request_keys(cache, batch)),
        request_keys(cache, batch).entries == cache.entries,
        cache.requested.len() <= request_keys(cache, batch).requested.len(),
        request_keys(cache, batch).requested.subrange(0, cache.requested.len() as int)
            == cache.requested,
    decreases batch.len(),
{
    if batch.len() == 0 {
        assert(cache.requested.subrange(0, cache.requested.len() as int) =~= cache.requested);
    } else {
        lemma_request_keys(cache, batch.drop_last());
        let so_far = request_keys(cache, batch.drop_last());
        let after = request_keys(cache, batch);
        match image_key_of(batch.last()) {
            Some(key) => {
                if wants_image(so_far, key) {
                    assert(after.requested == so_far.requested.push(key));
                    assert forall|i: int, j: int|
                        0 <= i < after.requested.len() && 0 <= j < after.requested.len() && i
                            != j implies after.requested[i] != after.requested[j] by {
                        if i < so_far.requested.len() && j < so_far.requested.len() {
                            assert(so_far.requested[i] != so_far.requested[j]);
                        } else if i < so_far.requested.len() {
                            assert(so_far.requested.contains(so_far.requested[i]));
                        } else {
                            assert(so_far.requested.contains(so_far.requested[j]));
                        }
                    }
                    assert(after.requested.subrange(0, cache.requested.len() as int)
                        =~= so_far.requested.subrange(0, cache.requested.len() as int));
                }
            },
            None => {},
        }
    }
}

/// Every event leaves the state's invariant in place.
pub proof fn lemma_step_keeps_wf(state: ClientView, event: EventView, now: u64)
    requires
        state.wf(),
    ensures
        step(state, event, now).0.wf(),
{
    match event {
        EventView::Zones(batch) => {
            lemma_step_zones_keeps_wf(state, batch, now);
        },
        EventView::ZonesRemoved(ids) => {
            lemma_remove_all_distinct(state.zones, ids);
            lemma_cancel_all_distinct(state.pending, ids);
        },
        EventView::ZonesSeek(seeks) => {
            lemma_seek_all_distinct(state.zones, seeks);
        },
        EventView::Image { image_key, format, data } => {
            lemma_store_image(
                state.images.entries,
                CachedImageView {
                    key: image_key,
                    image: ImageDataView {
                        content_type: crate::roon::images::content_type_of(format),
                        data,
                    },
                },
            );
        },
        _ => {},
    }
}

/// A batch of changed zones leaves the state's invariant in place.
pub proof fn lemma_step_zones_keeps_wf(state: ClientView, batch: Seq<ZoneView>, now: u64)
    requires
        state.wf(),
    ensures
        step_zones(state, batch, now).0.wf(),
{
    lemma_upsert_all_distinct(state.zones, batch);
    lemma_request_keys(state.images, batch);
    let stored = ClientView {
        zones: upsert_all(state.zones, batch),
        images: cache_after_batch(state, batch),
        ..state
    };
    let message = crate::roon::model::zones_message(stored);
    let stop_deadline = crate::roon::debounce::deadline_after(
        now,
        crate::roon::debounce::STOP_BROADCAST_DELAY_MS,
    );
    let format_deadline = crate::roon::debounce::deadline_after(
        now,
        crate::roon::debounce::DCS_UPDATE_DELAY_MS,
    );
    lemma_settle_pass_distinct(stored.zones, state.pending, stop_deadline, message);
    let settled = settle_pass(stored.zones, state.pending, stop_deadline, message).0;
    lemma_publish_distinct(stored.zones, settled, state.premium_prefix, format_deadline, message);
}

/// Every input leaves the state's invariant in place.
pub proof fn lemma_advance_keeps_wf(state: ClientView, input: Input)
    requires
        state.wf(),
    ensures
        advance(state, input).0.wf(),
{
    match input {
        Input::Incoming { event, now } => {
            lemma_step_keeps_wf(state, event, now);
        },
        Input::Deadline { now } => {
            lemma_waiting_distinct(state.pending, now);
        },
    }
}

/// A run leaves the state's invariant in place.
pub proof fn lemma_run_keeps_wf(state: ClientView, inputs: Seq<Input>)
    requires
        state.wf(),
    ensures
        run(state, inputs).0.wf(),
    decreases inputs.len(),
{
    if inputs.len() > 0 {
        lemma_run_keeps_wf(state, inputs.drop_last());
        lemma_advance_keeps_wf(run(state, inputs.drop_last()).0, inputs.last());
    }
}

/// Is the effect a request for an image?
pub open spec fn is_image_request(effect: EffectView) -> bool {
    effect is RequestImage
}

/// Effects without image requests name no keys.
pub proof fn lemma_no_requests(effects: Seq<EffectView>)
    requires
        forall|i: int| 0 <= i < effects.len() ==> !is_image_request(#[trigger] effects[i]),
    ensures
        image_requests(effects) == Seq::<Seq<char>>::empty(),
    decreases effects.len(),
{
    if effects.len() > 0 {
        let rest = effects.drop_last();
        assert forall|i: int| 0 <= i < rest.len() implies !is_image_request(#[trigger] rest[i]) by {
            assert(rest[i] == effects[i]);
        }
        lemma_no_requests(rest);
        assert(!is_image_request(effects[effects.len() - 1]));
    }
}

/// The keys of two runs of effects, one after the other.
pub proof fn lemma_requests_concat(first: Seq<EffectView>, second: Seq<EffectView>)
    ensures
        image_requests(first + second) == image_requests(first) + image_requests(second),
    decreases second.len(),
{
    if second.len() == 0 {
        assert(first + second =~= first);
        assert(image_requests(first) + image_requests(second) =~= image_requests(first));
    } else {
        let whole = first + second;
        assert(whole.drop_last() =~= first + second.drop_last());
        assert(whole.last() == second.last());
        lemma_requests_concat(first, second.drop_last());
        let rest = image_requests(second.drop_last());
        match second.last() {
            EffectView::RequestImage { image_key, width, height } => {
                assert(image_requests(first) + rest.push(image_key) =~= (image_requests(first)
                    + rest).push(image_key));
            },
            _ => {},
        }
    }
}

/// The keys of the requests made for `keys` are `keys`.
pub proof fn lemma_requests_of_keys(keys: Seq<Seq<char>>)
    ensures
        image_requests(request_effects(keys)) == keys,
    decreases keys.len(),
{
    let effects = request_effects(keys);
    if keys.len() == 0 {
        assert(image_requests(effects) =~= keys);
    } else {
        assert(effects.drop_last() =~= request_effects(keys.drop_last()));
        lemma_requests_of_keys(keys.drop_last());
        assert(effects.last() == EffectView::RequestImage {
            image_key: keys.last(),
            width: IMAGE_SIZE,
            height: IMAGE_SIZE,
        });
        assert(keys.drop_last().push(keys.last()) =~= keys);
    }
}

/// The settle pass asks for no image.
pub proof fn lemma_settle_asks_no_image(
    zones: Seq<ZoneView>,
    tasks: Seq<PendingView>,
    deadline: u64,
    message: WsMessageView,
)
    ensures
        forall|i: int|
            0 <= i < settle_pass(zones, tasks, deadline, message).1.len() ==> !is_image_request(
                #[trigger] settle_pass(zones, tasks, deadline, message).1[i],
            ),
    decreases zones.len(),
{
    let effects = settle_pass(zones, tasks, deadline, message).1;
    if zones.len() > 0 {
        lemma_settle_asks_no_image(zones.drop_last(), tasks, deadline, message);
        let (table, earlier) = settle_pass(zones.drop_last(), tasks, deadline, message);
        let last = settle_effect(table, zones.last(), deadline, message);
        assert(effects == earlier + last);
        assert forall|i: int| 0 <= i < effects.len() implies !is_image_request(
            #[trigger] effects[i],
        ) by {
            if i < earlier.len() {
                assert(effects[i] == earlier[i]);
            } else {
                assert(effects[i] == last[i - earlier.len()]);
            }
        }
    }
}

/// Every event adds to the keys asked for exactly the keys of the image
/// requests among its effects.
pub proof fn lemma_step_requests(state: ClientView, event: EventView, now: u64)
    requires
        state.wf(),
    ensures
        step(state, event, now).0.images.requested == state.images.requested + image_requests(
            step(state, event, now).1,
        ),
{
    let (after, effects) = step(state, event, now);
    match event {
        EventView::Zones(batch) => {
            lemma_request_keys(state.images, batch);
            let stored = ClientView {
                zones: upsert_all(state.zones, batch),
                images: cache_after_batch(state, batch),
                ..state
            };
            let message = crate::roon::model::zones_message(stored);
            let stop_deadline = crate::roon::debounce::deadline_after(
                now,
                crate::roon::debounce::STOP_BROADCAST_DELAY_MS,
            );
            let format_deadline = crate::roon::debounce::deadline_after(
                now,
                crate::roon::debounce::DCS_UPDATE_DELAY_MS,
            );
            let (settled, settle_effects) = settle_pass(
                stored.zones,
                state.pending,
                stop_deadline,
                message,
            );
            let (table, publish_effects) = publish_step(
                stored.zones,
                settled,
                state.premium_prefix,
                format_deadline,
                message,
            );
            let keys = keys_asked(state, batch);
            lemma_settle_asks_no_image(stored.zones, state.pending, stop_deadline, message);
            lemma_no_requests(settle_effects);
            lemma_no_requests(publish_effects);
            lemma_requests_of_keys(keys);
            lemma_requests_concat(request_effects(keys), settle_effects);
            lemma_requests_concat(request_effects(keys) + settle_effects, publish_effects);
            assert(image_requests(effects) =~= keys);
            let asked = after.images.requested;
            assert(asked =~= asked.subrange(0, state.images.requested.len() as int) + keys);
        },
        _ => {
            lemma_no_requests(effects);
            assert(state.images.requested + image_requests(effects) =~= state.images.requested);
        },
    }
}

/// Every input adds to the keys asked for exactly the keys of the image
/// requests among its effects.
pub proof fn lemma_advance_requests(state: ClientView, input: Input)
    requires
        state.wf(),
    ensures
        advance(state, input).0.images.requested == state.images.requested + image_requests(
            advance(state, input).1,
        ),
{
    match input {
        Input::Incoming { event, now } => {
            lemma_step_requests(state, event, now);
        },
        Input::Deadline { now } => {
            lemma_no_requests(advance(state, input).1);
            assert(state.images.requested + image_requests(advance(state, input).1)
                =~= state.images.requested);
        },
    }
}

/// However many zone updates name an image, and whatever else happens in
/// between, a run asks for each image at most once, and never for one that
/// had been asked for before the run.
pub proof fn law_image_asked_once(state: ClientView, inputs: Seq<Input>)
    requires
        state.wf(),
    ensures
        run(state, inputs).0.images.requested == state.images.requested + image_requests(
            run(state, inputs).1,
        ),
        image_requests(run(state, inputs).1).no_duplicates(),
        forall|i: int|
            0 <= i < image_requests(run(state, inputs).1).len()
                ==> !state.images.requested.contains(
                #[trigger] image_requests(run(state, inputs).1)[i],
            ),
    decreases inputs.len(),
{
    let (after, effects) = run(state, inputs);
    let keys = image_requests(effects);
    let asked = state.images.requested;
    if inputs.len() == 0 {
        assert(asked + keys =~= asked);
    } else {
        let (before, earlier) = run(state, inputs.drop_last());
        let (next, more) = advance(before, inputs.last());
        law_image_asked_once(state, inputs.drop_last());
        lemma_run_keeps_wf(state, inputs.drop_last());
        lemma_advance_requests(before, inputs.last());
        lemma_requests_concat(earlier, more);
        assert(after.images.requested =~= asked + keys);
    }
    lemma_run_keeps_wf(state, inputs);
    let all = after.images.requested;
    assert(all.no_duplicates());
    assert forall|i: int, j: int| 0 <= i < keys.len() && 0 <= j < keys.len() && i != j implies keys[i]
        != keys[j] by {
        assert(all[asked.len() + i] == keys[i]);
        assert(all[asked.len() + j] == keys[j]);
    }
    assert forall|i: int| 0 <= i < keys.len() implies !asked.contains(#[trigger] keys[i]) by {
        if asked.contains(keys[i]) {
            let k = choose|k: int| 0 <= k < asked.len() && asked[k] == keys[i];
            assert(all[k] == asked[k]);
            assert(all[asked.len() + i] == keys[i]);
        }
    }
}

/// A run in two parts is the first part, then the second from where the
/// first ended: what the earlier inputs ask for comes, in order, before
/// what the later inputs ask for.
pub proof fn law_run_in_order(state: ClientView, earlier: Seq<Input>, later: Seq<Input>)
    ensures
        run(state, earlier + later).0 == run(run(state, earlier).0, later).0,
        run(state, earlier + later).1 == run(state, earlier).1 + run(
            run(state, earlier).0,
            later,
        ).1,
    decreases later.len(),
{
    let middle = run(state, earlier).0;
    if later.len() == 0 {
        assert(earlier + later =~= earlier);
        assert(run(state, earlier).1 + run(middle, later).1 =~= run(state, earlier).1);
    } else {
        let whole = earlier + later;
        assert(whole.drop_last() =~= earlier + later.drop_last());
        assert(whole.last() == later.last());
        law_run_in_order(state, earlier, later.drop_last());
        let before = run(middle, later.drop_last());
        let more = advance(before.0, later.last()).1;
        assert(run(state, earlier).1 + (before.1 + more) =~= (run(state, earlier).1 + before.1)
            + more);
    }
}

} // verus!
