//! What the settle table guarantees: a stop that is taken back in time is
//! never shown, a stop reported twice is shown at once, and a picture of
//! loading zones alone is not shown at all.

use vstd::prelude::*;

use crate::roon::debounce::deadline_after;
use crate::roon::debounce::distinct_tasks;
use crate::roon::debounce::has_task;
use crate::roon::debounce::kind_of;
use crate::roon::debounce::lemma_cancel;
use crate::roon::debounce::lemma_nothing_due;
use crate::roon::debounce::lemma_schedule;
use crate::roon::debounce::lemma_task_at;
use crate::roon::debounce::lemma_waiting_distinct;
use crate::roon::debounce::schedule_task;
use crate::roon::debounce::task_of;
use crate::roon::debounce::task_position;
use crate::roon::debounce::tasks_due;
use crate::roon::debounce::tasks_waiting;
use crate::roon::debounce::PendingView;
use crate::roon::debounce::SettleKind;
use crate::roon::debounce::DCS_UPDATE_DELAY_MS;
use crate::roon::debounce::STOP_BROADCAST_DELAY_MS;
use crate::roon::event::EffectView;
use crate::roon::event::EventView;
use crate::roon::model::any_non_loading;
use crate::roon::model::cancel_all;
use crate::roon::model::remove_all;
use crate::roon::model::step;
use crate::roon::model::step_removed;
use crate::roon::store::lemma_remove_keeps_distinct;
use crate::roon::trace::advance;
use crate::roon::trace::lemma_run_keeps_wf;
use crate::roon::trace::run;
use crate::roon::trace::Input;
use crate::roon::model::any_non_stop;
use crate::roon::model::cache_after_batch;
use crate::roon::model::fire_due_step;
use crate::roon::model::first_premium_from;
use crate::roon::model::keys_asked;
use crate::roon::model::publish_step;
use crate::roon::model::request_effects;
use crate::roon::model::settle_effect;
use crate::roon::model::settle_pass;
use crate::roon::model::settle_table;
use crate::roon::model::step_zones;
use crate::roon::model::upsert_all;
use crate::roon::model::worth_publishing;
use crate::roon::model::zones_message;
use crate::roon::model::ClientView;
use crate::roon::store::distinct_ids;
use crate::roon::store::has_zone;
use crate::roon::store::lemma_position_of_entry;
use crate::roon::store::lemma_upsert_keeps_distinct;
use crate::roon::store::upsert_zone;
use crate::roon::store::zone_position;
use crate::roon::trace::lemma_step_zones_keeps_wf;
use crate::roon::trace::lemma_settle_pass_distinct;
use crate::roon::view_model::is_premium_playing;
use crate::roon::view_model::view_models;
use crate::roon::view_model::WsMessageView;
use crate::roon::zone::lemma_state_names_differ;
use crate::roon::zone::state_name_spec;
use crate::roon::zone::State;
use crate::roon::zone::ZoneView;

verus! {

/// What the settle pass makes of the slot of one zone of the snapshot.
pub open spec fn settled_slot(before: Option<PendingView>, zone: ZoneView, stop_deadline: u64)
    -> Option<PendingView> {
    let waits_for_stop = match before {
        Some(task) => task.kind == SettleKind::StopSettle,
        None => false,
    };
    if waits_for_stop {
        None
    } else if zone.state == State::Stopped {
        Some(
            PendingView {
                zone_id: zone.zone_id,
                kind: SettleKind::StopSettle,
                deadline: stop_deadline,
            },
        )
    } else {
        before
    }
}

/// Some stopped zone of the snapshot has a stop waiting already.
pub open spec fn stop_reported_twice(zones: Seq<ZoneView>, tasks: Seq<PendingView>) -> bool {
    exists|i: int|
        0 <= i < zones.len() && (#[trigger] zones[i]).state == State::Stopped && kind_of(
            tasks,
            zones[i].zone_id,
        ) == Some(SettleKind::StopSettle)
}

/// The message shows the zone `id` as stopped.
pub open spec fn shows_stopped(message: WsMessageView, id: Seq<char>) -> bool {
    match message {
        WsMessageView::ZonesChanged { now_playing, raw_zones } => exists|k: int|
            0 <= k < now_playing.len() && (#[trigger] now_playing[k]).zone_id == id
                && now_playing[k].state == state_name_spec(State::Stopped),
        _ => false,
    }
}

/// Some effect publishes a message that shows the zone `id` as stopped.
pub open spec fn publishes_stopped(effects: Seq<EffectView>, id: Seq<char>) -> bool {
    exists|i: int|
        0 <= i < effects.len() && (match #[trigger] effects[i] {
            EffectView::Broadcast(message) => shows_stopped(message, id),
            _ => false,
        })
}

/// Some effect publishes a message.
pub open spec fn publishes(effects: Seq<EffectView>) -> bool {
    exists|i: int| 0 <= i < effects.len() && (#[trigger] effects[i]) is Broadcast
}

/// Settling one zone changes that zone's slot and no other.
pub proof fn lemma_settle_table(tasks: Seq<PendingView>, zone: ZoneView, stop_deadline: u64)
    requires
        distinct_tasks(tasks),
    ensures
        distinct_tasks(settle_table(tasks, zone, stop_deadline)),
        task_of(settle_table(tasks, zone, stop_deadline), zone.zone_id) == settled_slot(
            task_of(tasks, zone.zone_id),
            zone,
            stop_deadline,
        ),
        forall|other: Seq<char>|
            other != zone.zone_id ==> #[trigger] task_of(
                settle_table(tasks, zone, stop_deadline),
                other,
            ) == task_of(tasks, other),
{
    lemma_cancel(tasks, zone.zone_id);
    lemma_schedule(
        tasks,
        PendingView {
            zone_id: zone.zone_id,
            kind: SettleKind::StopSettle,
            deadline: stop_deadline,
        },
    );
}

/// The settle pass makes of each zone's slot what `settled_slot` says, and
/// leaves the slots of zones outside the snapshot alone.
pub proof fn lemma_settle_pass_slots(
    zones: Seq<ZoneView>,
    tasks: Seq<PendingView>,
    stop_deadline: u64,
    message: WsMessageView,
)
    requires
        distinct_ids(zones),
        distinct_tasks(tasks),
    ensures
        distinct_tasks(settle_pass(zones, tasks, stop_deadline, message).0),
        forall|i: int|
            0 <= i < zones.len() ==> task_of(
                settle_pass(zones, tasks, stop_deadline, message).0,
                (#[trigger] zones[i]).zone_id,
            ) == settled_slot(task_of(tasks, zones[i].zone_id), zones[i], stop_deadline),
        forall|id: Seq<char>|
            !has_zone(zones, id) ==> #[trigger] task_of(
                settle_pass(zones, tasks, stop_deadline, message).0,
                id,
            ) == task_of(tasks, id),
    decreases zones.len(),
{
    let after = settle_pass(zones, tasks, stop_deadline, message).0;
    if zones.len() > 0 {
        let rest = zones.drop_last();
        let last = zones.last();
        assert forall|i: int, j: int| 0 <= i < j < rest.len() implies (#[trigger] rest[i]).zone_id
            != (#[trigger] rest[j]).zone_id by {
            assert(zones[i].zone_id != zones[j].zone_id);
        }
        lemma_settle_pass_slots(rest, tasks, stop_deadline, message);
        let table = settle_pass(rest, tasks, stop_deadline, message).0;
        lemma_settle_table(table, last, stop_deadline);
        // The last zone's identifier is none of the rest's.
        assert forall|k: int| 0 <= k < rest.len() implies (#[trigger] rest[k]).zone_id
            != last.zone_id by {
            assert(zones[k].zone_id != zones[zones.len() - 1].zone_id);
        }
        assert(!has_zone(rest, last.zone_id));
        assert(task_of(table, last.zone_id) == task_of(tasks, last.zone_id));
        assert forall|i: int| 0 <= i < zones.len() implies task_of(
            after,
            (#[trigger] zones[i]).zone_id,
        ) == settled_slot(task_of(tasks, zones[i].zone_id), zones[i], stop_deadline) by {
            if i < rest.len() {
                assert(rest[i] == zones[i]);
                assert(rest[i].zone_id != last.zone_id);
                assert(task_of(after, rest[i].zone_id) == task_of(table, rest[i].zone_id));
            }
        }
        assert forall|id: Seq<char>| !has_zone(zones, id) implies #[trigger] task_of(after, id)
            == task_of(tasks, id) by {
            assert(zones[zones.len() - 1].zone_id != id);
            if has_zone(rest, id) {
                let k = zone_position(rest, id);
                assert(zones[k].zone_id == id);
            }
            assert(task_of(after, id) == task_of(table, id));
        }
    }
}

/// The settle pass publishes when a stop was reported twice and only then,
/// and what it publishes is the message it was given.
pub proof fn lemma_settle_pass_effects(
    zones: Seq<ZoneView>,
    tasks: Seq<PendingView>,
    stop_deadline: u64,
    message: WsMessageView,
)
    requires
        distinct_ids(zones),
        distinct_tasks(tasks),
    ensures
        stop_reported_twice(zones, tasks) <==> settle_pass(
            zones,
            tasks,
            stop_deadline,
            message,
        ).1.contains(EffectView::Broadcast(message)),
        forall|k: int|
            0 <= k < settle_pass(zones, tasks, stop_deadline, message).1.len() ==> (
            #[trigger] settle_pass(zones, tasks, stop_deadline, message).1[k])
                == EffectView::Broadcast(message) || settle_pass(
                zones,
                tasks,
                stop_deadline,
                message,
            ).1[k] is Schedule,
    decreases zones.len(),
{
    let effects = settle_pass(zones, tasks, stop_deadline, message).1;
    let shown = EffectView::Broadcast(message);
    if zones.len() > 0 {
        let rest = zones.drop_last();
        let last = zones.last();
        assert forall|i: int, j: int| 0 <= i < j < rest.len() implies (#[trigger] rest[i]).zone_id
            != (#[trigger] rest[j]).zone_id by {
            assert(zones[i].zone_id != zones[j].zone_id);
        }
        lemma_settle_pass_effects(rest, tasks, stop_deadline, message);
        lemma_settle_pass_slots(rest, tasks, stop_deadline, message);
        let (table, earlier) = settle_pass(rest, tasks, stop_deadline, message);
        let added = settle_effect(table, last, stop_deadline, message);
        assert(effects == earlier + added);
        assert forall|k: int| 0 <= k < rest.len() implies (#[trigger] rest[k]).zone_id
            != last.zone_id by {
            assert(zones[k].zone_id != zones[zones.len() - 1].zone_id);
        }
        assert(!has_zone(rest, last.zone_id));
        assert(task_of(table, last.zone_id) == task_of(tasks, last.zone_id));
        assert(kind_of(table, last.zone_id) == kind_of(tasks, last.zone_id));
        assert forall|k: int| 0 <= k < effects.len() implies (#[trigger] effects[k]) == shown
            || effects[k] is Schedule by {
            if k < earlier.len() {
                assert(effects[k] == earlier[k]);
            } else {
                assert(effects[k] == added[k - earlier.len()]);
            }
        }
        if stop_reported_twice(zones, tasks) {
            let i = choose|i: int|
                0 <= i < zones.len() && (#[trigger] zones[i]).state == State::Stopped && kind_of(
                    tasks,
                    zones[i].zone_id,
                ) == Some(SettleKind::StopSettle);
            if i < rest.len() {
                assert(rest[i] == zones[i]);
                assert(stop_reported_twice(rest, tasks));
                let k = choose|k: int| 0 <= k < earlier.len() && earlier[k] == shown;
                assert(effects[k] == shown);
            } else {
                assert(zones[i] == last);
                assert(added[0] == shown);
                assert(effects[earlier.len() as int] == shown);
            }
        }
        if effects.contains(shown) {
            let k = choose|k: int| 0 <= k < effects.len() && effects[k] == shown;
            if k < earlier.len() {
                assert(earlier[k] == shown);
                assert(earlier.contains(shown));
                let i = choose|i: int|
                    0 <= i < rest.len() && (#[trigger] rest[i]).state == State::Stopped && kind_of(
                        tasks,
                        rest[i].zone_id,
                    ) == Some(SettleKind::StopSettle);
                assert(zones[i] == rest[i]);
            } else {
                assert(added[k - earlier.len()] == shown);
                assert(zones[zones.len() - 1] == last);
            }
        }
    } else {
        assert(!effects.contains(shown));
    }
}

/// The first playing premium zone is a playing premium zone of the
/// snapshot.
pub proof fn lemma_first_premium(zones: Seq<ZoneView>, prefix: Seq<char>, from: int)
    requires
        0 <= from,
    ensures
        match first_premium_from(zones, prefix, from) {
            Some(id) => exists|i: int|
                from <= i < zones.len() && (#[trigger] zones[i]).zone_id == id
                    && is_premium_playing(zones[i], prefix),
            None => true,
        },
    decreases zones.len() - from,
{
    if from < zones.len() {
        if is_premium_playing(zones[from], prefix) {
            assert(zones[from].zone_id == zones[from].zone_id);
        } else {
            lemma_first_premium(zones, prefix, from + 1);
        }
    }
}

/// A message of the whole picture shows a zone as stopped only if the
/// store holds the zone as stopped.
pub proof fn lemma_shown_as_stored(state: ClientView, at: int)
    requires
        distinct_ids(state.zones),
        0 <= at < state.zones.len(),
        state.zones[at].state != State::Stopped,
    ensures
        !shows_stopped(zones_message(state), state.zones[at].zone_id),
{
    let id = state.zones[at].zone_id;
    let models = view_models(state.zones, None, state.premium_prefix);
    assert forall|k: int| 0 <= k < models.len() && (#[trigger] models[k]).zone_id == id implies
        models[k].state != state_name_spec(State::Stopped) by {
        assert(state.zones[k].zone_id == id);
        if k < at {
            assert(state.zones[k].zone_id != state.zones[at].zone_id);
        } else if at < k {
            assert(state.zones[at].zone_id != state.zones[k].zone_id);
        }
        lemma_state_names_differ(state.zones[at].state, State::Stopped);
    }
}

/// After a batch of one zone, the store holds that zone under its
/// identifier and every other zone as before.
pub proof fn lemma_single_upsert(zones: Seq<ZoneView>, zone: ZoneView)
    requires
        distinct_ids(zones),
    ensures
        upsert_all(zones, seq![zone]) == upsert_zone(zones, zone),
        distinct_ids(upsert_zone(zones, zone)),
        has_zone(upsert_zone(zones, zone), zone.zone_id),
        upsert_zone(zones, zone)[zone_position(upsert_zone(zones, zone), zone.zone_id)] == zone,
        forall|i: int|
            0 <= i < upsert_zone(zones, zone).len() && (#[trigger] upsert_zone(
                zones,
                zone,
            )[i]).zone_id != zone.zone_id ==> i < zones.len() && zones[i] == upsert_zone(
                zones,
                zone,
            )[i],
{
    let batch = seq![zone];
    assert(batch.drop_last() =~= Seq::<ZoneView>::empty());
    assert(batch.last() == zone);
    assert(upsert_all(zones, batch.drop_last()) == zones);
    lemma_upsert_keeps_distinct(zones, zone);
    let after = upsert_zone(zones, zone);
    if has_zone(zones, zone.zone_id) {
        let at = zone_position(zones, zone.zone_id);
        assert(after[at] == zone);
        lemma_position_of_entry(after, at);
    } else {
        let at = zones.len() as int;
        assert(after[at] == zone);
        lemma_position_of_entry(after, at);
    }
}

/// With no stopped zone in the snapshot, the settle pass asks for nothing.
pub proof fn lemma_settle_without_stops(
    zones: Seq<ZoneView>,
    tasks: Seq<PendingView>,
    stop_deadline: u64,
    message: WsMessageView,
)
    requires
        forall|i: int| 0 <= i < zones.len() ==> (#[trigger] zones[i]).state != State::Stopped,
    ensures
        settle_pass(zones, tasks, stop_deadline, message).1 == Seq::<EffectView>::empty(),
    decreases zones.len(),
{
    if zones.len() > 0 {
        let rest = zones.drop_last();
        assert forall|i: int| 0 <= i < rest.len() implies (#[trigger] rest[i]).state
            != State::Stopped by {
            assert(rest[i] == zones[i]);
        }
        lemma_settle_without_stops(rest, tasks, stop_deadline, message);
        assert(zones[zones.len() - 1].state != State::Stopped);
        let (table, earlier) = settle_pass(rest, tasks, stop_deadline, message);
        assert(earlier + settle_effect(table, zones.last(), stop_deadline, message) =~= Seq::<
            EffectView,
        >::empty());
    }
}

/// The publish step leaves alone the slot of a zone that is not playing.
pub proof fn lemma_publish_slot(
    zones: Seq<ZoneView>,
    tasks: Seq<PendingView>,
    prefix: Seq<char>,
    format_deadline: u64,
    message: WsMessageView,
    at: int,
)
    requires
        distinct_ids(zones),
        distinct_tasks(tasks),
        0 <= at < zones.len(),
        zones[at].state != State::Playing,
    ensures
        task_of(
            publish_step(zones, tasks, prefix, format_deadline, message).0,
            zones[at].zone_id,
        ) == task_of(tasks, zones[at].zone_id),
{
    if worth_publishing(zones) {
        lemma_first_premium(zones, prefix, 0);
        match first_premium_from(zones, prefix, 0) {
            Some(id) => {
                let i = choose|i: int|
                    0 <= i < zones.len() && (#[trigger] zones[i]).zone_id == id
                        && is_premium_playing(zones[i], prefix);
                if i < at {
                    assert(zones[i].zone_id != zones[at].zone_id);
                } else if at < i {
                    assert(zones[at].zone_id != zones[i].zone_id);
                }
                lemma_schedule(
                    tasks,
                    PendingView {
                        zone_id: id,
                        kind: SettleKind::FormatSettle,
                        deadline: format_deadline,
                    },
                );
            },
            None => {},
        }
    }
}

/// A snapshot that consists of loading zones alone publishes nothing and
/// schedules nothing: all that a batch which leaves such a snapshot asks
/// for is the cover images it names.
pub proof fn law_loading_alone_is_silent(state: ClientView, batch: Seq<ZoneView>, now: u64)
    requires
        state.wf(),
        forall|i: int|
            0 <= i < upsert_all(state.zones, batch).len() ==> (#[trigger] upsert_all(
                state.zones,
                batch,
            )[i]).state == State::Loading,
    ensures
        step_zones(state, batch, now).1 == request_effects(keys_asked(state, batch)),
        !publishes(step_zones(state, batch, now).1),
{
    let stored = ClientView {
        zones: upsert_all(state.zones, batch),
        images: cache_after_batch(state, batch),
        ..state
    };
    let message = zones_message(stored);
    let stop_deadline = deadline_after(now, STOP_BROADCAST_DELAY_MS);
    let format_deadline = deadline_after(now, DCS_UPDATE_DELAY_MS);
    lemma_settle_without_stops(stored.zones, state.pending, stop_deadline, message);
    let (settled, settle_effects) = settle_pass(stored.zones, state.pending, stop_deadline, message);
    assert(!any_non_loading(stored.zones));
    let requests = request_effects(keys_asked(state, batch));
    let effects = step_zones(state, batch, now).1;
    assert(effects =~= requests);
    assert forall|i: int| 0 <= i < effects.len() implies !((#[trigger] effects[i]) is Broadcast) by {
        assert(effects[i] == requests[i]);
    }
}

/// A zone that reports a stop for the first time gets a stop to wait for.
/// If it reports the stop again before that stop has fired, the picture
/// is published at once, and nothing waits for the zone any more.
pub proof fn law_double_stop_publishes(
    state: ClientView,
    first: ZoneView,
    second: ZoneView,
    t_first: u64,
    t_between: u64,
    t_second: u64,
)
    requires
        state.wf(),
        first.zone_id == second.zone_id,
        first.state == State::Stopped,
        second.state == State::Stopped,
        kind_of(state.pending, first.zone_id) != Some(SettleKind::StopSettle),
        t_between < deadline_after(t_first, STOP_BROADCAST_DELAY_MS),
    ensures
        ({
            let (reported, _) = step_zones(state, seq![first], t_first);
            let (waited, fired) = fire_due_step(reported, t_between);
            let (again, effects) = step_zones(waited, seq![second], t_second);
            &&& kind_of(reported.pending, first.zone_id) == Some(SettleKind::StopSettle)
            &&& kind_of(waited.pending, first.zone_id) == Some(SettleKind::StopSettle)
            &&& effects.contains(EffectView::Broadcast(zones_message(again)))
            &&& !has_task(again.pending, first.zone_id)
        }),
{
    let id = first.zone_id;
    let (reported, _) = step_zones(state, seq![first], t_first);
    let (waited, fired) = fire_due_step(reported, t_between);
    let (again, effects) = step_zones(waited, seq![second], t_second);
    // The first report.
    let d1 = deadline_after(t_first, STOP_BROADCAST_DELAY_MS);
    let f1 = deadline_after(t_first, DCS_UPDATE_DELAY_MS);
    let z1 = upsert_all(state.zones, seq![first]);
    lemma_single_upsert(state.zones, first);
    let at1 = zone_position(z1, id);
    let stored1 = ClientView { zones: z1, images: cache_after_batch(state, seq![first]), ..state };
    let m1 = zones_message(stored1);
    lemma_settle_pass_slots(z1, state.pending, d1, m1);
    let settled1 = settle_pass(z1, state.pending, d1, m1).0;
    assert(z1[at1] == first);
    assert(task_of(settled1, z1[at1].zone_id) == settled_slot(
        task_of(state.pending, z1[at1].zone_id),
        z1[at1],
        d1,
    ));
    lemma_publish_slot(z1, settled1, state.premium_prefix, f1, m1, at1);
    assert(task_of(reported.pending, id) == Some(
        PendingView { zone_id: id, kind: SettleKind::StopSettle, deadline: d1 },
    ));
    lemma_step_zones_keeps_wf(state, seq![first], t_first);
    // The wait.
    lemma_waiting_distinct(reported.pending, t_between);
    assert(task_of(waited.pending, id) == task_of(tasks_waiting(reported.pending, t_between), id));
    assert(kind_of(waited.pending, id) == Some(SettleKind::StopSettle));
    assert(waited.wf());
    // The second report.
    let d2 = deadline_after(t_second, STOP_BROADCAST_DELAY_MS);
    let f2 = deadline_after(t_second, DCS_UPDATE_DELAY_MS);
    let z2 = upsert_all(waited.zones, seq![second]);
    lemma_single_upsert(waited.zones, second);
    let at2 = zone_position(z2, id);
    let stored2 = ClientView {
        zones: z2,
        images: cache_after_batch(waited, seq![second]),
        ..waited
    };
    let m2 = zones_message(stored2);
    lemma_settle_pass_slots(z2, waited.pending, d2, m2);
    lemma_settle_pass_effects(z2, waited.pending, d2, m2);
    let (settled2, settle_effects2) = settle_pass(z2, waited.pending, d2, m2);
    assert(z2[at2] == second);
    assert(stop_reported_twice(z2, waited.pending));
    let shown = EffectView::Broadcast(m2);
    assert(settle_effects2.contains(shown));
    let k = choose|k: int| 0 <= k < settle_effects2.len() && settle_effects2[k] == shown;
    let requests2 = request_effects(keys_asked(waited, seq![second]));
    let publish2 = publish_step(z2, settled2, waited.premium_prefix, f2, m2);
    assert(effects == requests2 + settle_effects2 + publish2.1);
    assert(effects[requests2.len() + k] == shown);
    assert(zones_message(again) == m2);
    assert(task_of(settled2, z2[at2].zone_id) == settled_slot(
        task_of(waited.pending, z2[at2].zone_id),
        z2[at2],
        d2,
    ));
    lemma_publish_slot(z2, settled2, waited.premium_prefix, f2, m2, at2);
    assert(task_of(again.pending, id) is None);
}

/// Every other zone is stopped, and nothing waits for any other zone.
pub open spec fn others_at_rest(state: ClientView, id: Seq<char>) -> bool {
    &&& forall|i: int|
        0 <= i < state.zones.len() && (#[trigger] state.zones[i]).zone_id != id
            ==> state.zones[i].state == State::Stopped
    &&& forall|k: int| 0 <= k < state.pending.len() ==> (#[trigger] state.pending[k]).zone_id == id
}

/// A stop that is taken back in time is never shown. Take a zone for which
/// no stop waits, while every other zone is at rest. The zone reports a
/// stop, and before the stop's deadline reports that it plays again. Then
/// no message that shows the zone as stopped is published: not by the
/// stop, not by any deadline before the stop's own, not by the new report;
/// and no deadline after the new report, however late, publishes one.
pub proof fn law_flicker_suppressed(
    state: ClientView,
    stopped: ZoneView,
    resumed: ZoneView,
    t_stop: u64,
    t_between: u64,
    t_resume: u64,
    t_later: u64,
)
    requires
        state.wf(),
        stopped.zone_id == resumed.zone_id,
        stopped.state == State::Stopped,
        resumed.state != State::Stopped,
        kind_of(state.pending, stopped.zone_id) != Some(SettleKind::StopSettle),
        others_at_rest(state, stopped.zone_id),
        t_between < deadline_after(t_stop, STOP_BROADCAST_DELAY_MS),
    ensures
        ({
            let (halted, on_stop) = step_zones(state, seq![stopped], t_stop);
            let (waited, on_wait) = fire_due_step(halted, t_between);
            let (playing, on_resume) = step_zones(waited, seq![resumed], t_resume);
            let (after, on_later) = fire_due_step(playing, t_later);
            &&& !publishes(on_stop)
            &&& on_wait == Seq::<EffectView>::empty()
            &&& waited == halted
            &&& !publishes_stopped(on_resume, stopped.zone_id)
            &&& kind_of(playing.pending, stopped.zone_id) != Some(SettleKind::StopSettle)
            &&& !publishes_stopped(on_later, stopped.zone_id)
        }),
{
    let id = stopped.zone_id;
    let (halted, on_stop) = step_zones(state, seq![stopped], t_stop);
    let (waited, on_wait) = fire_due_step(halted, t_between);
    let (playing, on_resume) = step_zones(waited, seq![resumed], t_resume);
    let (after, on_later) = fire_due_step(playing, t_later);
    // The stop.
    let d2 = deadline_after(t_stop, STOP_BROADCAST_DELAY_MS);
    let f2 = deadline_after(t_stop, DCS_UPDATE_DELAY_MS);
    let z2 = upsert_all(state.zones, seq![stopped]);
    lemma_single_upsert(state.zones, stopped);
    let at2 = zone_position(z2, id);
    let stored2 = ClientView {
        zones: z2,
        images: cache_after_batch(state, seq![stopped]),
        ..state
    };
    let m2 = zones_message(stored2);
    assert forall|i: int| 0 <= i < z2.len() implies (#[trigger] z2[i]).state == State::Stopped by {
        if z2[i].zone_id != id {
            assert(state.zones[i] == z2[i]);
        } else {
            lemma_position_of_entry(z2, i);
        }
    }
    assert(!any_non_stop(z2));
    lemma_settle_pass_slots(z2, state.pending, d2, m2);
    lemma_settle_pass_effects(z2, state.pending, d2, m2);
    let (settled2, settle_effects2) = settle_pass(z2, state.pending, d2, m2);
    assert forall|other: Seq<char>| other != id implies !has_task(state.pending, other) by {
        if has_task(state.pending, other) {
            let k = task_position(state.pending, other);
            assert(state.pending[k].zone_id == id);
        }
    }
    if stop_reported_twice(z2, state.pending) {
        let i = choose|i: int|
            0 <= i < z2.len() && (#[trigger] z2[i]).state == State::Stopped && kind_of(
                state.pending,
                z2[i].zone_id,
            ) == Some(SettleKind::StopSettle);
        assert(z2[i].zone_id == id);
    }
    let requests2 = request_effects(keys_asked(state, seq![stopped]));
    assert(on_stop =~= requests2 + settle_effects2);
    assert forall|i: int| 0 <= i < on_stop.len() implies !((#[trigger] on_stop[i]) is Broadcast) by {
        if i < requests2.len() {
            assert(on_stop[i] == requests2[i]);
        } else {
            let k = i - requests2.len();
            assert(on_stop[i] == settle_effects2[k]);
            if settle_effects2[k] == EffectView::Broadcast(m2) {
                assert(settle_effects2.contains(EffectView::Broadcast(m2)));
            }
        }
    }
    // Nothing is due before the stop's own deadline.
    assert(halted.pending == settled2);
    assert forall|k: int| 0 <= k < halted.pending.len() implies (
    #[trigger] halted.pending[k]).deadline > t_between by {
        let task = halted.pending[k];
        lemma_task_at(halted.pending, k);
        if has_zone(z2, task.zone_id) {
            let i = zone_position(z2, task.zone_id);
            assert(task_of(settled2, z2[i].zone_id) == settled_slot(
                task_of(state.pending, z2[i].zone_id),
                z2[i],
                d2,
            ));
        } else {
            assert(task_of(settled2, task.zone_id) == task_of(state.pending, task.zone_id));
            assert(task.zone_id != id);
        }
    }
    lemma_nothing_due(halted.pending, t_between);
    assert(on_wait =~= Seq::<EffectView>::empty());
    assert(waited == halted);
    lemma_step_zones_keeps_wf(state, seq![stopped], t_stop);
    // The new report.
    let d3 = deadline_after(t_resume, STOP_BROADCAST_DELAY_MS);
    let f3 = deadline_after(t_resume, DCS_UPDATE_DELAY_MS);
    let z3 = upsert_all(waited.zones, seq![resumed]);
    lemma_single_upsert(waited.zones, resumed);
    let at3 = zone_position(z3, id);
    let stored3 = ClientView {
        zones: z3,
        images: cache_after_batch(waited, seq![resumed]),
        ..waited
    };
    let m3 = zones_message(stored3);
    assert(z3[at3] == resumed);
    lemma_shown_as_stored(stored3, at3);
    lemma_settle_pass_slots(z3, waited.pending, d3, m3);
    lemma_settle_pass_effects(z3, waited.pending, d3, m3);
    let (settled3, settle_effects3) = settle_pass(z3, waited.pending, d3, m3);
    let requests3 = request_effects(keys_asked(waited, seq![resumed]));
    let publish3 = publish_step(z3, settled3, waited.premium_prefix, f3, m3);
    assert(on_resume == requests3 + settle_effects3 + publish3.1);
    assert forall|i: int| 0 <= i < on_resume.len() implies !(match #[trigger] on_resume[i] {
        EffectView::Broadcast(message) => shows_stopped(message, id),
        _ => false,
    }) by {
        if i < requests3.len() {
            assert(on_resume[i] == requests3[i]);
        } else if i < requests3.len() + settle_effects3.len() {
            assert(on_resume[i] == settle_effects3[i - requests3.len()]);
        } else {
            assert(on_resume[i] == publish3.1[i - requests3.len() - settle_effects3.len()]);
        }
    }
    // Nothing waits to show the stop.
    assert(task_of(settled3, z3[at3].zone_id) == settled_slot(
        task_of(waited.pending, z3[at3].zone_id),
        z3[at3],
        d3,
    ));
    assert(kind_of(settled3, id) != Some(SettleKind::StopSettle));
    lemma_settle_pass_distinct(z3, waited.pending, d3, m3);
    if worth_publishing(z3) {
        match first_premium_from(z3, waited.premium_prefix, 0) {
            Some(found) => {
                lemma_schedule(
                    settled3,
                    PendingView {
                        zone_id: found,
                        kind: SettleKind::FormatSettle,
                        deadline: f3,
                    },
                );
            },
            None => {},
        }
    }
    assert(kind_of(playing.pending, id) != Some(SettleKind::StopSettle));
    // A later deadline shows the picture as it then is.
    assert(zones_message(playing) == m3);
    assert forall|i: int| 0 <= i < on_later.len() implies !(match #[trigger] on_later[i] {
        EffectView::Broadcast(message) => shows_stopped(message, id),
        _ => false,
    }) by {}
}

/// Every task waits for a zone that the store holds.
pub open spec fn tasks_in_store(state: ClientView) -> bool {
    forall|k: int|
        0 <= k < state.pending.len() ==> has_zone(
            state.zones,
            (#[trigger] state.pending[k]).zone_id,
        )
}

/// A zone that a removal does not name stays in the store, and a zone
/// that it names is gone.
pub proof fn lemma_remove_all_zones(zones: Seq<ZoneView>, ids: Seq<Seq<char>>)
    requires
        distinct_ids(zones),
    ensures
        distinct_ids(remove_all(zones, ids)),
        forall|id: Seq<char>|
            #[trigger] has_zone(remove_all(zones, ids), id) <==> has_zone(zones, id)
                && !ids.contains(id),
    decreases ids.len(),
{
    let after = remove_all(zones, ids);
    if ids.len() == 0 {
        assert forall|id: Seq<char>| #[trigger] has_zone(after, id) <==> has_zone(zones, id)
            && !ids.contains(id) by {}
    } else {
        let rest = ids.drop_last();
        let last = ids.last();
        lemma_remove_all_zones(zones, rest);
        let before = remove_all(zones, rest);
        lemma_remove_keeps_distinct(before, last);
        assert forall|id: Seq<char>| #[trigger] has_zone(after, id) <==> has_zone(zones, id)
            && !ids.contains(id) by {
            assert(has_zone(before, id) <==> has_zone(zones, id) && !rest.contains(id));
            // One removal takes out the named zone and no other.
            if has_zone(before, last) {
                let at = zone_position(before, last);
                if has_zone(after, id) {
                    let n = zone_position(after, id);
                    let o = if n < at { n } else { n + 1 };
                    assert(before[o].zone_id == id);
                }
                if id != last && has_zone(before, id) {
                    let o = zone_position(before, id);
                    let n = if o < at { o } else { o - 1 };
                    assert(after[n] == before[o]);
                }
            }
            if ids.contains(id) {
                let k = choose|k: int| 0 <= k < ids.len() && ids[k] == id;
                if k < rest.len() {
                    assert(rest[k] == id);
                }
            }
            if rest.contains(id) {
                let k = choose|k: int| 0 <= k < rest.len() && rest[k] == id;
                assert(ids[k] == id);
            }
            assert(ids[ids.len() - 1] == last);
        }
    }
}

/// A task whose zone a cancellation does not name stays, and a task whose
/// zone it names is gone.
pub proof fn lemma_cancel_all_tasks(tasks: Seq<PendingView>, ids: Seq<Seq<char>>)
    requires
        distinct_tasks(tasks),
    ensures
        distinct_tasks(cancel_all(tasks, ids)),
        forall|id: Seq<char>| #[trigger]
            task_of(cancel_all(tasks, ids), id) == (if ids.contains(id) {
                None
            } else {
                task_of(tasks, id)
            }),
    decreases ids.len(),
{
    let after = cancel_all(tasks, ids);
    if ids.len() == 0 {
        assert forall|id: Seq<char>| #[trigger] task_of(after, id) == (if ids.contains(id) {
            None
        } else {
            task_of(tasks, id)
        }) by {}
    } else {
        let rest = ids.drop_last();
        let last = ids.last();
        lemma_cancel_all_tasks(tasks, rest);
        let before = cancel_all(tasks, rest);
        lemma_cancel(before, last);
        assert forall|id: Seq<char>| #[trigger] task_of(after, id) == (if ids.contains(id) {
            None
        } else {
            task_of(tasks, id)
        }) by {
            assert(task_of(before, id) == (if rest.contains(id) {
                None::<PendingView>
            } else {
                task_of(tasks, id)
            }));
            if id != last {
                assert(task_of(after, id) == task_of(before, id));
            }
            if ids.contains(id) {
                let k = choose|k: int| 0 <= k < ids.len() && ids[k] == id;
                if k < rest.len() {
                    assert(rest[k] == id);
                }
            }
            if rest.contains(id) {
                let k = choose|k: int| 0 <= k < rest.len() && rest[k] == id;
                assert(ids[k] == id);
            }
            assert(ids[ids.len() - 1] == last);
        }
    }
}

/// A removal invalidates whatever waits for the removed zones: after it
/// the store holds none of them, nothing waits for any of them, and the
/// one message it publishes shows the store without them.
pub proof fn law_removal_cancels(state: ClientView, ids: Seq<Seq<char>>)
    requires
        state.wf(),
    ensures
        ({
            let (after, effects) = step_removed(state, ids);
            &&& forall|k: int|
                0 <= k < ids.len() ==> !has_zone(after.zones, #[trigger] ids[k]) && !has_task(
                    after.pending,
                    ids[k],
                )
            &&& effects == seq![EffectView::Broadcast(zones_message(after))]
            &&& forall|k: int, t: u64|
                0 <= k < ids.len() ==> !has_task(
                    #[trigger] fire_due_step(after, t).0.pending,
                    #[trigger] ids[k],
                )
        }),
{
    let (after, effects) = step_removed(state, ids);
    lemma_remove_all_zones(state.zones, ids);
    lemma_cancel_all_tasks(state.pending, ids);
    assert forall|k: int| 0 <= k < ids.len() implies !has_zone(after.zones, #[trigger] ids[k])
        && !has_task(after.pending, ids[k]) by {
        assert(ids.contains(ids[k]));
        assert(task_of(after.pending, ids[k]) is None);
    }
    assert forall|k: int, t: u64| 0 <= k < ids.len() implies !has_task(
        #[trigger] fire_due_step(after, t).0.pending,
        #[trigger] ids[k],
    ) by {
        lemma_waiting_distinct(after.pending, t);
        assert(ids.contains(ids[k]));
        assert(task_of(after.pending, ids[k]) is None);
        assert(task_of(tasks_waiting(after.pending, t), ids[k]) is None);
    }
}

/// A batch of one or more zones leaves in the store every zone that was
/// there, and every zone of the batch.
pub proof fn lemma_upsert_all_keeps_zones(zones: Seq<ZoneView>, batch: Seq<ZoneView>)
    requires
        distinct_ids(zones),
    ensures
        distinct_ids(upsert_all(zones, batch)),
        forall|id: Seq<char>| has_zone(zones, id) ==> #[trigger] has_zone(upsert_all(zones, batch), id),
    decreases batch.len(),
{
    if batch.len() > 0 {
        lemma_upsert_all_keeps_zones(zones, batch.drop_last());
        let before = upsert_all(zones, batch.drop_last());
        let after = upsert_all(zones, batch);
        lemma_upsert_keeps_distinct(before, batch.last());
        assert forall|id: Seq<char>| has_zone(zones, id) implies #[trigger] has_zone(after, id) by {
            assert(has_zone(before, id));
            let o = zone_position(before, id);
            assert(after[o].zone_id == id);
        }
    }
}

/// Every event keeps the tasks with the zones of the store: no task ever
/// waits for a zone that the store does not hold.
pub proof fn lemma_step_keeps_tasks_in_store(state: ClientView, event: EventView, now: u64)
    requires
        state.wf(),
        tasks_in_store(state),
    ensures
        tasks_in_store(step(state, event, now).0),
{
    let after = step(state, event, now).0;
    match event {
        EventView::Zones(batch) => {
            let zones = upsert_all(state.zones, batch);
            lemma_upsert_all_keeps_zones(state.zones, batch);
            let stored = ClientView {
                zones,
                images: cache_after_batch(state, batch),
                ..state
            };
            let message = zones_message(stored);
            let stop_deadline = deadline_after(now, STOP_BROADCAST_DELAY_MS);
            let format_deadline = deadline_after(now, DCS_UPDATE_DELAY_MS);
            lemma_settle_pass_slots(zones, state.pending, stop_deadline, message);
            let settled = settle_pass(zones, state.pending, stop_deadline, message).0;
            assert forall|k: int| 0 <= k < settled.len() implies has_zone(
                zones,
                (#[trigger] settled[k]).zone_id,
            ) by {
                let id = settled[k].zone_id;
                lemma_task_at(settled, k);
                if !has_zone(zones, id) {
                    assert(task_of(settled, id) == task_of(state.pending, id));
                    let o = task_position(state.pending, id);
                    assert(has_zone(state.zones, state.pending[o].zone_id));
                }
            }
            if worth_publishing(zones) {
                lemma_first_premium(zones, state.premium_prefix, 0);
                match first_premium_from(zones, state.premium_prefix, 0) {
                    Some(found) => {
                        let task = PendingView {
                            zone_id: found,
                            kind: SettleKind::FormatSettle,
                            deadline: format_deadline,
                        };
                        lemma_schedule(settled, task);
                        lemma_settle_pass_distinct(zones, state.pending, stop_deadline, message);
                        let table = schedule_task(settled, task);
                        assert forall|k: int| 0 <= k < table.len() implies has_zone(
                            zones,
                            (#[trigger] table[k]).zone_id,
                        ) by {
                            let id = table[k].zone_id;
                            lemma_task_at(table, k);
                            if id != found {
                                assert(task_of(table, id) == task_of(settled, id));
                                let o = task_position(settled, id);
                                assert(has_zone(zones, settled[o].zone_id));
                            }
                        }
                    },
                    None => {},
                }
            }
        },
        EventView::ZonesRemoved(ids) => {
            lemma_remove_all_zones(state.zones, ids);
            lemma_cancel_all_tasks(state.pending, ids);
            assert forall|k: int| 0 <= k < after.pending.len() implies has_zone(
                after.zones,
                (#[trigger] after.pending[k]).zone_id,
            ) by {
                let id = after.pending[k].zone_id;
                lemma_task_at(after.pending, k);
                assert(task_of(after.pending, id) is Some);
                assert(!ids.contains(id));
                let o = task_position(state.pending, id);
                assert(has_zone(state.zones, state.pending[o].zone_id));
            }
        },
        EventView::ZonesSeek(seeks) => {
            lemma_seek_all_keeps_zones(state.zones, seeks);
            assert forall|k: int| 0 <= k < after.pending.len() implies has_zone(
                after.zones,
                (#[trigger] after.pending[k]).zone_id,
            ) by {
                assert(has_zone(state.zones, state.pending[k].zone_id));
            }
        },
        _ => {},
    }
}

/// Patching positions keeps every zone in the store.
pub proof fn lemma_seek_all_keeps_zones(
    zones: Seq<ZoneView>,
    seeks: Seq<crate::roon::event::ZoneSeekView>,
)
    requires
        distinct_ids(zones),
    ensures
        distinct_ids(crate::roon::model::seek_all(zones, seeks)),
        forall|id: Seq<char>|
            has_zone(zones, id) ==> #[trigger] has_zone(
                crate::roon::model::seek_all(zones, seeks),
                id,
            ),
    decreases seeks.len(),
{
    if seeks.len() > 0 {
        lemma_seek_all_keeps_zones(zones, seeks.drop_last());
        let before = crate::roon::model::seek_all(zones, seeks.drop_last());
        let after = crate::roon::model::seek_all(zones, seeks);
        crate::roon::store::lemma_patch_keeps_distinct(
            before,
            seeks.last().zone_id,
            seeks.last().seek_position,
        );
        assert forall|id: Seq<char>| has_zone(zones, id) implies #[trigger] has_zone(after, id) by {
            assert(has_zone(before, id));
            let o = zone_position(before, id);
            assert(after[o].zone_id == before[o].zone_id);
        }
    }
}

/// Whatever happens, no task waits for a zone that the store does not
/// hold: if that is so before a run, it is so after it.
pub proof fn law_tasks_wait_for_stored_zones(state: ClientView, inputs: Seq<Input>)
    requires
        state.wf(),
        tasks_in_store(state),
    ensures
        tasks_in_store(run(state, inputs).0),
    decreases inputs.len(),
{
    if inputs.len() > 0 {
        law_tasks_wait_for_stored_zones(state, inputs.drop_last());
        lemma_run_keeps_wf(state, inputs.drop_last());
        let before = run(state, inputs.drop_last()).0;
        match inputs.last() {
            Input::Incoming { event, now } => {
                lemma_step_keeps_tasks_in_store(before, event, now);
            },
            Input::Deadline { now } => {
                let after = fire_due_step(before, now).0;
                lemma_waiting_distinct(before.pending, now);
                assert forall|k: int| 0 <= k < after.pending.len() implies has_zone(
                    after.zones,
                    (#[trigger] after.pending[k]).zone_id,
                ) by {
                    let id = after.pending[k].zone_id;
                    lemma_task_at(after.pending, k);
                    assert(task_of(before.pending, id) is Some);
                    let o = task_position(before.pending, id);
                    assert(has_zone(before.zones, before.pending[o].zone_id));
                }
            },
        }
    }
}

/// Is the effect the publication of a picture of the zones?
pub open spec fn is_zones_picture(effect: EffectView) -> bool {
    match effect {
        EffectView::Broadcast(message) => message is ZonesChanged,
        _ => false,
    }
}

/// Every picture of the zones that is published shows the zones as the
/// store holds them once the input has been dealt with: a viewer that
/// missed every earlier message is up to date after the next picture.
pub proof fn law_pictures_are_current(state: ClientView, input: Input)
    requires
        state.wf(),
    ensures
        forall|i: int|
            0 <= i < advance(state, input).1.len() && is_zones_picture(
                #[trigger] advance(state, input).1[i],
            ) ==> advance(state, input).1[i] == EffectView::Broadcast(
                zones_message(advance(state, input).0),
            ),
{
    let (after, effects) = advance(state, input);
    match input {
        Input::Incoming { event, now } => match event {
            EventView::Zones(batch) => {
                let stored = ClientView {
                    zones: upsert_all(state.zones, batch),
                    images: cache_after_batch(state, batch),
                    ..state
                };
                let message = zones_message(stored);
                let stop_deadline = deadline_after(now, STOP_BROADCAST_DELAY_MS);
                let format_deadline = deadline_after(now, DCS_UPDATE_DELAY_MS);
                crate::roon::trace::lemma_upsert_all_distinct(state.zones, batch);
                lemma_settle_pass_effects(stored.zones, state.pending, stop_deadline, message);
                let (settled, settle_effects) = settle_pass(
                    stored.zones,
                    state.pending,
                    stop_deadline,
                    message,
                );
                let requests = request_effects(keys_asked(state, batch));
                let published = publish_step(
                    stored.zones,
                    settled,
                    state.premium_prefix,
                    format_deadline,
                    message,
                ).1;
                assert(effects == requests + settle_effects + published);
                assert(zones_message(after) == message);
                assert forall|i: int|
                    0 <= i < effects.len() && is_zones_picture(
                        #[trigger] effects[i],
                    ) implies effects[i] == EffectView::Broadcast(message) by {
                    if i < requests.len() {
                        assert(effects[i] == requests[i]);
                    } else if i < requests.len() + settle_effects.len() {
                        assert(effects[i] == settle_effects[i - requests.len()]);
                    } else {
                        assert(effects[i] == published[i - requests.len() - settle_effects.len()]);
                    }
                }
            },
            _ => {},
        },
        Input::Deadline { now } => {},
    }
}

/// Of what waits after `now`, nothing is due at `now` or before.
pub proof fn lemma_waiting_is_not_due(tasks: Seq<PendingView>, now: u64, earlier: u64)
    requires
        earlier <= now,
    ensures
        tasks_due(tasks_waiting(tasks, now), earlier) == Seq::<PendingView>::empty(),
        tasks_waiting(tasks_waiting(tasks, now), earlier) == tasks_waiting(tasks, now),
    decreases tasks.len(),
{
    reveal_with_fuel(tasks_due, 2);
    reveal_with_fuel(tasks_waiting, 2);
    if tasks.len() > 0 {
        lemma_waiting_is_not_due(tasks.drop_last(), now, earlier);
        if tasks.last().deadline > now {
            let kept = tasks_waiting(tasks.drop_last(), now).push(tasks.last());
            assert(kept.drop_last() =~= tasks_waiting(tasks.drop_last(), now));
            assert(kept.last() == tasks.last());
        }
    }
}

/// A task fires once. When the clock is reported twice at the same
/// moment, or the second time at an earlier one, the second report fires
/// nothing and changes nothing: what was due has fired at the first and
/// left the table.
pub proof fn law_task_fires_once(state: ClientView, now: u64, again: u64)
    requires
        again <= now,
    ensures
        ({
            let (fired, first) = fire_due_step(state, now);
            let (after, second) = fire_due_step(fired, again);
            &&& first.len() == tasks_due(state.pending, now).len()
            &&& second == Seq::<EffectView>::empty()
            &&& after == fired
        }),
{
    let (fired, first) = fire_due_step(state, now);
    let (after, second) = fire_due_step(fired, again);
    lemma_waiting_is_not_due(state.pending, now, again);
    assert(second =~= Seq::<EffectView>::empty());
}

} // verus!
