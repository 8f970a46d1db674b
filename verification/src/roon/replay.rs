//! The zone store against a reference model: a finite map from identifier
//! to zone, on which each batch does the obvious thing. Whatever the
//! inputs, the store read as a map is the map that the reference model
//! arrives at.

use vstd::prelude::*;

use crate::roon::event::EventView;
use crate::roon::event::ZoneSeekView;
use crate::roon::model::remove_all;
use crate::roon::model::seek_all;
use crate::roon::model::upsert_all;
use crate::roon::model::ClientView;
use crate::roon::store::distinct_ids;
use crate::roon::store::has_zone;
use crate::roon::store::lemma_patch_keeps_distinct;
use crate::roon::store::lemma_position_of_entry;
use crate::roon::store::lemma_remove_keeps_distinct;
use crate::roon::store::lemma_upsert_keeps_distinct;
use crate::roon::store::patch_seek_zone;
use crate::roon::store::remove_zone;
use crate::roon::store::upsert_zone;
use crate::roon::store::with_position;
use crate::roon::store::zone_map;
use crate::roon::store::zone_position;
use crate::roon::trace::advance;
use crate::roon::trace::lemma_run_keeps_wf;
use crate::roon::trace::lemma_remove_all_distinct;
use crate::roon::trace::lemma_seek_all_distinct;
use crate::roon::trace::lemma_upsert_all_distinct;
use crate::roon::trace::run;
use crate::roon::trace::Input;
use crate::roon::zone::ZoneView;

verus! {

/// The reference map after a batch of zones: each is put under its
/// identifier, a later one over an earlier one.
pub open spec fn map_upsert_all(zones: Map<Seq<char>, ZoneView>, batch: Seq<ZoneView>) -> Map<
    Seq<char>,
    ZoneView,
>
    decreases batch.len(),
{
    if batch.len() == 0 {
        zones
    } else {
        map_upsert_all(zones, batch.drop_last()).insert(batch.last().zone_id, batch.last())
    }
}

/// The reference map after a batch of removals.
pub open spec fn map_remove_all(zones: Map<Seq<char>, ZoneView>, ids: Seq<Seq<char>>) -> Map<
    Seq<char>,
    ZoneView,
>
    decreases ids.len(),
{
    if ids.len() == 0 {
        zones
    } else {
        map_remove_all(zones, ids.drop_last()).remove(ids.last())
    }
}

/// The reference map after one seek position.
pub open spec fn map_seek(zones: Map<Seq<char>, ZoneView>, seek: ZoneSeekView) -> Map<
    Seq<char>,
    ZoneView,
> {
    if zones.dom().contains(seek.zone_id) {
        zones.insert(seek.zone_id, with_position(zones[seek.zone_id], seek.seek_position))
    } else {
        zones
    }
}

/// The reference map after a batch of seek positions.
pub open spec fn map_seek_all(zones: Map<Seq<char>, ZoneView>, seeks: Seq<ZoneSeekView>) -> Map<
    Seq<char>,
    ZoneView,
>
    decreases seeks.len(),
{
    if seeks.len() == 0 {
        zones
    } else {
        map_seek(map_seek_all(zones, seeks.drop_last()), seeks.last())
    }
}

/// What one input makes of the reference map. Only batches of changed,
/// removed and sought zones touch it, and the loss of the connection,
/// which empties it.
pub open spec fn replay_one(zones: Map<Seq<char>, ZoneView>, input: Input) -> Map<
    Seq<char>,
    ZoneView,
> {
    match input {
        Input::Incoming { event, now } => match event {
            EventView::Zones(batch) => map_upsert_all(zones, batch),
            EventView::ZonesRemoved(ids) => map_remove_all(zones, ids),
            EventView::ZonesSeek(seeks) => map_seek_all(zones, seeks),
            EventView::Lost => Map::empty(),
            _ => zones,
        },
        Input::Deadline { now } => zones,
    }
}

/// What a sequence of inputs makes of the reference map.
pub open spec fn replay(zones: Map<Seq<char>, ZoneView>, inputs: Seq<Input>) -> Map<
    Seq<char>,
    ZoneView,
>
    decreases inputs.len(),
{
    if inputs.len() == 0 {
        zones
    } else {
        replay_one(replay(zones, inputs.drop_last()), inputs.last())
    }
}

/// An upsert on the store is an insert on the map.
pub proof fn lemma_map_upsert(zones: Seq<ZoneView>, zone: ZoneView)
    requires
        distinct_ids(zones),
    ensures
        zone_map(upsert_zone(zones, zone)) == zone_map(zones).insert(zone.zone_id, zone),
{
    let after = upsert_zone(zones, zone);
    lemma_upsert_keeps_distinct(zones, zone);
    let left = zone_map(after);
    let right = zone_map(zones).insert(zone.zone_id, zone);
    assert forall|id: Seq<char>|
        #![trigger left.dom().contains(id)]
        #![trigger right.dom().contains(id)]
        left.dom().contains(id) == right.dom().contains(id) && (left.dom().contains(id) ==> left[id]
            == right[id]) by {
        if has_zone(zones, zone.zone_id) {
            let at = zone_position(zones, zone.zone_id);
            assert(after[at] == zone);
            if has_zone(after, id) {
                let p = zone_position(after, id);
                lemma_position_of_entry(after, p);
                if p == at {
                    assert(id == zone.zone_id);
                } else {
                    assert(after[p] == zones[p]);
                    assert(zones[p].zone_id == id);
                    lemma_position_of_entry(zones, p);
                    assert(id != zone.zone_id);
                }
            }
            if has_zone(zones, id) {
                let p = zone_position(zones, id);
                assert(after[p].zone_id == id);
            }
            if id == zone.zone_id {
                assert(after[at].zone_id == id);
                lemma_position_of_entry(after, at);
            }
        } else {
            let at = zones.len() as int;
            assert(after[at] == zone);
            lemma_position_of_entry(after, at);
            if has_zone(after, id) {
                let p = zone_position(after, id);
                if p < at {
                    assert(after[p] == zones[p]);
                    assert(zones[p].zone_id == id);
                    lemma_position_of_entry(zones, p);
                }
            }
            if has_zone(zones, id) {
                let p = zone_position(zones, id);
                assert(after[p] == zones[p]);
                lemma_position_of_entry(after, p);
            }
        }
    }
    assert(left.dom() =~= right.dom());
    assert(left =~= right);
}

/// A removal from the store is a removal from the map.
pub proof fn lemma_map_remove(zones: Seq<ZoneView>, id: Seq<char>)
    requires
        distinct_ids(zones),
    ensures
        zone_map(remove_zone(zones, id)) == zone_map(zones).remove(id),
{
    let after = remove_zone(zones, id);
    lemma_remove_keeps_distinct(zones, id);
    let left = zone_map(after);
    let right = zone_map(zones).remove(id);
    assert forall|key: Seq<char>|
        #![trigger left.dom().contains(key)]
        #![trigger right.dom().contains(key)]
        left.dom().contains(key) == right.dom().contains(key) && (left.dom().contains(key)
            ==> left[key] == right[key]) by {
        if has_zone(zones, id) {
            let at = zone_position(zones, id);
            if has_zone(after, key) {
                let p = zone_position(after, key);
                let o = if p < at { p } else { p + 1 };
                assert(after[p] == zones[o]);
                assert(zones[o].zone_id == key);
                lemma_position_of_entry(zones, o);
            }
            if key != id && has_zone(zones, key) {
                let o = zone_position(zones, key);
                let p = if o < at { o } else { o - 1 };
                assert(after[p] == zones[o]);
                lemma_position_of_entry(after, p);
            }
        }
    }
    assert(left.dom() =~= right.dom());
    assert(left =~= right);
}

/// A patched position in the store is a patched position in the map.
pub proof fn lemma_map_seek(zones: Seq<ZoneView>, seek: ZoneSeekView)
    requires
        distinct_ids(zones),
    ensures
        zone_map(patch_seek_zone(zones, seek.zone_id, seek.seek_position)) == map_seek(
            zone_map(zones),
            seek,
        ),
{
    let after = patch_seek_zone(zones, seek.zone_id, seek.seek_position);
    lemma_patch_keeps_distinct(zones, seek.zone_id, seek.seek_position);
    let left = zone_map(after);
    let right = map_seek(zone_map(zones), seek);
    assert forall|key: Seq<char>|
        #![trigger left.dom().contains(key)]
        #![trigger right.dom().contains(key)]
        left.dom().contains(key) == right.dom().contains(key) && (left.dom().contains(key)
            ==> left[key] == right[key]) by {
        if has_zone(zones, seek.zone_id) {
            let at = zone_position(zones, seek.zone_id);
            if has_zone(after, key) {
                let p = zone_position(after, key);
                assert(zones[p].zone_id == key);
                lemma_position_of_entry(zones, p);
                lemma_position_of_entry(after, p);
            }
            if has_zone(zones, key) {
                let p = zone_position(zones, key);
                assert(after[p].zone_id == key);
                lemma_position_of_entry(after, p);
            }
        }
    }
    assert(left.dom() =~= right.dom());
    assert(left =~= right);
}

/// A batch of upserts on the store is the batch on the map.
pub proof fn lemma_map_upsert_all(zones: Seq<ZoneView>, batch: Seq<ZoneView>)
    requires
        distinct_ids(zones),
    ensures
        zone_map(upsert_all(zones, batch)) == map_upsert_all(zone_map(zones), batch),
    decreases batch.len(),
{
    if batch.len() > 0 {
        lemma_map_upsert_all(zones, batch.drop_last());
        lemma_upsert_all_distinct(zones, batch.drop_last());
        lemma_map_upsert(upsert_all(zones, batch.drop_last()), batch.last());
    }
}

/// A batch of removals from the store is the batch on the map.
pub proof fn lemma_map_remove_all(zones: Seq<ZoneView>, ids: Seq<Seq<char>>)
    requires
        distinct_ids(zones),
    ensures
        zone_map(remove_all(zones, ids)) == map_remove_all(zone_map(zones), ids),
    decreases ids.len(),
{
    if ids.len() > 0 {
        lemma_map_remove_all(zones, ids.drop_last());
        lemma_remove_all_distinct(zones, ids.drop_last());
        lemma_map_remove(remove_all(zones, ids.drop_last()), ids.last());
    }
}

/// A batch of seek positions on the store is the batch on the map.
pub proof fn lemma_map_seek_all(zones: Seq<ZoneView>, seeks: Seq<ZoneSeekView>)
    requires
        distinct_ids(zones),
    ensures
        zone_map(seek_all(zones, seeks)) == map_seek_all(zone_map(zones), seeks),
    decreases seeks.len(),
{
    if seeks.len() > 0 {
        lemma_map_seek_all(zones, seeks.drop_last());
        lemma_seek_all_distinct(zones, seeks.drop_last());
        lemma_map_seek(seek_all(zones, seeks.drop_last()), seeks.last());
    }
}

/// One input does to the store what it does to the reference map.
pub proof fn lemma_advance_agrees(state: ClientView, input: Input)
    requires
        state.wf(),
    ensures
        zone_map(advance(state, input).0.zones) == replay_one(zone_map(state.zones), input),
{
    match input {
        Input::Incoming { event, now } => match event {
            EventView::Zones(batch) => {
                lemma_map_upsert_all(state.zones, batch);
            },
            EventView::ZonesRemoved(ids) => {
                lemma_map_remove_all(state.zones, ids);
            },
            EventView::ZonesSeek(seeks) => {
                lemma_map_seek_all(state.zones, seeks);
            },
            EventView::Lost => {
                assert(zone_map(Seq::<ZoneView>::empty()) =~= Map::<
                    Seq<char>,
                    ZoneView,
                >::empty());
            },
            _ => {},
        },
        Input::Deadline { now } => {},
    }
}

/// For every sequence of inputs, the zone store after the run, read as a
/// map, is the map that the reference model arrives at by replaying the
/// same inputs in the same order.
pub proof fn law_store_follows_reference(state: ClientView, inputs: Seq<Input>)
    requires
        state.wf(),
    ensures
        zone_map(run(state, inputs).0.zones) == replay(zone_map(state.zones), inputs),
    decreases inputs.len(),
{
    if inputs.len() > 0 {
        law_store_follows_reference(state, inputs.drop_last());
        lemma_run_keeps_wf(state, inputs.drop_last());
        lemma_advance_agrees(run(state, inputs.drop_last()).0, inputs.last());
    }
}

/// Upserting the same zone twice is upserting it once.
pub proof fn law_upsert_idempotent(zones: Seq<ZoneView>, zone: ZoneView)
    requires
        distinct_ids(zones),
    ensures
        upsert_zone(upsert_zone(zones, zone), zone) == upsert_zone(zones, zone),
{
    let once = upsert_zone(zones, zone);
    lemma_upsert_keeps_distinct(zones, zone);
    if has_zone(zones, zone.zone_id) {
        let at = zone_position(zones, zone.zone_id);
        assert(once[at] == zone);
        lemma_position_of_entry(once, at);
        assert(once.update(at, zone) =~= once);
    } else {
        let at = zones.len() as int;
        assert(once[at] == zone);
        lemma_position_of_entry(once, at);
        assert(once.update(at, zone) =~= once);
    }
}

/// Of two upserts of the same identifier the later one stays.
pub proof fn law_last_upsert_wins(zones: Seq<ZoneView>, earlier: ZoneView, later: ZoneView)
    requires
        distinct_ids(zones),
        earlier.zone_id == later.zone_id,
    ensures
        upsert_zone(upsert_zone(zones, earlier), later) == upsert_zone(zones, later),
{
    let once = upsert_zone(zones, earlier);
    lemma_upsert_keeps_distinct(zones, earlier);
    if has_zone(zones, earlier.zone_id) {
        let at = zone_position(zones, earlier.zone_id);
        assert(once[at] == earlier);
        lemma_position_of_entry(once, at);
        assert(once.update(at, later) =~= zones.update(at, later));
    } else {
        let at = zones.len() as int;
        assert(once[at] == earlier);
        lemma_position_of_entry(once, at);
        assert(once.update(at, later) =~= zones.push(later));
    }
}

} // verus!
