//! The zone store: every zone the upstream source has reported and not yet
//! removed, at most one entry per identifier, in order of first report.

use vstd::prelude::*;
use vstd::string::*;

use crate::roon::zone::NowPlayingView;
use crate::roon::zone::Zone;
use crate::roon::zone::ZoneView;
use crate::text::str_eq;

verus! {

/// Some entry of `zones` carries the identifier `id`.
pub open spec fn has_zone(zones: Seq<ZoneView>, id: Seq<char>) -> bool {
    exists|i: int| 0 <= i < zones.len() && (#[trigger] zones[i]).zone_id == id
}

/// The place of an entry with identifier `id`, when there is one.
pub open spec fn zone_position(zones: Seq<ZoneView>, id: Seq<char>) -> int {
    choose|i: int| 0 <= i < zones.len() && (#[trigger] zones[i]).zone_id == id
}

/// No two entries share an identifier.
pub open spec fn distinct_ids(zones: Seq<ZoneView>) -> bool {
    forall|i: int, j: int|
        0 <= i < j < zones.len() ==> (#[trigger] zones[i]).zone_id != (#[trigger] zones[j]).zone_id
}

/// Replace the entry that has the zone's identifier, or add the zone at
/// the end when no entry has it.
pub open spec fn upsert_zone(zones: Seq<ZoneView>, zone: ZoneView) -> Seq<ZoneView> {
    if has_zone(zones, zone.zone_id) {
        zones.update(zone_position(zones, zone.zone_id), zone)
    } else {
        zones.push(zone)
    }
}

/// Drop the entry with identifier `id`, if there is one.
pub open spec fn remove_zone(zones: Seq<ZoneView>, id: Seq<char>) -> Seq<ZoneView> {
    if has_zone(zones, id) {
        zones.remove(zone_position(zones, id))
    } else {
        zones
    }
}

/// A zone with only its playback position changed; a zone that plays
/// nothing is left as it is.
pub open spec fn with_position(zone: ZoneView, position: Option<i64>) -> ZoneView {
    match zone.now_playing {
        Some(playing) => ZoneView {
            now_playing: Some(NowPlayingView { seek_position: position, ..playing }),
            ..zone
        },
        None => zone,
    }
}

/// Set the playback position of the entry with identifier `id`, if there
/// is one and it plays something.
pub open spec fn patch_seek_zone(zones: Seq<ZoneView>, id: Seq<char>, position: Option<i64>) -> Seq<
    ZoneView,
> {
    if has_zone(zones, id) {
        let at = zone_position(zones, id);
        zones.update(at, with_position(zones[at], position))
    } else {
        zones
    }
}

/// The store read as a finite map from identifier to zone.
pub open spec fn zone_map(zones: Seq<ZoneView>) -> Map<Seq<char>, ZoneView> {
    Map::new(|id: Seq<char>| has_zone(zones, id), |id: Seq<char>| zones[zone_position(zones, id)])
}

/// With distinct identifiers, an entry's identifier leads back to its place.
pub proof fn lemma_position_of_entry(zones: Seq<ZoneView>, at: int)
    requires
        distinct_ids(zones),
        0 <= at < zones.len(),
    ensures
        has_zone(zones, zones[at].zone_id),
        zone_position(zones, zones[at].zone_id) == at,
{
    let id = zones[at].zone_id;
    let found = zone_position(zones, id);
    assert(0 <= found < zones.len() && zones[found].zone_id == id);
    if found < at {
        assert(zones[found].zone_id != zones[at].zone_id);
    } else if at < found {
        assert(zones[at].zone_id != zones[found].zone_id);
    }
}

/// Upserting keeps identifiers distinct.
pub proof fn lemma_upsert_keeps_distinct(zones: Seq<ZoneView>, zone: ZoneView)
    requires
        distinct_ids(zones),
    ensures
        distinct_ids(upsert_zone(zones, zone)),
{
    let after = upsert_zone(zones, zone);
    if has_zone(zones, zone.zone_id) {
        let at = zone_position(zones, zone.zone_id);
        assert forall|i: int, j: int| 0 <= i < j < after.len() implies (#[trigger] after[i]).zone_id
            != (#[trigger] after[j]).zone_id by {
            assert(zones[i].zone_id != zones[j].zone_id);
            assert(after[i].zone_id == zones[i].zone_id);
            assert(after[j].zone_id == zones[j].zone_id);
        }
    } else {
        assert forall|i: int, j: int| 0 <= i < j < after.len() implies (#[trigger] after[i]).zone_id
            != (#[trigger] after[j]).zone_id by {
            if j < zones.len() {
                assert(zones[i].zone_id != zones[j].zone_id);
            } else {
                assert(zones[i].zone_id != zone.zone_id);
            }
        }
    }
}

/// Removing keeps identifiers distinct.
pub proof fn lemma_remove_keeps_distinct(zones: Seq<ZoneView>, id: Seq<char>)
    requires
        distinct_ids(zones),
    ensures
        distinct_ids(remove_zone(zones, id)),
        !has_zone(remove_zone(zones, id), id),
{
    let after = remove_zone(zones, id);
    if has_zone(zones, id) {
        let at = zone_position(zones, id);
        assert forall|i: int, j: int| 0 <= i < j < after.len() implies (#[trigger] after[i]).zone_id
            != (#[trigger] after[j]).zone_id by {
            let oi = if i < at { i } else { i + 1 };
            let oj = if j < at { j } else { j + 1 };
            assert(zones[oi].zone_id != zones[oj].zone_id);
        }
        assert forall|i: int| 0 <= i < after.len() implies (#[trigger] after[i]).zone_id != id by {
            let oi = if i < at { i } else { i + 1 };
            if oi < at {
                assert(zones[oi].zone_id != zones[at].zone_id);
            } else {
                assert(zones[at].zone_id != zones[oi].zone_id);
            }
        }
    }
}

/// Patching a position keeps identifiers distinct.
pub proof fn lemma_patch_keeps_distinct(zones: Seq<ZoneView>, id: Seq<char>, position: Option<i64>)
    requires
        distinct_ids(zones),
    ensures
        distinct_ids(patch_seek_zone(zones, id, position)),
        patch_seek_zone(zones, id, position).len() == zones.len(),
        forall|i: int|
            0 <= i < zones.len() ==> (#[trigger] patch_seek_zone(zones, id, position)[i]).zone_id
                == zones[i].zone_id && patch_seek_zone(zones, id, position)[i].state
                == zones[i].state,
{
    let after = patch_seek_zone(zones, id, position);
    assert forall|i: int| 0 <= i < zones.len() implies (#[trigger] after[i]).zone_id
        == zones[i].zone_id && after[i].state == zones[i].state by {}
    assert forall|i: int, j: int| 0 <= i < j < after.len() implies (#[trigger] after[i]).zone_id
        != (#[trigger] after[j]).zone_id by {
        assert(zones[i].zone_id != zones[j].zone_id);
    }
}

/// The authoritative collection of zones.
#[derive(Debug)]
pub struct ZoneStore {
    zones: Vec<Zone>,
}

impl View for ZoneStore {
    type V = Seq<ZoneView>;

    closed spec fn view(&self) -> Seq<ZoneView> {
        self.zones.deep_view()
    }
}

impl ZoneStore {
    /// The store's invariant: one entry per identifier.
    pub open spec fn wf(&self) -> bool {
        distinct_ids(self@)
    }

    /// An empty store.
    pub fn new() -> (store: Self)
        ensures
            store@ == Seq::<ZoneView>::empty(),
            store.wf(),
    {
        let store = ZoneStore { zones: Vec::new() };
        assert(store@ =~= Seq::<ZoneView>::empty());
        store
    }

    /// The number of zones held.
    pub fn len(&self) -> (n: usize)
        ensures
            n == self@.len(),
    {
        self.zones.len()
    }

    /// The place of the zone with identifier `id`.
    pub fn position(&self, id: &str) -> (found: Option<usize>)
        requires
            self.wf(),
        ensures
            found is Some <==> has_zone(self@, id@),
            found is Some ==> found->0 == zone_position(self@, id@),
    {
        let mut i: usize = 0;
        while i < self.zones.len()
            invariant
                i <= self.zones.len(),
                self.wf(),
                forall|k: int| 0 <= k < i ==> (#[trigger] self@[k]).zone_id != id@,
            decreases self.zones.len() - i,
        {
            if str_eq(self.zones[i].zone_id.as_str(), id) {
                proof {
                    assert(self@[i as int].zone_id == id@);
                    lemma_position_of_entry(self@, i as int);
                }
                return Some(i);
            }
            i += 1;
        }
        None
    }

    /// The zone with identifier `id`, if the store holds one.
    pub fn get(&self, id: &str) -> (found: Option<&Zone>)
        requires
            self.wf(),
        ensures
            found is Some <==> has_zone(self@, id@),
            found is Some ==> found->0@ == self@[zone_position(self@, id@)],
    {
        match self.position(id) {
            Some(at) => Some(&self.zones[at]),
            None => None,
        }
    }

    /// Replaces the zone that has the same identifier, or adds the zone.
    pub fn upsert(&mut self, zone: Zone)
        requires
            old(self).wf(),
        ensures
            final(self).wf(),
            final(self)@ == upsert_zone(old(self)@, zone@),
    {
        let ghost before = self@;
        let found = self.position(zone.zone_id.as_str());
        proof {
            lemma_upsert_keeps_distinct(before, zone@);
        }
        match found {
            Some(at) => {
                self.zones[at] = zone;
                assert(self@ =~= before.update(at as int, zone@));
            },
            None => {
                self.zones.push(zone);
                assert(self@ =~= before.push(zone@));
            },
        }
    }

    /// Deletes the zone with identifier `id`; `true` when there was one.
    pub fn remove(&mut self, id: &str) -> (removed: bool)
        requires
            old(self).wf(),
        ensures
            final(self).wf(),
            final(self)@ == remove_zone(old(self)@, id@),
            removed == has_zone(old(self)@, id@),
    {
        let ghost before = self@;
        let found = self.position(id);
        proof {
            lemma_remove_keeps_distinct(before, id@);
        }
        match found {
            Some(at) => {
                let _ = self.zones.remove(at);
                assert(self@ =~= before.remove(at as int));
                true
            },
            None => false,
        }
    }

    /// Sets the playback position of the zone with identifier `id`, if the
    /// store holds it and it plays something; otherwise changes nothing.
    pub fn patch_seek(&mut self, id: &str, position: Option<i64>)
        requires
            old(self).wf(),
        ensures
            final(self).wf(),
            final(self)@ == patch_seek_zone(old(self)@, id@, position),
    {
        let ghost before = self@;
        let found = self.position(id);
        proof {
            lemma_patch_keeps_distinct(before, id@, position);
        }
        match found {
            Some(at) => {
                let mut zone = self.zones[at].clone();
                match zone.now_playing {
                    Some(mut playing) => {
                        playing.seek_position = position;
                        zone.now_playing = Some(playing);
                    },
                    None => {},
                }
                assert(zone@ == with_position(before[at as int], position));
                self.zones[at] = zone;
                assert(self@ =~= before.update(
                    at as int,
                    with_position(before[at as int], position),
                ));
            },
            None => {},
        }
    }

    /// A copy of every zone, in store order.
    pub fn snapshot(&self) -> (zones: Vec<Zone>)
        ensures
            zones.deep_view() == self@,
    {
        let zones = self.zones.clone();
        assert(zones.deep_view() =~= self.zones.deep_view());
        zones
    }

    /// The zones, in store order.
    pub fn zones(&self) -> (zones: &Vec<Zone>)
        ensures
            zones.deep_view() == self@,
    {
        &self.zones
    }

    /// Forgets every zone.
    pub fn clear(&mut self)
        ensures
            final(self)@ == Seq::<ZoneView>::empty(),
            final(self).wf(),
    {
        self.zones.clear();
        assert(self@ =~= Seq::<ZoneView>::empty());
    }
}

} // verus!
