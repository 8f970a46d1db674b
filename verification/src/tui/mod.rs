//! The state behind the terminal UI: the bounded buffers of output lines
//! and events, the zones on display, and the text they are shown with.

use vstd::prelude::*;
use vstd::string::*;

pub mod app;
pub mod layout;

pub use self::app::App;
pub use self::app::KeyCode;
pub use self::app::KeyEvent;
pub use self::app::MaximizedWindow;
pub use self::app::Modifiers;
pub use self::app::Rect;

use crate::roon::view_model::WsZoneData;
use crate::roon::view_model::WsZoneView;
use crate::text::decimal;
use crate::text::str_eq;
use crate::text::two_digit_string;
use crate::text::two_digits;
use crate::text::u64_to_string;

verus! {

/// The lines of a bounded buffer after one more line: the new line goes
/// to the end, and the oldest line leaves when the limit is passed.
pub open spec fn pushed(lines: Seq<Seq<char>>, limit: usize, line: Seq<char>) -> Seq<Seq<char>> {
    let all = lines.push(line);
    if all.len() > limit {
        all.drop_first()
    } else {
        all
    }
}

/// The output lines of the terminal UI, the oldest first.
#[derive(Debug)]
pub struct MessageBuffer {
    messages: Vec<String>,
    max_messages: usize,
}

pub struct MessageBufferView {
    pub messages: Seq<Seq<char>>,
    pub max_messages: usize,
}

impl View for MessageBuffer {
    type V = MessageBufferView;

    closed spec fn view(&self) -> MessageBufferView {
        MessageBufferView {
            messages: self.messages.deep_view(),
            max_messages: self.max_messages,
        }
    }
}

impl MessageBuffer {
    /// The buffer holds no more lines than its limit.
    pub open spec fn within_limit(&self) -> bool {
        self@.messages.len() <= self@.max_messages
    }

    /// An empty buffer that keeps at most `max_messages` lines.
    pub fn new(max_messages: usize) -> (buffer: Self)
        ensures
            buffer@.messages == Seq::<Seq<char>>::empty(),
            buffer@.max_messages == max_messages,
            buffer.within_limit(),
    {
        let buffer = MessageBuffer { messages: Vec::new(), max_messages };
        assert(buffer@.messages =~= Seq::<Seq<char>>::empty());
        buffer
    }

    /// Adds a line; the oldest line leaves when the limit is passed.
    pub fn push(&mut self, message: String)
        ensures
            final(self)@.max_messages == old(self)@.max_messages,
            final(self)@.messages == pushed(
                old(self)@.messages,
                old(self)@.max_messages,
                message@,
            ),
            old(self).within_limit() ==> final(self).within_limit(),
    {
        let ghost before = self@.messages;
        self.messages.push(message);
        assert(self@.messages =~= before.push(message@));
        if self.messages.len() > self.max_messages {
            let _ = self.messages.remove(0);
            assert(self@.messages =~= before.push(message@).drop_first());
        }
    }

    /// The lines, the oldest first.
    pub fn messages(&self) -> (lines: &[String])
        ensures
            lines.deep_view() == self@.messages,
    {
        let lines = self.messages.as_slice();
        assert(lines.deep_view() =~= self.messages.deep_view());
        lines
    }

    /// Drops every line.
    pub fn clear(&mut self)
        ensures
            final(self)@.max_messages == old(self)@.max_messages,
            final(self)@.messages == Seq::<Seq<char>>::empty(),
    {
        self.messages.clear();
        assert(self@.messages =~= Seq::<Seq<char>>::empty());
    }
}

/// The upstream events shown in the terminal UI, the oldest first.
#[derive(Debug)]
pub struct EventBuffer {
    events: Vec<String>,
    max_events: usize,
}

pub struct EventBufferView {
    pub events: Seq<Seq<char>>,
    pub max_events: usize,
}

impl View for EventBuffer {
    type V = EventBufferView;

    closed spec fn view(&self) -> EventBufferView {
        EventBufferView { events: self.events.deep_view(), max_events: self.max_events }
    }
}

impl EventBuffer {
    /// The buffer holds no more events than its limit.
    pub open spec fn within_limit(&self) -> bool {
        self@.events.len() <= self@.max_events
    }

    /// An empty buffer that keeps at most `max_events` events.
    pub fn new(max_events: usize) -> (buffer: Self)
        ensures
            buffer@.events == Seq::<Seq<char>>::empty(),
            buffer@.max_events == max_events,
            buffer.within_limit(),
    {
        let buffer = EventBuffer { events: Vec::new(), max_events };
        assert(buffer@.events =~= Seq::<Seq<char>>::empty());
        buffer
    }

    /// Adds an event; the oldest event leaves when the limit is passed.
    pub fn push(&mut self, event: String)
        ensures
            final(self)@.max_events == old(self)@.max_events,
            final(self)@.events == pushed(old(self)@.events, old(self)@.max_events, event@),
            old(self).within_limit() ==> final(self).within_limit(),
    {
        let ghost before = self@.events;
        self.events.push(event);
        assert(self@.events =~= before.push(event@));
        if self.events.len() > self.max_events {
            let _ = self.events.remove(0);
            assert(self@.events =~= before.push(event@).drop_first());
        }
    }

    /// The events, the oldest first.
    pub fn events(&self) -> (events: &[String])
        ensures
            events.deep_view() == self@.events,
    {
        let events = self.events.as_slice();
        assert(events.deep_view() =~= self.events.deep_view());
        events
    }

    /// Drops every event.
    pub fn clear(&mut self)
        ensures
            final(self)@.max_events == old(self)@.max_events,
            final(self)@.events == Seq::<Seq<char>>::empty(),
    {
        self.events.clear();
        assert(self@.events =~= Seq::<Seq<char>>::empty());
    }
}

/// One zone as the terminal UI shows it.
#[derive(Debug, PartialEq, Eq)]
pub struct ZoneDisplay {
    pub zone_id: String,
    pub zone_name: String,
    pub state: String,
    pub track: Option<String>,
    pub artist: Option<String>,
    pub album: Option<String>,
    pub format: Option<String>,
    pub position_seconds: Option<i64>,
    pub length_seconds: Option<u32>,
}

pub struct ZoneDisplayView {
    pub zone_id: Seq<char>,
    pub zone_name: Seq<char>,
    pub state: Seq<char>,
    pub track: Option<Seq<char>>,
    pub artist: Option<Seq<char>>,
    pub album: Option<Seq<char>>,
    pub format: Option<Seq<char>>,
    pub position_seconds: Option<i64>,
    pub length_seconds: Option<u32>,
}

impl View for ZoneDisplay {
    type V = ZoneDisplayView;

    open spec fn view(&self) -> ZoneDisplayView {
        ZoneDisplayView {
            zone_id: self.zone_id@,
            zone_name: self.zone_name@,
            state: self.state@,
            track: self.track.deep_view(),
            artist: self.artist.deep_view(),
            album: self.album.deep_view(),
            format: self.format.deep_view(),
            position_seconds: self.position_seconds,
            length_seconds: self.length_seconds,
        }
    }
}

impl DeepView for ZoneDisplay {
    type V = ZoneDisplayView;

    open spec fn deep_view(&self) -> ZoneDisplayView {
        self@
    }
}

impl Clone for ZoneDisplay {
    fn clone(&self) -> (copy: Self)
        ensures
            copy@ == self@,
    {
        ZoneDisplay {
            zone_id: self.zone_id.clone(),
            zone_name: self.zone_name.clone(),
            state: self.state.clone(),
            track: self.track.clone(),
            artist: self.artist.clone(),
            album: self.album.clone(),
            format: self.format.clone(),
            position_seconds: self.position_seconds,
            length_seconds: self.length_seconds,
        }
    }
}

/// The place of the first zone at or after `from` with identifier `id`,
/// or the number of zones when there is none.
pub open spec fn first_shown_from(zones: Seq<ZoneDisplayView>, id: Seq<char>, from: int) -> int
    decreases zones.len() - from,
{
    if from < 0 || from >= zones.len() {
        zones.len() as int
    } else if zones[from].zone_id == id {
        from
    } else {
        first_shown_from(zones, id, from + 1)
    }
}

/// The zones on display after the position of the first zone with
/// identifier `id` has been set; nothing changes when no zone has it.
pub open spec fn with_shown_position(
    zones: Seq<ZoneDisplayView>,
    id: Seq<char>,
    position: Option<i64>,
) -> Seq<ZoneDisplayView> {
    let at = first_shown_from(zones, id, 0);
    if at < zones.len() {
        zones.update(at, ZoneDisplayView { position_seconds: position, ..zones[at] })
    } else {
        zones
    }
}

/// The zones on display.
#[derive(Debug)]
pub struct ZoneBuffer {
    zones: Vec<ZoneDisplay>,
}

impl View for ZoneBuffer {
    type V = Seq<ZoneDisplayView>;

    closed spec fn view(&self) -> Seq<ZoneDisplayView> {
        self.zones.deep_view()
    }
}

impl ZoneBuffer {
    /// No zones on display.
    pub fn new() -> (buffer: Self)
        ensures
            buffer@ == Seq::<ZoneDisplayView>::empty(),
    {
        let buffer = ZoneBuffer { zones: Vec::new() };
        assert(buffer@ =~= Seq::<ZoneDisplayView>::empty());
        buffer
    }

    /// Puts `zones` on display in place of what was there.
    pub fn update(&mut self, zones: Vec<ZoneDisplay>)
        ensures
            final(self)@ == zones.deep_view(),
    {
        self.zones = zones;
    }

    /// Sets the position of the first zone with identifier `zone_id`.
    pub fn update_position(&mut self, zone_id: &str, position_seconds: Option<i64>)
        ensures
            final(self)@ == with_shown_position(old(self)@, zone_id@, position_seconds),
    {
        let ghost before = self@;
        let mut i: usize = 0;
        while i < self.zones.len()
            invariant
                i <= self.zones.len(),
                self@ == before,
                before == old(self)@,
                first_shown_from(before, zone_id@, 0) == first_shown_from(
                    before,
                    zone_id@,
                    i as int,
                ),
            decreases self.zones.len() - i,
        {
            if str_eq(self.zones[i].zone_id.as_str(), zone_id) {
                let mut zone = self.zones[i].clone();
                zone.position_seconds = position_seconds;
                let ghost changed = zone@;
                self.zones[i] = zone;
                proof {
                    assert(first_shown_from(before, zone_id@, 0) == i);
                    assert(changed == ZoneDisplayView {
                        position_seconds: position_seconds,
                        ..before[i as int]
                    });
                    assert(self@ =~= before.update(i as int, changed));
                }
                return;
            }
            i += 1;
        }
    }

    /// The zones on display.
    pub fn zones(&self) -> (zones: &[ZoneDisplay])
        ensures
            zones.deep_view() == self@,
    {
        let zones = self.zones.as_slice();
        assert(zones.deep_view() =~= self.zones.deep_view());
        zones
    }
}

/// The size of a number of seconds, whichever way it points.
pub open spec fn magnitude(seconds: i64) -> nat {
    if seconds < 0 {
        (-seconds) as nat
    } else {
        seconds as nat
    }
}

/// A time as the terminal UI shows it: `M:SS` below an hour, `H:MM:SS`
/// from an hour up, whichever way the number of seconds points.
pub open spec fn time_text(seconds: i64) -> Seq<char> {
    let size = magnitude(seconds);
    let hours = size / 3600;
    let minutes = (size % 3600) / 60;
    let secs = size % 60;
    if hours > 0 {
        decimal(hours) + ":"@ + two_digits(minutes) + ":"@ + two_digits(secs)
    } else {
        decimal(minutes) + ":"@ + two_digits(secs)
    }
}

/// Formats seconds as `M:SS`, or `H:MM:SS` from an hour up.
pub fn format_time(seconds: i64) -> (text: String)
    ensures
        text@ == time_text(seconds),
{
    let size: u64 = if seconds < 0 {
        if seconds == i64::MIN {
            9223372036854775808u64
        } else {
            (-seconds) as u64
        }
    } else {
        seconds as u64
    };
    let hours: u64 = size / 3600;
    let minutes: u64 = (size % 3600) / 60;
    let secs: u64 = size % 60;
    if hours > 0 {
        u64_to_string(hours).concat(":").concat(two_digit_string(minutes).as_str()).concat(
            ":",
        ).concat(two_digit_string(secs).as_str())
    } else {
        u64_to_string(minutes).concat(":").concat(two_digit_string(secs).as_str())
    }
}

/// The rank of a state name in the list of zones: playing first, then
/// loading, paused, stopped, and anything else last.
pub open spec fn state_priority(state: Seq<char>) -> u8 {
    if state == "playing"@ {
        0
    } else if state == "loading"@ {
        1
    } else if state == "paused"@ {
        2
    } else if state == "stopped"@ {
        3
    } else {
        4
    }
}

/// The rank of a state name in the list of zones (lower comes first).
pub fn get_state_priority(state: &str) -> (priority: u8)
    ensures
        priority == state_priority(state@),
        priority <= 4,
{
    if str_eq(state, "playing") {
        0
    } else if str_eq(state, "loading") {
        1
    } else if str_eq(state, "paused") {
        2
    } else if str_eq(state, "stopped") {
        3
    } else {
        4
    }
}

/// A view-model as the terminal UI shows it.
pub open spec fn display_of(model: WsZoneView) -> ZoneDisplayView {
    ZoneDisplayView {
        zone_id: model.zone_id,
        zone_name: model.zone_name,
        state: model.state,
        track: model.track,
        artist: model.artist,
        album: model.album,
        format: model.dcs_format,
        position_seconds: model.position_seconds,
        length_seconds: model.length_seconds,
    }
}

/// A view-model as the terminal UI shows it.
pub fn zone_display(model: &WsZoneData) -> (shown: ZoneDisplay)
    ensures
        shown@ == display_of(model@),
{
    ZoneDisplay {
        zone_id: model.zone_id.clone(),
        zone_name: model.zone_name.clone(),
        state: model.state.clone(),
        track: model.track.clone(),
        artist: model.artist.clone(),
        album: model.album.clone(),
        format: model.dcs_format.clone(),
        position_seconds: model.position_seconds,
        length_seconds: model.length_seconds,
    }
}

/// The zones of rank `priority`, in their order among `zones`.
pub open spec fn of_priority(zones: Seq<ZoneDisplayView>, priority: u8) -> Seq<ZoneDisplayView>
    decreases zones.len(),
{
    if zones.len() == 0 {
        Seq::empty()
    } else if state_priority(zones.last().state) == priority {
        of_priority(zones.drop_last(), priority).push(zones.last())
    } else {
        of_priority(zones.drop_last(), priority)
    }
}

/// The zones of the ranks below `ranks`, rank after rank, each rank in
/// its order among `zones`.
pub open spec fn ranked_below(zones: Seq<ZoneDisplayView>, ranks: nat) -> Seq<ZoneDisplayView>
    decreases ranks,
{
    if ranks == 0 {
        Seq::empty()
    } else {
        ranked_below(zones, (ranks - 1) as nat) + of_priority(zones, (ranks - 1) as u8)
    }
}

/// The zones in the order of display: by rank of their state, and within
/// a rank in the order in which they came.
pub open spec fn display_order(zones: Seq<ZoneDisplayView>) -> Seq<ZoneDisplayView> {
    ranked_below(zones, 5)
}

/// Puts zones in the order of display: by rank of their state, and
/// within a rank in the order in which they came.
pub fn sort_for_display(zones: &Vec<ZoneDisplay>) -> (sorted: Vec<ZoneDisplay>)
    ensures
        sorted.deep_view() == display_order(zones.deep_view()),
{
    let mut sorted: Vec<ZoneDisplay> = Vec::new();
    let mut rank: u8 = 0;
    assert(sorted.deep_view() =~= ranked_below(zones.deep_view(), 0));
    while rank < 5
        invariant
            rank <= 5,
            sorted.deep_view() == ranked_below(zones.deep_view(), rank as nat),
        decreases 5 - rank,
    {
        let ghost done = sorted.deep_view();
        let mut i: usize = 0;
        assert(zones.deep_view().take(0) =~= Seq::<ZoneDisplayView>::empty());
        assert(sorted.deep_view() =~= done + of_priority(zones.deep_view().take(0), rank));
        while i < zones.len()
            invariant
                i <= zones.len(),
                rank < 5,
                sorted.deep_view() == done + of_priority(zones.deep_view().take(i as int), rank),
            decreases zones.len() - i,
        {
            proof {
                let upto = zones.deep_view().take(i + 1);
                assert(upto.drop_last() =~= zones.deep_view().take(i as int));
                assert(upto.last() == zones[i as int]@);
            }
            if get_state_priority(zones[i].state.as_str()) == rank {
                let ghost so_far = sorted.deep_view();
                let zone = zones[i].clone();
                sorted.push(zone);
                assert(sorted.deep_view() =~= so_far.push(zone@));
                assert(sorted.deep_view() =~= done + of_priority(
                    zones.deep_view().take(i + 1),
                    rank,
                ));
            }
            i += 1;
        }
        assert(zones.deep_view().take(zones.len() as int) =~= zones.deep_view());
        rank += 1;
    }
    sorted
}

/// The last `max_entries` entries of a command history, or all of it
/// when it has no more.
pub open spec fn history_tail_spec(history: Seq<Seq<char>>, max_entries: usize) -> Seq<Seq<char>> {
    if history.len() > max_entries {
        history.subrange(history.len() - max_entries, history.len() as int)
    } else {
        history
    }
}

/// The part of a command history that is kept when it is saved: its last
/// `max_entries` entries.
pub fn history_tail(history: &Vec<String>, max_entries: usize) -> (kept: Vec<String>)
    ensures
        kept.deep_view() == history_tail_spec(history.deep_view(), max_entries),
{
    let start: usize = if history.len() > max_entries {
        history.len() - max_entries
    } else {
        0
    };
    let mut kept: Vec<String> = Vec::new();
    let mut i: usize = start;
    while i < history.len()
        invariant
            start <= i <= history.len(),
            kept.deep_view() =~= history.deep_view().subrange(start as int, i as int),
        decreases history.len() - i,
    {
        let ghost so_far = kept.deep_view();
        let entry = history[i].clone();
        kept.push(entry);
        assert(kept.deep_view() =~= so_far.push(entry@));
        i += 1;
    }
    assert(history.deep_view().subrange(0, history.len() as int) =~= history.deep_view());
    kept
}

} // verus!
