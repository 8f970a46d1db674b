//! The projection of zones that viewers receive, and the messages that
//! carry it.

use vstd::prelude::*;
use vstd::string::*;

use crate::dcs::playback_label;
use crate::dcs::playback_text;
use crate::dcs::DcsPlaybackInfo;
use crate::roon::zone::state_name;
use crate::roon::zone::state_name_spec;
use crate::roon::zone::Output;
use crate::roon::zone::OutputView;
use crate::roon::zone::SourceControl;
use crate::roon::zone::SourceControlView;
use crate::roon::zone::State;
use crate::roon::zone::Zone;
use crate::roon::zone::ZoneView;
use crate::text::starts_with;

verus! {

/// One zone as a viewer sees it.
#[derive(Debug, PartialEq, Eq)]
pub struct WsZoneData {
    pub zone_id: String,
    pub zone_name: String,
    pub state: String,
    pub track: Option<String>,
    pub artist: Option<String>,
    pub album: Option<String>,
    pub position_seconds: Option<i64>,
    pub length_seconds: Option<u32>,
    pub image_key: Option<String>,
    pub is_muted: Option<bool>,
    pub dcs_format: Option<String>,
}

pub struct WsZoneView {
    pub zone_id: Seq<char>,
    pub zone_name: Seq<char>,
    pub state: Seq<char>,
    pub track: Option<Seq<char>>,
    pub artist: Option<Seq<char>>,
    pub album: Option<Seq<char>>,
    pub position_seconds: Option<i64>,
    pub length_seconds: Option<u32>,
    pub image_key: Option<Seq<char>>,
    pub is_muted: Option<bool>,
    pub dcs_format: Option<Seq<char>>,
}

impl View for WsZoneData {
    type V = WsZoneView;

    open spec fn view(&self) -> WsZoneView {
        WsZoneView {
            zone_id: self.zone_id@,
            zone_name: self.zone_name@,
            state: self.state@,
            track: self.track.deep_view(),
            artist: self.artist.deep_view(),
            album: self.album.deep_view(),
            position_seconds: self.position_seconds,
            length_seconds: self.length_seconds,
            image_key: self.image_key.deep_view(),
            is_muted: self.is_muted,
            dcs_format: self.dcs_format.deep_view(),
        }
    }
}

impl DeepView for WsZoneData {
    type V = WsZoneView;

    open spec fn deep_view(&self) -> WsZoneView {
        self@
    }
}

impl Clone for WsZoneData {
    fn clone(&self) -> (copy: Self)
        ensures
            copy@ == self@,
    {
        WsZoneData {
            zone_id: self.zone_id.clone(),
            zone_name: self.zone_name.clone(),
            state: self.state.clone(),
            track: self.track.clone(),
            artist: self.artist.clone(),
            album: self.album.clone(),
            position_seconds: self.position_seconds,
            length_seconds: self.length_seconds,
            image_key: self.image_key.clone(),
            is_muted: self.is_muted,
            dcs_format: self.dcs_format.clone(),
        }
    }
}

/// A message published to every subscriber.
#[derive(Debug, PartialEq, Eq)]
pub enum WsMessage {
    /// The whole picture: one view-model per zone, and the zones they were
    /// made from.
    ZonesChanged { now_playing: Vec<WsZoneData>, raw_zones: Vec<Zone> },
    /// The upstream connection came up or went away.
    ConnectionChanged { connected: bool },
    /// One zone's playback position moved.
    SeekUpdated { zone_id: String, seek_position: Option<i64>, queue_time_remaining: i64 },
    /// The cached play queue of one zone changed.
    QueueChanged { zone_id: String },
}

pub enum WsMessageView {
    ZonesChanged { now_playing: Seq<WsZoneView>, raw_zones: Seq<ZoneView> },
    ConnectionChanged { connected: bool },
    SeekUpdated { zone_id: Seq<char>, seek_position: Option<i64>, queue_time_remaining: i64 },
    QueueChanged { zone_id: Seq<char> },
}

impl View for WsMessage {
    type V = WsMessageView;

    open spec fn view(&self) -> WsMessageView {
        match self {
            WsMessage::ZonesChanged { now_playing, raw_zones } => WsMessageView::ZonesChanged {
                now_playing: now_playing.deep_view(),
                raw_zones: raw_zones.deep_view(),
            },
            WsMessage::ConnectionChanged { connected } => WsMessageView::ConnectionChanged {
                connected: *connected,
            },
            WsMessage::SeekUpdated {
                zone_id,
                seek_position,
                queue_time_remaining,
            } => WsMessageView::SeekUpdated {
                zone_id: zone_id@,
                seek_position: *seek_position,
                queue_time_remaining: *queue_time_remaining,
            },
            WsMessage::QueueChanged { zone_id } => WsMessageView::QueueChanged { zone_id: zone_id@ },
        }
    }
}

impl DeepView for WsMessage {
    type V = WsMessageView;

    open spec fn deep_view(&self) -> WsMessageView {
        self@
    }
}

impl Clone for WsMessage {
    fn clone(&self) -> (copy: Self)
        ensures
            copy@ == self@,
    {
        match self {
            WsMessage::ZonesChanged { now_playing, raw_zones } => {
                let models = now_playing.clone();
                let zones = raw_zones.clone();
                assert(models.deep_view() =~= now_playing.deep_view());
                assert(zones.deep_view() =~= raw_zones.deep_view());
                WsMessage::ZonesChanged { now_playing: models, raw_zones: zones }
            },
            WsMessage::ConnectionChanged { connected } => WsMessage::ConnectionChanged {
                connected: *connected,
            },
            WsMessage::SeekUpdated {
                zone_id,
                seek_position,
                queue_time_remaining,
            } => WsMessage::SeekUpdated {
                zone_id: zone_id.clone(),
                seek_position: *seek_position,
                queue_time_remaining: *queue_time_remaining,
            },
            WsMessage::QueueChanged { zone_id } => WsMessage::QueueChanged {
                zone_id: zone_id.clone(),
            },
        }
    }
}

/// The display name of the first selected source control at or after
/// `from`.
pub open spec fn selected_source_from(controls: Seq<SourceControlView>, from: int) -> Option<
    Seq<char>,
>
    decreases controls.len() - from,
{
    if from < 0 || from >= controls.len() {
        None
    } else if controls[from].selected {
        Some(controls[from].display_name)
    } else {
        selected_source_from(controls, from + 1)
    }
}

/// The display name of the first selected source control.
pub open spec fn selected_source(controls: Seq<SourceControlView>) -> Option<Seq<char>> {
    selected_source_from(controls, 0)
}

/// The mute flag of the first output at or after `from` that reports one.
pub open spec fn first_mute_from(outputs: Seq<OutputView>, from: int) -> Option<bool>
    decreases outputs.len() - from,
{
    if from < 0 || from >= outputs.len() {
        None
    } else if outputs[from].is_muted is Some {
        outputs[from].is_muted
    } else {
        first_mute_from(outputs, from + 1)
    }
}

/// The mute flag of the first output that reports one.
pub open spec fn first_mute(outputs: Seq<OutputView>) -> Option<bool> {
    first_mute_from(outputs, 0)
}

/// The name shown for a zone: its display name, followed in parentheses by
/// the selected source of its first output when there is one.
pub open spec fn composed_name(zone: ZoneView) -> Seq<char> {
    if zone.outputs.len() == 0 {
        zone.display_name
    } else {
        match zone.outputs[0].source_controls {
            Some(controls) => match selected_source(controls) {
                Some(source) => zone.display_name + " ("@ + source + ")"@,
                None => zone.display_name,
            },
            None => zone.display_name,
        }
    }
}

/// A zone of the premium device class that is playing: the only kind of
/// zone that shows a format line, and the kind whose updates wait for the
/// device to settle.
pub open spec fn is_premium_playing(zone: ZoneView, prefix: Seq<char>) -> bool {
    prefix.is_prefix_of(zone.display_name) && zone.state == State::Playing
}

/// `Some(text)` when `text` is not empty.
pub open spec fn non_empty(text: Seq<char>) -> Option<Seq<char>> {
    if text.len() == 0 {
        None
    } else {
        Some(text)
    }
}

/// The view-model of one zone. `label` is the format line that the premium
/// device reports at this moment, if any.
pub open spec fn view_model_of(zone: ZoneView, label: Option<Seq<char>>, prefix: Seq<char>)
    -> WsZoneView {
    WsZoneView {
        zone_id: zone.zone_id,
        zone_name: composed_name(zone),
        state: state_name_spec(zone.state),
        track: match zone.now_playing {
            Some(playing) => Some(playing.line1),
            None => None,
        },
        artist: match zone.now_playing {
            Some(playing) => non_empty(playing.line2),
            None => None,
        },
        album: match zone.now_playing {
            Some(playing) => non_empty(playing.line3),
            None => None,
        },
        position_seconds: match zone.now_playing {
            Some(playing) => playing.seek_position,
            None => None,
        },
        length_seconds: match zone.now_playing {
            Some(playing) => playing.length,
            None => None,
        },
        image_key: match zone.now_playing {
            Some(playing) => playing.image_key,
            None => None,
        },
        is_muted: first_mute(zone.outputs),
        dcs_format: if is_premium_playing(zone, prefix) {
            label
        } else {
            None
        },
    }
}

/// One view-model per zone, in the order of the zones.
pub open spec fn view_models(zones: Seq<ZoneView>, label: Option<Seq<char>>, prefix: Seq<char>)
    -> Seq<WsZoneView> {
    Seq::new(zones.len(), |i: int| view_model_of(zones[i], label, prefix))
}

/// Some zone at or after `from` is a playing zone of the premium class.
pub open spec fn any_premium_playing_from(zones: Seq<ZoneView>, prefix: Seq<char>, from: int)
    -> bool
    decreases zones.len() - from,
{
    if from < 0 || from >= zones.len() {
        false
    } else if is_premium_playing(zones[from], prefix) {
        true
    } else {
        any_premium_playing_from(zones, prefix, from + 1)
    }
}

/// The display name of the first selected source control.
pub fn find_selected_source(controls: &Vec<SourceControl>) -> (found: Option<String>)
    ensures
        found.deep_view() == selected_source(controls.deep_view()),
{
    let mut i: usize = 0;
    while i < controls.len()
        invariant
            i <= controls.len(),
            selected_source(controls.deep_view()) == selected_source_from(
                controls.deep_view(),
                i as int,
            ),
        decreases controls.len() - i,
    {
        if controls[i].selected {
            return Some(controls[i].display_name.clone());
        }
        i += 1;
    }
    None
}

/// The mute flag of the first output that reports one.
pub fn find_first_mute(outputs: &Vec<Output>) -> (found: Option<bool>)
    ensures
        found == first_mute(outputs.deep_view()),
{
    let mut i: usize = 0;
    while i < outputs.len()
        invariant
            i <= outputs.len(),
            first_mute(outputs.deep_view()) == first_mute_from(outputs.deep_view(), i as int),
        decreases outputs.len() - i,
    {
        if outputs[i].is_muted.is_some() {
            return outputs[i].is_muted;
        }
        i += 1;
    }
    None
}

/// The name shown for a zone.
pub fn compose_name(zone: &Zone) -> (name: String)
    ensures
        name@ == composed_name(zone@),
{
    if zone.outputs.len() == 0 {
        return zone.display_name.clone();
    }
    match &zone.outputs[0].source_controls {
        Some(controls) => match find_selected_source(controls) {
            Some(source) => zone.display_name.clone().concat(" (").concat(source.as_str()).concat(
                ")",
            ),
            None => zone.display_name.clone(),
        },
        None => zone.display_name.clone(),
    }
}

/// Is this a playing zone of the premium class?
pub fn premium_playing(zone: &Zone, prefix: &str) -> (yes: bool)
    ensures
        yes == is_premium_playing(zone@, prefix@),
{
    match zone.state {
        State::Playing => starts_with(zone.display_name.as_str(), prefix),
        _ => false,
    }
}

/// Is any of the zones a playing zone of the premium class? Only then is
/// there a format line to ask the device for.
pub fn needs_format(zones: &Vec<Zone>, prefix: &str) -> (yes: bool)
    ensures
        yes == any_premium_playing_from(zones.deep_view(), prefix@, 0),
{
    let mut i: usize = 0;
    while i < zones.len()
        invariant
            i <= zones.len(),
            any_premium_playing_from(zones.deep_view(), prefix@, 0) == any_premium_playing_from(
                zones.deep_view(),
                prefix@,
                i as int,
            ),
        decreases zones.len() - i,
    {
        if premium_playing(&zones[i], prefix) {
            return true;
        }
        i += 1;
    }
    false
}

fn text_if_not_empty(text: &String) -> (kept: Option<String>)
    ensures
        kept.deep_view() == non_empty(text@),
{
    if text.as_str().is_empty() {
        None
    } else {
        Some(text.clone())
    }
}

/// The view-model of one zone.
pub fn zone_view_model(zone: &Zone, label: &Option<String>, prefix: &str) -> (model: WsZoneData)
    ensures
        model@ == view_model_of(zone@, label.deep_view(), prefix@),
{
    let dcs_format = if premium_playing(zone, prefix) {
        label.clone()
    } else {
        None
    };
    match &zone.now_playing {
        Some(playing) => WsZoneData {
            zone_id: zone.zone_id.clone(),
            zone_name: compose_name(zone),
            state: state_name(zone.state),
            track: Some(playing.line1.clone()),
            artist: text_if_not_empty(&playing.line2),
            album: text_if_not_empty(&playing.line3),
            position_seconds: playing.seek_position,
            length_seconds: playing.length,
            image_key: playing.image_key.clone(),
            is_muted: find_first_mute(&zone.outputs),
            dcs_format,
        },
        None => WsZoneData {
            zone_id: zone.zone_id.clone(),
            zone_name: compose_name(zone),
            state: state_name(zone.state),
            track: None,
            artist: None,
            album: None,
            position_seconds: None,
            length_seconds: None,
            image_key: None,
            is_muted: find_first_mute(&zone.outputs),
            dcs_format,
        },
    }
}

/// One view-model per zone, in the order of the zones. `playback` is what
/// the premium device reported when asked just now, if it was asked.
pub fn build_ws_zone_data_from_zones(
    zones: &Vec<Zone>,
    playback: &Option<DcsPlaybackInfo>,
    prefix: &str,
) -> (models: Vec<WsZoneData>)
    ensures
        models.deep_view() == view_models(zones.deep_view(), playback_label(*playback), prefix@),
{
    let label = playback_text(playback);
    let mut models: Vec<WsZoneData> = Vec::new();
    let mut i: usize = 0;
    while i < zones.len()
        invariant
            i <= zones.len(),
            label.deep_view() == playback_label(*playback),
            models.len() == i,
            forall|k: int|
                0 <= k < i ==> (#[trigger] models.deep_view()[k]) == view_model_of(
                    zones.deep_view()[k],
                    playback_label(*playback),
                    prefix@,
                ),
        decreases zones.len() - i,
    {
        let model = zone_view_model(&zones[i], &label, prefix);
        let ghost before = models.deep_view();
        models.push(model);
        assert(models.deep_view() =~= before.push(model@));
        i += 1;
    }
    assert(models.deep_view() =~= view_models(
        zones.deep_view(),
        playback_label(*playback),
        prefix@,
    ));
    models
}

} // verus!
