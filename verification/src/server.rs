//! The bodies of the HTTP server's answers, made from the engine's state.

use vstd::prelude::*;
use vstd::string::*;

use crate::roon::queue::QueueItem;
use crate::roon::queue::QueueItemView;
use crate::roon::view_model::non_empty;
use crate::roon::view_model::WsZoneData;
use crate::roon::zone::state_name;
use crate::roon::zone::state_name_spec;
use crate::roon::zone::OutputView;
use crate::roon::zone::Zone;
use crate::roon::zone::ZoneView;

verus! {

/// The answer to a status request.
#[derive(Debug, PartialEq, Eq)]
pub struct StatusResponse {
    pub connected: bool,
    pub core_name: Option<String>,
    pub message: String,
}

/// One zone in the answer to a zones request.
#[derive(Debug, PartialEq, Eq)]
pub struct ZoneInfo {
    pub zone_id: String,
    pub display_name: String,
    pub state: String,
    pub devices: Vec<String>,
}

pub struct ZoneInfoView {
    pub zone_id: Seq<char>,
    pub display_name: Seq<char>,
    pub state: Seq<char>,
    pub devices: Seq<Seq<char>>,
}

impl View for ZoneInfo {
    type V = ZoneInfoView;

    open spec fn view(&self) -> ZoneInfoView {
        ZoneInfoView {
            zone_id: self.zone_id@,
            display_name: self.display_name@,
            state: self.state@,
            devices: self.devices.deep_view(),
        }
    }
}

impl DeepView for ZoneInfo {
    type V = ZoneInfoView;

    open spec fn deep_view(&self) -> ZoneInfoView {
        self@
    }
}

/// The answer to a zones request.
#[derive(Debug, PartialEq, Eq)]
pub struct ZonesResponse {
    pub zones: Vec<ZoneInfo>,
    pub count: usize,
}

/// The answer to a now-playing request.
#[derive(Debug, PartialEq, Eq)]
pub struct NowPlayingResponse {
    pub now_playing: Vec<WsZoneData>,
    pub count: usize,
}

/// The answer to a reconnect request.
#[derive(Debug, PartialEq, Eq)]
pub struct ReconnectResponse {
    pub success: bool,
    pub message: String,
}

/// The answer to a version request.
#[derive(Debug, PartialEq, Eq)]
pub struct VersionResponse {
    pub version: String,
}

/// One item in the answer to a queue request.
#[derive(Debug, PartialEq, Eq)]
pub struct QueueItemInfo {
    pub queue_item_id: u32,
    pub title: String,
    pub artist: Option<String>,
    pub album: Option<String>,
    pub length: u32,
    pub image_key: Option<String>,
    pub one_line: String,
    pub two_line_1: String,
    pub two_line_2: String,
}

pub struct QueueItemInfoView {
    pub queue_item_id: u32,
    pub title: Seq<char>,
    pub artist: Option<Seq<char>>,
    pub album: Option<Seq<char>>,
    pub length: u32,
    pub image_key: Option<Seq<char>>,
    pub one_line: Seq<char>,
    pub two_line_1: Seq<char>,
    pub two_line_2: Seq<char>,
}

impl View for QueueItemInfo {
    type V = QueueItemInfoView;

    open spec fn view(&self) -> QueueItemInfoView {
        QueueItemInfoView {
            queue_item_id: self.queue_item_id,
            title: self.title@,
            artist: self.artist.deep_view(),
            album: self.album.deep_view(),
            length: self.length,
            image_key: self.image_key.deep_view(),
            one_line: self.one_line@,
            two_line_1: self.two_line_1@,
            two_line_2: self.two_line_2@,
        }
    }
}

impl DeepView for QueueItemInfo {
    type V = QueueItemInfoView;

    open spec fn deep_view(&self) -> QueueItemInfoView {
        self@
    }
}

/// The sentence that goes with a connection status.
pub open spec fn status_message(connected: bool) -> Seq<char> {
    if connected {
        "Connected to Roon Core"@
    } else {
        "Not connected. Please authorize the extension in Roon Settings > Extensions"@
    }
}

/// The answer to a status request.
pub fn status_response(connected: bool, core_name: Option<String>) -> (response: StatusResponse)
    ensures
        response.connected == connected,
        response.core_name == core_name,
        response.message@ == status_message(connected),
{
    let message = if connected {
        String::from_str("Connected to Roon Core")
    } else {
        String::from_str(
            "Not connected. Please authorize the extension in Roon Settings > Extensions",
        )
    };
    StatusResponse { connected, core_name, message }
}

/// The sentence that goes with the outcome of a reconnect.
pub open spec fn reconnect_message(failure: Option<Seq<char>>) -> Seq<char> {
    match failure {
        None => "Reconnection initiated. Please check status."@,
        Some(reason) => "Reconnection failed: "@ + reason,
    }
}

/// The answer to a reconnect request; `failure` is why it failed, if it
/// did.
pub fn reconnect_response(failure: Option<String>) -> (response: ReconnectResponse)
    ensures
        response.success == (failure is None),
        response.message@ == reconnect_message(failure.deep_view()),
{
    match failure {
        None => ReconnectResponse {
            success: true,
            message: String::from_str("Reconnection initiated. Please check status."),
        },
        Some(reason) => ReconnectResponse {
            success: false,
            message: String::from_str("Reconnection failed: ").concat(reason.as_str()),
        },
    }
}

/// The display names of outputs, in order.
pub open spec fn device_names(outputs: Seq<OutputView>) -> Seq<Seq<char>> {
    Seq::new(outputs.len(), |i: int| outputs[i].display_name)
}

/// A zone as the zones request shows it.
pub open spec fn zone_info_of(zone: ZoneView) -> ZoneInfoView {
    ZoneInfoView {
        zone_id: zone.zone_id,
        display_name: zone.display_name,
        state: state_name_spec(zone.state),
        devices: device_names(zone.outputs),
    }
}

/// A zone as the zones request shows it.
pub fn zone_info(zone: &Zone) -> (info: ZoneInfo)
    ensures
        info@ == zone_info_of(zone@),
{
    let mut devices: Vec<String> = Vec::new();
    let mut i: usize = 0;
    while i < zone.outputs.len()
        invariant
            i <= zone.outputs.len(),
            devices.len() == i,
            forall|k: int|
                0 <= k < i ==> (#[trigger] devices.deep_view()[k])
                    == zone.outputs.deep_view()[k].display_name,
        decreases zone.outputs.len() - i,
    {
        let ghost so_far = devices.deep_view();
        let name = zone.outputs[i].display_name.clone();
        devices.push(name);
        assert(devices.deep_view() =~= so_far.push(name@));
        i += 1;
    }
    assert(devices.deep_view() =~= device_names(zone.outputs.deep_view()));
    ZoneInfo {
        zone_id: zone.zone_id.clone(),
        display_name: zone.display_name.clone(),
        state: state_name(zone.state),
        devices,
    }
}

/// The answer to a zones request: every zone, and how many there are.
pub fn zones_response(zones: &Vec<Zone>) -> (response: ZonesResponse)
    ensures
        response.count == zones.len(),
        response.zones.deep_view() == Seq::new(
            zones.len() as nat,
            |i: int| zone_info_of(zones.deep_view()[i]),
        ),
{
    let mut infos: Vec<ZoneInfo> = Vec::new();
    let mut i: usize = 0;
    while i < zones.len()
        invariant
            i <= zones.len(),
            infos.len() == i,
            forall|k: int|
                0 <= k < i ==> (#[trigger] infos.deep_view()[k]) == zone_info_of(
                    zones.deep_view()[k],
                ),
        decreases zones.len() - i,
    {
        let ghost so_far = infos.deep_view();
        let info = zone_info(&zones[i]);
        infos.push(info);
        assert(infos.deep_view() =~= so_far.push(info@));
        i += 1;
    }
    assert(infos.deep_view() =~= Seq::new(
        zones.len() as nat,
        |i: int| zone_info_of(zones.deep_view()[i]),
    ));
    let count = infos.len();
    ZonesResponse { zones: infos, count }
}

/// The answer to a now-playing request: the view-models, and how many
/// there are.
pub fn now_playing_response(now_playing: Vec<WsZoneData>) -> (response: NowPlayingResponse)
    ensures
        response.now_playing == now_playing,
        response.count == now_playing.len(),
{
    let count = now_playing.len();
    NowPlayingResponse { now_playing, count }
}

/// A queue item as the queue request shows it.
pub open spec fn queue_item_info_of(item: QueueItemView) -> QueueItemInfoView {
    QueueItemInfoView {
        queue_item_id: item.queue_item_id,
        title: item.three_line_1,
        artist: non_empty(item.three_line_2),
        album: non_empty(item.three_line_3),
        length: item.length,
        image_key: item.image_key,
        one_line: item.one_line,
        two_line_1: item.two_line_1,
        two_line_2: item.two_line_2,
    }
}

fn kept_if_not_empty(text: &String) -> (kept: Option<String>)
    ensures
        kept.deep_view() == non_empty(text@),
{
    if text.as_str().is_empty() {
        None
    } else {
        Some(text.clone())
    }
}

/// A queue item as the queue request shows it.
pub fn queue_item_info(item: &QueueItem) -> (info: QueueItemInfo)
    ensures
        info@ == queue_item_info_of(item@),
{
    QueueItemInfo {
        queue_item_id: item.queue_item_id,
        title: item.three_line_1.clone(),
        artist: kept_if_not_empty(&item.three_line_2),
        album: kept_if_not_empty(&item.three_line_3),
        length: item.length,
        image_key: item.image_key.clone(),
        one_line: item.one_line.clone(),
        two_line_1: item.two_line_1.clone(),
        two_line_2: item.two_line_2.clone(),
    }
}

/// The items of the answer to a queue request; a zone without a cached
/// queue has none.
pub fn queue_response(queue: &Option<Vec<QueueItem>>) -> (items: Vec<QueueItemInfo>)
    ensures
        items.deep_view() == (match queue.deep_view() {
            Some(queue) => Seq::new(queue.len(), |i: int| queue_item_info_of(queue[i])),
            None => Seq::empty(),
        }),
{
    let mut items: Vec<QueueItemInfo> = Vec::new();
    match queue {
        None => {
            assert(items.deep_view() =~= Seq::<QueueItemInfoView>::empty());
        },
        Some(queue) => {
            let mut i: usize = 0;
            while i < queue.len()
                invariant
                    i <= queue.len(),
                    items.len() == i,
                    forall|k: int|
                        0 <= k < i ==> (#[trigger] items.deep_view()[k]) == queue_item_info_of(
                            queue.deep_view()[k],
                        ),
                decreases queue.len() - i,
            {
                let ghost so_far = items.deep_view();
                let info = queue_item_info(&queue[i]);
                items.push(info);
                assert(items.deep_view() =~= so_far.push(info@));
                i += 1;
            }
            assert(items.deep_view() =~= Seq::new(
                queue.deep_view().len(),
                |i: int| queue_item_info_of(queue.deep_view()[i]),
            ));
        },
    }
    items
}

/// How many times the image handler looks for an image it has asked for.
pub const IMAGE_WAIT_ROUNDS: u32 = 20;

/// How long the image handler waits between two looks, in milliseconds.
pub const IMAGE_WAIT_STEP_MS: u64 = 100;

} // verus!
