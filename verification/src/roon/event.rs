//! What the engine is told, and what it asks its host to do.

use vstd::prelude::*;
use vstd::string::*;

use crate::roon::debounce::SettleKind;
use crate::roon::images::ImageFormat;
use crate::roon::queue::QueueChange;
use crate::roon::queue::QueueChangeView;
use crate::roon::queue::QueueItem;
use crate::roon::queue::QueueItemView;
use crate::roon::queue::QueueRequest;
use crate::roon::queue::QueueRequestView;
use crate::roon::view_model::WsMessage;
use crate::roon::view_model::WsMessageView;
use crate::roon::zone::Zone;
use crate::roon::zone::ZoneView;

verus! {

/// A new playback position of one zone.
#[derive(Debug, PartialEq, Eq)]
pub struct ZoneSeek {
    pub zone_id: String,
    pub seek_position: Option<i64>,
    pub queue_time_remaining: i64,
}

pub struct ZoneSeekView {
    pub zone_id: Seq<char>,
    pub seek_position: Option<i64>,
    pub queue_time_remaining: i64,
}

impl View for ZoneSeek {
    type V = ZoneSeekView;

    open spec fn view(&self) -> ZoneSeekView {
        ZoneSeekView {
            zone_id: self.zone_id@,
            seek_position: self.seek_position,
            queue_time_remaining: self.queue_time_remaining,
        }
    }
}

impl DeepView for ZoneSeek {
    type V = ZoneSeekView;

    open spec fn deep_view(&self) -> ZoneSeekView {
        self@
    }
}

/// One item of the upstream event stream.
#[derive(Debug, PartialEq, Eq)]
pub enum Event {
    /// The core accepted the registration. `transport` and `image` say
    /// which services it offers.
    Registered { core_name: String, transport: bool, image: bool },
    /// The connection to the core is gone.
    Lost,
    /// Zones were added or changed.
    Zones(Vec<Zone>),
    /// Zones went away.
    ZonesRemoved(Vec<String>),
    /// Playback positions moved.
    ZonesSeek(Vec<ZoneSeek>),
    /// The snapshot of the subscribed queue.
    Queue(Vec<QueueItem>),
    /// A delta of the subscribed queue.
    QueueChanges(Vec<QueueChange>),
    /// An image that was asked for.
    Image { image_key: String, format: ImageFormat, data: Vec<u8> },
    /// Anything else: malformed, or of no concern to the engine.
    Unrecognized,
}

pub enum EventView {
    Registered { core_name: Seq<char>, transport: bool, image: bool },
    Lost,
    Zones(Seq<ZoneView>),
    ZonesRemoved(Seq<Seq<char>>),
    ZonesSeek(Seq<ZoneSeekView>),
    Queue(Seq<QueueItemView>),
    QueueChanges(Seq<QueueChangeView>),
    Image { image_key: Seq<char>, format: ImageFormat, data: Seq<u8> },
    Unrecognized,
}

impl View for Event {
    type V = EventView;

    open spec fn view(&self) -> EventView {
        match self {
            Event::Registered { core_name, transport, image } => EventView::Registered {
                core_name: core_name@,
                transport: *transport,
                image: *image,
            },
            Event::Lost => EventView::Lost,
            Event::Zones(zones) => EventView::Zones(zones.deep_view()),
            Event::ZonesRemoved(ids) => EventView::ZonesRemoved(ids.deep_view()),
            Event::ZonesSeek(seeks) => EventView::ZonesSeek(seeks.deep_view()),
            Event::Queue(items) => EventView::Queue(items.deep_view()),
            Event::QueueChanges(changes) => EventView::QueueChanges(changes.deep_view()),
            Event::Image { image_key, format, data } => EventView::Image {
                image_key: image_key@,
                format: *format,
                data: data@,
            },
            Event::Unrecognized => EventView::Unrecognized,
        }
    }
}

/// Something the host is asked to do on the engine's behalf.
#[derive(Debug, PartialEq, Eq)]
pub enum Effect {
    /// Publish a message to every subscriber.
    Broadcast(WsMessage),
    /// Subscribe to zone updates upstream.
    SubscribeZones,
    /// Ask upstream for an image, scaled to fit the given box.
    RequestImage { image_key: String, width: u32, height: u32 },
    /// Call the engine's `fire_due` when the deadline has come.
    Schedule { zone_id: String, kind: SettleKind, deadline: u64 },
    /// Make a call for the queue subscription.
    Queue(QueueRequest),
    /// Wake whoever waits for the first queue snapshot.
    NotifyQueueReady,
}

pub enum EffectView {
    Broadcast(WsMessageView),
    SubscribeZones,
    RequestImage { image_key: Seq<char>, width: u32, height: u32 },
    Schedule { zone_id: Seq<char>, kind: SettleKind, deadline: u64 },
    Queue(QueueRequestView),
    NotifyQueueReady,
}

impl View for Effect {
    type V = EffectView;

    open spec fn view(&self) -> EffectView {
        match self {
            Effect::Broadcast(message) => EffectView::Broadcast(message@),
            Effect::SubscribeZones => EffectView::SubscribeZones,
            Effect::RequestImage { image_key, width, height } => EffectView::RequestImage {
                image_key: image_key@,
                width: *width,
                height: *height,
            },
            Effect::Schedule { zone_id, kind, deadline } => EffectView::Schedule {
                zone_id: zone_id@,
                kind: *kind,
                deadline: *deadline,
            },
            Effect::Queue(request) => EffectView::Queue(request@),
            Effect::NotifyQueueReady => EffectView::NotifyQueueReady,
        }
    }
}

impl DeepView for Effect {
    type V = EffectView;

    open spec fn deep_view(&self) -> EffectView {
        self@
    }
}

/// A transport control.
#[derive(Clone, Copy, Debug, PartialEq, Eq, Structural)]
pub enum Control {
    Play,
    Pause,
    PlayPause,
    Stop,
    Previous,
    Next,
}

/// A request to send upstream on behalf of a caller. It changes nothing
/// here: the effect shows once upstream reports it back.
#[derive(Debug, PartialEq, Eq)]
pub enum Command {
    Control { zone_id: String, control: Control },
    Seek { zone_id: String, seconds: i32 },
    PlayFromHere { zone_id: String, queue_item_id: u32 },
    Mute { output_id: String, mute: bool },
}

pub enum CommandView {
    Control { zone_id: Seq<char>, control: Control },
    Seek { zone_id: Seq<char>, seconds: i32 },
    PlayFromHere { zone_id: Seq<char>, queue_item_id: u32 },
    Mute { output_id: Seq<char>, mute: bool },
}

impl View for Command {
    type V = CommandView;

    open spec fn view(&self) -> CommandView {
        match self {
            Command::Control { zone_id, control } => CommandView::Control {
                zone_id: zone_id@,
                control: *control,
            },
            Command::Seek { zone_id, seconds } => CommandView::Seek {
                zone_id: zone_id@,
                seconds: *seconds,
            },
            Command::PlayFromHere { zone_id, queue_item_id } => CommandView::PlayFromHere {
                zone_id: zone_id@,
                queue_item_id: *queue_item_id,
            },
            Command::Mute { output_id, mute } => CommandView::Mute {
                output_id: output_id@,
                mute: *mute,
            },
        }
    }
}

/// Why a caller's request was not sent upstream.
#[derive(Debug, PartialEq, Eq)]
pub enum ActionError {
    /// The transport service is not there, as before registration.
    TransportUnavailable,
    /// The control word is none of the known ones.
    InvalidControl(String),
    /// No zone has the given identifier.
    ZoneNotFound,
    /// The zone has no output to act on.
    NoOutputs,
}

pub enum ActionErrorView {
    TransportUnavailable,
    InvalidControl(Seq<char>),
    ZoneNotFound,
    NoOutputs,
}

impl View for ActionError {
    type V = ActionErrorView;

    open spec fn view(&self) -> ActionErrorView {
        match self {
            ActionError::TransportUnavailable => ActionErrorView::TransportUnavailable,
            ActionError::InvalidControl(word) => ActionErrorView::InvalidControl(word@),
            ActionError::ZoneNotFound => ActionErrorView::ZoneNotFound,
            ActionError::NoOutputs => ActionErrorView::NoOutputs,
        }
    }
}

/// The text of an error, as callers are shown it.
pub open spec fn error_text(error: ActionErrorView) -> Seq<char> {
    match error {
        ActionErrorView::TransportUnavailable => "Transport service not available"@,
        ActionErrorView::InvalidControl(word) => "Invalid control: "@ + word,
        ActionErrorView::ZoneNotFound => "Zone not found"@,
        ActionErrorView::NoOutputs => "Zone has no outputs"@,
    }
}

impl ActionError {
    /// The text of the error, as callers are shown it.
    pub fn message(&self) -> (text: String)
        ensures
            text@ == error_text(self@),
    {
        match self {
            ActionError::TransportUnavailable => String::from_str(
                "Transport service not available",
            ),
            ActionError::InvalidControl(word) => String::from_str("Invalid control: ").concat(
                word.as_str(),
            ),
            ActionError::ZoneNotFound => String::from_str("Zone not found"),
            ActionError::NoOutputs => String::from_str("Zone has no outputs"),
        }
    }
}

} // verus!
