//! The client: the engine's state, the handlers of upstream events, the
//! read accessors, and the decisions behind the action calls.

use vstd::prelude::*;
use vstd::string::*;

use crate::dcs::playback_label;
use crate::dcs::DcsPlaybackInfo;
use crate::roon::debounce::deadline;
use crate::roon::debounce::DebounceTable;
use crate::roon::debounce::PendingTask;
use crate::roon::debounce::SettleKind;
use crate::roon::debounce::DCS_UPDATE_DELAY_MS;
use crate::roon::debounce::STOP_BROADCAST_DELAY_MS;
use crate::roon::event::ActionError;
use crate::roon::event::ActionErrorView;
use crate::roon::event::Command;
use crate::roon::event::CommandView;
use crate::roon::event::Control;
use crate::roon::event::Effect;
use crate::roon::event::EffectView;
use crate::roon::event::Event;
use crate::roon::event::ZoneSeek;
use crate::roon::images::content_type;
use crate::roon::images::has_image;
use crate::roon::images::image_position;
use crate::roon::images::ImageCache;
use crate::roon::images::ImageCacheView;
use crate::roon::images::ImageData;
use crate::roon::images::ImageFormat;
use crate::roon::model::any_non_loading;
use crate::roon::model::any_non_stop;
use crate::roon::model::cache_after_batch;
use crate::roon::model::cancel_all;
use crate::roon::model::fire_due_step;
use crate::roon::model::first_premium_from;
use crate::roon::model::keys_asked;
use crate::roon::model::publish_step;
use crate::roon::model::remove_all;
use crate::roon::model::request_effects;
use crate::roon::model::request_keys;
use crate::roon::model::seek_all;
use crate::roon::model::seek_effects;
use crate::roon::model::settle_effect;
use crate::roon::model::settle_pass;
use crate::roon::model::settle_table;
use crate::roon::model::step;
use crate::roon::model::step_image;
use crate::roon::model::step_lost;
use crate::roon::model::step_queue;
use crate::roon::model::step_queue_changes;
use crate::roon::model::step_registered;
use crate::roon::model::step_removed;
use crate::roon::model::step_seek;
use crate::roon::model::step_zones;
use crate::roon::model::upsert_all;
use crate::roon::model::zones_message;
use crate::roon::model::ClientView;
use crate::roon::model::IMAGE_SIZE;
use crate::roon::queue::cached_queue;
use crate::roon::queue::subscribe_requests;
use crate::roon::queue::subscribed_to;
use crate::roon::queue::QueueChange;
use crate::roon::queue::QueueItem;
use crate::roon::queue::QueueRequestView;
use crate::roon::queue::QueueSubscription;
use crate::roon::store::has_zone;
use crate::roon::store::zone_position;
use crate::roon::store::ZoneStore;
use crate::roon::view_model::build_ws_zone_data_from_zones;
use crate::roon::view_model::premium_playing;
use crate::roon::view_model::view_models;
use crate::roon::view_model::WsMessage;
use crate::roon::view_model::WsZoneData;
use crate::roon::zone::State;
use crate::roon::zone::Zone;
use crate::text::str_eq;

verus! {

/// The display-name prefix of the usual premium device class: the zones of
/// a dCS Vivaldi, whose format line comes from the device itself.
pub const DEFAULT_PREMIUM_PREFIX: &'static str = "dCS Vivaldi";

/// The reconciliation engine.
#[derive(Debug)]
pub struct RoonClient {
    connected: bool,
    core_name: Option<String>,
    zones: ZoneStore,
    pending: DebounceTable,
    images: ImageCache,
    queue: QueueSubscription,
    has_transport: bool,
    has_image_service: bool,
    premium_prefix: String,
}

impl View for RoonClient {
    type V = ClientView;

    closed spec fn view(&self) -> ClientView {
        ClientView {
            connected: self.connected,
            core_name: self.core_name.deep_view(),
            zones: self.zones@,
            pending: self.pending@,
            images: self.images@,
            queue: self.queue@,
            has_transport: self.has_transport,
            has_image_service: self.has_image_service,
            premium_prefix: self.premium_prefix@,
        }
    }
}

/// The state that a new client stands for.
pub open spec fn initial_state(prefix: Seq<char>) -> ClientView {
    ClientView {
        connected: false,
        core_name: None,
        zones: Seq::empty(),
        pending: Seq::empty(),
        images: ImageCacheView { entries: Seq::empty(), requested: Seq::empty() },
        queue: crate::roon::queue::QueueSubscriptionView { active: None, items: None },
        has_transport: false,
        has_image_service: false,
        premium_prefix: prefix,
    }
}

/// Some zone is not stopped, and some zone is not loading.
fn snapshot_flags(zones: &Vec<Zone>) -> (flags: (bool, bool))
    ensures
        flags.0 == any_non_stop(zones.deep_view()),
        flags.1 == any_non_loading(zones.deep_view()),
{
    let mut non_stop = false;
    let mut non_loading = false;
    let mut i: usize = 0;
    while i < zones.len()
        invariant
            i <= zones.len(),
            non_stop == (exists|k: int|
                0 <= k < i && (#[trigger] zones.deep_view()[k]).state != State::Stopped),
            non_loading == (exists|k: int|
                0 <= k < i && (#[trigger] zones.deep_view()[k]).state != State::Loading),
        decreases zones.len() - i,
    {
        match zones[i].state {
            State::Stopped => {
                non_loading = true;
            },
            State::Loading => {
                non_stop = true;
            },
            _ => {
                non_stop = true;
                non_loading = true;
            },
        }
        assert(zones.deep_view()[i as int].state == zones[i as int].state);
        i += 1;
    }
    (non_stop, non_loading)
}

/// The identifier of the first playing premium zone.
fn first_premium(zones: &Vec<Zone>, prefix: &str) -> (found: Option<String>)
    ensures
        found.deep_view() == first_premium_from(zones.deep_view(), prefix@, 0),
{
    let mut i: usize = 0;
    while i < zones.len()
        invariant
            i <= zones.len(),
            first_premium_from(zones.deep_view(), prefix@, 0) == first_premium_from(
                zones.deep_view(),
                prefix@,
                i as int,
            ),
        decreases zones.len() - i,
    {
        if premium_playing(&zones[i], prefix) {
            return Some(zones[i].zone_id.clone());
        }
        i += 1;
    }
    None
}

/// Appends `more` to `effects`.
fn append_effects(effects: &mut Vec<Effect>, more: Vec<Effect>)
    ensures
        final(effects).deep_view() == old(effects).deep_view() + more.deep_view(),
{
    let ghost before = effects.deep_view();
    let ghost added = more.deep_view();
    let mut more = more;
    effects.append(&mut more);
    assert(effects.deep_view() =~= before + added);
}

impl RoonClient {
    /// The client's invariant.
    pub open spec fn wf(&self) -> bool {
        self@.wf()
    }

    /// A client that knows nothing yet, with the usual premium class.
    pub fn new() -> (client: Self)
        ensures
            client.wf(),
            client@ == initial_state(DEFAULT_PREMIUM_PREFIX@),
    {
        RoonClient::with_premium_prefix(String::from_str(DEFAULT_PREMIUM_PREFIX))
    }

    /// A client that knows nothing yet, whose premium class is the zones
    /// whose display name begins with `prefix`.
    pub fn with_premium_prefix(prefix: String) -> (client: Self)
        ensures
            client.wf(),
            client@ == initial_state(prefix@),
    {
        RoonClient {
            connected: false,
            core_name: None,
            zones: ZoneStore::new(),
            pending: DebounceTable::new(),
            images: ImageCache::new(),
            queue: QueueSubscription::new(),
            has_transport: false,
            has_image_service: false,
            premium_prefix: prefix,
        }
    }

    /// Is the core connected?
    pub fn is_connected(&self) -> (connected: bool)
        ensures
            connected == self@.connected,
    {
        self.connected
    }

    /// The display name of the connected core.
    pub fn get_core_name(&self) -> (name: Option<String>)
        ensures
            name.deep_view() == self@.core_name,
    {
        self.core_name.clone()
    }

    /// A copy of every zone, in store order.
    pub fn get_zones(&self) -> (zones: Vec<Zone>)
        ensures
            zones.deep_view() == self@.zones,
    {
        self.zones.snapshot()
    }

    /// The view-models of every zone, and the zones they were made from.
    /// `playback` is what the premium device reported when asked just now.
    pub fn build_ws_zone_data(&self, playback: &Option<DcsPlaybackInfo>) -> (built: (
        Vec<WsZoneData>,
        Vec<Zone>,
    ))
        ensures
            built.0.deep_view() == view_models(
                self@.zones,
                playback_label(*playback),
                self@.premium_prefix,
            ),
            built.1.deep_view() == self@.zones,
    {
        let models = build_ws_zone_data_from_zones(
            self.zones.zones(),
            playback,
            self.premium_prefix.as_str(),
        );
        (models, self.zones.snapshot())
    }

    /// The message that shows the whole picture as it is now.
    pub fn zones_changed_message(&self) -> (message: WsMessage)
        ensures
            message@ == zones_message(self@),
    {
        let none: Option<DcsPlaybackInfo> = None;
        let built = self.build_ws_zone_data(&none);
        WsMessage::ZonesChanged { now_playing: built.0, raw_zones: built.1 }
    }

    /// The cached play queue of the zone `zone_id`.
    pub fn get_queue(&self, zone_id: &str) -> (items: Option<Vec<QueueItem>>)
        ensures
            items.deep_view() == cached_queue(self@.queue, zone_id@),
    {
        self.queue.queue_for(zone_id)
    }

    /// The cached image with key `image_key`.
    pub fn get_image(&self, image_key: &str) -> (image: Option<ImageData>)
        requires
            self.wf(),
        ensures
            image is Some <==> has_image(self@.images.entries, image_key@),
            image is Some ==> image->0@ == self@.images.entries[image_position(
                self@.images.entries,
                image_key@,
            )].image,
    {
        match self.images.get(image_key) {
            Some(found) => Some(found.clone()),
            None => None,
        }
    }
}

impl RoonClient {
    /// Asks for the cover images of a batch that are neither cached nor
    /// asked for, while the image service is there.
    fn request_new_images(&mut self, batch: &Vec<Zone>) -> (effects: Vec<Effect>)
        requires
            old(self).wf(),
        ensures
            final(self).wf(),
            final(self)@ == (ClientView {
                images: cache_after_batch(old(self)@, batch.deep_view()),
                ..old(self)@
            }),
            effects.deep_view() == request_effects(keys_asked(old(self)@, batch.deep_view())),
            old(self)@.images.requested.len() <= final(self)@.images.requested.len(),
    {
        let ghost start = self@;
        let ghost base = start.images.requested.len() as int;
        let mut effects: Vec<Effect> = Vec::new();
        if !self.has_image_service {
            assert(effects.deep_view() =~= request_effects(keys_asked(start, batch.deep_view())));
            return effects;
        }
        let mut i: usize = 0;
        while i < batch.len()
            invariant
                i <= batch.len(),
                self.wf(),
                start.has_image_service,
                base == start.images.requested.len(),
                self.images@ == request_keys(start.images, batch.deep_view().take(i as int)),
                self@ == (ClientView { images: self.images@, ..start }),
                base <= self.images@.requested.len(),
                effects.deep_view() =~= request_effects(
                    self.images@.requested.subrange(base, self.images@.requested.len() as int),
                ),
            decreases batch.len() - i,
        {
            proof {
                let upto = batch.deep_view().take(i + 1);
                assert(upto.drop_last() =~= batch.deep_view().take(i as int));
                assert(upto.last() == batch[i as int]@);
            }
            match &batch[i].now_playing {
                Some(playing) => match &playing.image_key {
                    Some(key) => {
                        if self.images.wants(key.as_str()) {
                            let ghost asked = self.images@.requested;
                            let ghost so_far = effects.deep_view();
                            self.images.mark_requested(key.clone());
                            effects.push(
                                Effect::RequestImage {
                                    image_key: key.clone(),
                                    width: IMAGE_SIZE,
                                    height: IMAGE_SIZE,
                                },
                            );
                            proof {
                                let now_asked = self.images@.requested;
                                assert(now_asked.subrange(base, now_asked.len() as int)
                                    =~= asked.subrange(base, asked.len() as int).push(key@));
                                assert(effects.deep_view() =~= so_far.push(
                                    EffectView::RequestImage {
                                        image_key: key@,
                                        width: IMAGE_SIZE,
                                        height: IMAGE_SIZE,
                                    },
                                ));
                            }
                        }
                    },
                    None => {},
                },
                None => {},
            }
            i += 1;
        }
        assert(batch.deep_view().take(batch.len() as int) =~= batch.deep_view());
        effects
    }

    /// Upserts every zone of a batch, in order.
    fn upsert_batch(&mut self, batch: &Vec<Zone>)
        requires
            old(self).wf(),
        ensures
            final(self).wf(),
            final(self)@ == (ClientView {
                zones: upsert_all(old(self)@.zones, batch.deep_view()),
                ..old(self)@
            }),
    {
        let ghost start = self@;
        let mut i: usize = 0;
        while i < batch.len()
            invariant
                i <= batch.len(),
                self.wf(),
                self.zones@ == upsert_all(start.zones, batch.deep_view().take(i as int)),
                self@ == (ClientView { zones: self.zones@, ..start }),
            decreases batch.len() - i,
        {
            proof {
                let upto = batch.deep_view().take(i + 1);
                assert(upto.drop_last() =~= batch.deep_view().take(i as int));
                assert(upto.last() == batch[i as int]@);
            }
            self.zones.upsert(batch[i].clone());
            i += 1;
        }
        assert(batch.deep_view().take(batch.len() as int) =~= batch.deep_view());
    }

    /// Looks at every zone of the store and settles its slot in the table.
    fn settle(&mut self, stop_deadline: u64, message: &WsMessage) -> (effects: Vec<Effect>)
        requires
            old(self).wf(),
        ensures
            final(self).wf(),
            (final(self)@.pending, effects.deep_view()) == settle_pass(
                old(self)@.zones,
                old(self)@.pending,
                stop_deadline,
                message@,
            ),
            final(self)@ == (ClientView { pending: final(self)@.pending, ..old(self)@ }),
    {
        let ghost start = self@;
        let mut effects: Vec<Effect> = Vec::new();
        let count: usize = self.zones.len();
        let mut i: usize = 0;
        assert(effects.deep_view() =~= Seq::<EffectView>::empty());
        while i < count
            invariant
                i <= count,
                count == start.zones.len(),
                self.wf(),
                self@ == (ClientView { pending: self.pending@, ..start }),
                (self.pending@, effects.deep_view()) == settle_pass(
                    start.zones.take(i as int),
                    start.pending,
                    stop_deadline,
                    message@,
                ),
            decreases count - i,
        {
            proof {
                let upto = start.zones.take(i + 1);
                assert(upto.drop_last() =~= start.zones.take(i as int));
                assert(upto.last() == start.zones[i as int]);
            }
            let ghost table = self.pending@;
            let ghost so_far = effects.deep_view();
            let zones = self.zones.zones();
            let zone = &zones[i];
            assert(zone@ == start.zones[i as int]);
            let stopped = match zone.state {
                State::Stopped => true,
                _ => false,
            };
            let waiting_stop = match self.pending.kind(zone.zone_id.as_str()) {
                Some(SettleKind::StopSettle) => true,
                _ => false,
            };
            if waiting_stop {
                let _ = self.pending.cancel(zone.zone_id.as_str());
                if stopped {
                    effects.push(Effect::Broadcast(message.clone()));
                }
            } else if stopped {
                self.pending.schedule(
                    PendingTask {
                        zone_id: zone.zone_id.clone(),
                        kind: SettleKind::StopSettle,
                        deadline: stop_deadline,
                    },
                );
                effects.push(
                    Effect::Schedule {
                        zone_id: zone.zone_id.clone(),
                        kind: SettleKind::StopSettle,
                        deadline: stop_deadline,
                    },
                );
            }
            proof {
                assert(self.pending@ == settle_table(table, zone@, stop_deadline));
                assert(effects.deep_view() =~= so_far + settle_effect(
                    table,
                    zone@,
                    stop_deadline,
                    message@,
                ));
            }
            i += 1;
        }
        assert(start.zones.take(count as int) =~= start.zones);
        effects
    }

    /// Publishes a snapshot that is worth it, at once or after the premium
    /// device has had time to settle.
    fn publish(&mut self, format_deadline: u64, message: WsMessage) -> (effects: Vec<Effect>)
        requires
            old(self).wf(),
        ensures
            final(self).wf(),
            (final(self)@.pending, effects.deep_view()) == publish_step(
                old(self)@.zones,
                old(self)@.pending,
                old(self)@.premium_prefix,
                format_deadline,
                message@,
            ),
            final(self)@ == (ClientView { pending: final(self)@.pending, ..old(self)@ }),
    {
        let mut effects: Vec<Effect> = Vec::new();
        let flags = snapshot_flags(self.zones.zones());
        assert(effects.deep_view() =~= Seq::<EffectView>::empty());
        if flags.0 && flags.1 {
            match first_premium(self.zones.zones(), self.premium_prefix.as_str()) {
                Some(id) => {
                    self.pending.schedule(
                        PendingTask {
                            zone_id: id.clone(),
                            kind: SettleKind::FormatSettle,
                            deadline: format_deadline,
                        },
                    );
                    effects.push(
                        Effect::Schedule {
                            zone_id: id,
                            kind: SettleKind::FormatSettle,
                            deadline: format_deadline,
                        },
                    );
                    assert(effects.deep_view() =~= seq![
                        EffectView::Schedule {
                            zone_id: id@,
                            kind: SettleKind::FormatSettle,
                            deadline: format_deadline,
                        },
                    ]);
                },
                None => {
                    let ghost shown = message@;
                    effects.push(Effect::Broadcast(message));
                    assert(effects.deep_view() =~= seq![EffectView::Broadcast(shown)]);
                },
            }
        }
        effects
    }

    /// Handles a batch of added or changed zones that arrives at `now`.
    pub fn zones_changed(&mut self, batch: &Vec<Zone>, now: u64) -> (effects: Vec<Effect>)
        requires
            old(self).wf(),
        ensures
            final(self).wf(),
            (final(self)@, effects.deep_view()) == step_zones(old(self)@, batch.deep_view(), now),
    {
        let mut effects = self.request_new_images(batch);
        self.upsert_batch(batch);
        let message = self.zones_changed_message();
        let stop_deadline = deadline(now, STOP_BROADCAST_DELAY_MS);
        let format_deadline = deadline(now, DCS_UPDATE_DELAY_MS);
        let settled = self.settle(stop_deadline, &message);
        let published = self.publish(format_deadline, message);
        append_effects(&mut effects, settled);
        append_effects(&mut effects, published);
        effects
    }
}

/// The control that a control word names.
pub open spec fn control_of(word: Seq<char>) -> Option<Control> {
    if word == "play"@ {
        Some(Control::Play)
    } else if word == "pause"@ {
        Some(Control::Pause)
    } else if word == "playpause"@ {
        Some(Control::PlayPause)
    } else if word == "stop"@ {
        Some(Control::Stop)
    } else if word == "previous"@ {
        Some(Control::Previous)
    } else if word == "next"@ {
        Some(Control::Next)
    } else {
        None
    }
}

/// The control that a control word names.
pub fn parse_control(word: &str) -> (control: Option<Control>)
    ensures
        control == control_of(word@),
{
    if str_eq(word, "play") {
        Some(Control::Play)
    } else if str_eq(word, "pause") {
        Some(Control::Pause)
    } else if str_eq(word, "playpause") {
        Some(Control::PlayPause)
    } else if str_eq(word, "stop") {
        Some(Control::Stop)
    } else if str_eq(word, "previous") {
        Some(Control::Previous)
    } else if str_eq(word, "next") {
        Some(Control::Next)
    } else {
        None
    }
}

/// What a control request comes to.
pub open spec fn control_outcome(state: ClientView, zone_id: Seq<char>, word: Seq<char>) -> Result<
    CommandView,
    ActionErrorView,
> {
    if !state.has_transport {
        Err(ActionErrorView::TransportUnavailable)
    } else {
        match control_of(word) {
            Some(control) => Ok(CommandView::Control { zone_id, control }),
            None => Err(ActionErrorView::InvalidControl(word)),
        }
    }
}

/// What a mute request comes to: it acts on the first output of the zone.
pub open spec fn mute_outcome(state: ClientView, zone_id: Seq<char>, mute: bool) -> Result<
    CommandView,
    ActionErrorView,
> {
    if !has_zone(state.zones, zone_id) {
        Err(ActionErrorView::ZoneNotFound)
    } else {
        let zone = state.zones[zone_position(state.zones, zone_id)];
        if zone.outputs.len() == 0 {
            Err(ActionErrorView::NoOutputs)
        } else if !state.has_transport {
            Err(ActionErrorView::TransportUnavailable)
        } else {
            Ok(CommandView::Mute { output_id: zone.outputs[0].output_id, mute })
        }
    }
}

/// The view of a command or of the error in its place.
pub open spec fn outcome_view(outcome: Result<Command, ActionError>) -> Result<
    CommandView,
    ActionErrorView,
> {
    match outcome {
        Ok(command) => Ok(command@),
        Err(error) => Err(error@),
    }
}

/// One effect for each call that the queue subscription asks for.
pub open spec fn queue_effects(requests: Seq<QueueRequestView>) -> Seq<EffectView> {
    Seq::new(requests.len(), |i: int| EffectView::Queue(requests[i]))
}

/// What a request for the queue of `zone_id` makes of the state, and the
/// calls it asks for. Without the transport service nothing happens.
pub open spec fn subscribe_step(state: ClientView, zone_id: Seq<char>) -> (
    ClientView,
    Seq<EffectView>,
) {
    if state.has_transport {
        (
            ClientView { queue: subscribed_to(state.queue, zone_id), ..state },
            queue_effects(subscribe_requests(state.queue.active, zone_id)),
        )
    } else {
        (state, Seq::empty())
    }
}

/// The state after an image has been asked for by hand.
pub open spec fn image_asked(state: ClientView, image_key: Seq<char>) -> ClientView {
    if state.has_image_service && !state.images.requested.contains(image_key) {
        ClientView {
            images: ImageCacheView {
                requested: state.images.requested.push(image_key),
                ..state.images
            },
            ..state
        }
    } else {
        state
    }
}

/// Whether the wait for authorization is over: `Some(true)` once the core
/// is connected, `Some(false)` once the time allowed has passed, `None`
/// while the wait goes on.
pub open spec fn authorization_outcome(connected: bool, elapsed_secs: u64, timeout_secs: Option<u64>)
    -> Option<bool> {
    if connected {
        Some(true)
    } else {
        match timeout_secs {
            Some(limit) => if elapsed_secs >= limit {
                Some(false)
            } else {
                None
            },
            None => None,
        }
    }
}

impl RoonClient {
    /// Handles a batch of removed zones.
    pub fn zones_removed(&mut self, ids: &Vec<String>) -> (effects: Vec<Effect>)
        requires
            old(self).wf(),
        ensures
            final(self).wf(),
            (final(self)@, effects.deep_view()) == step_removed(old(self)@, ids.deep_view()),
    {
        let ghost start = self@;
        let mut i: usize = 0;
        while i < ids.len()
            invariant
                i <= ids.len(),
                self.wf(),
                self.zones@ == remove_all(start.zones, ids.deep_view().take(i as int)),
                self.pending@ == cancel_all(start.pending, ids.deep_view().take(i as int)),
                self@ == (ClientView { zones: self.zones@, pending: self.pending@, ..start }),
            decreases ids.len() - i,
        {
            proof {
                let upto = ids.deep_view().take(i + 1);
                assert(upto.drop_last() =~= ids.deep_view().take(i as int));
                assert(upto.last() == ids[i as int]@);
            }
            let _ = self.zones.remove(ids[i].as_str());
            let _ = self.pending.cancel(ids[i].as_str());
            i += 1;
        }
        assert(ids.deep_view().take(ids.len() as int) =~= ids.deep_view());
        let mut effects: Vec<Effect> = Vec::new();
        let message = self.zones_changed_message();
        effects.push(Effect::Broadcast(message));
        assert(effects.deep_view() =~= seq![EffectView::Broadcast(zones_message(self@))]);
        effects
    }

    /// Handles a batch of seek positions.
    pub fn zones_seek(&mut self, seeks: &Vec<ZoneSeek>) -> (effects: Vec<Effect>)
        requires
            old(self).wf(),
        ensures
            final(self).wf(),
            (final(self)@, effects.deep_view()) == step_seek(old(self)@, seeks.deep_view()),
    {
        let ghost start = self@;
        let mut effects: Vec<Effect> = Vec::new();
        let mut i: usize = 0;
        while i < seeks.len()
            invariant
                i <= seeks.len(),
                self.wf(),
                self.zones@ == seek_all(start.zones, seeks.deep_view().take(i as int)),
                self@ == (ClientView { zones: self.zones@, ..start }),
                effects.len() == i,
                forall|k: int|
                    0 <= k < i ==> (#[trigger] effects.deep_view()[k]) == seek_effects(
                        seeks.deep_view(),
                    )[k],
            decreases seeks.len() - i,
        {
            proof {
                let upto = seeks.deep_view().take(i + 1);
                assert(upto.drop_last() =~= seeks.deep_view().take(i as int));
                assert(upto.last() == seeks[i as int]@);
            }
            let seek = &seeks[i];
            self.zones.patch_seek(seek.zone_id.as_str(), seek.seek_position);
            let ghost so_far = effects.deep_view();
            let effect = Effect::Broadcast(
                WsMessage::SeekUpdated {
                    zone_id: seek.zone_id.clone(),
                    seek_position: seek.seek_position,
                    queue_time_remaining: seek.queue_time_remaining,
                },
            );
            let ghost shown = effect@;
            effects.push(effect);
            assert(effects.deep_view() =~= so_far.push(shown));
            i += 1;
        }
        assert(seeks.deep_view().take(seeks.len() as int) =~= seeks.deep_view());
        assert(effects.deep_view() =~= seek_effects(seeks.deep_view()));
        effects
    }

    /// Handles the core's acceptance of the registration.
    pub fn core_registered(&mut self, core_name: String, transport: bool, image: bool) -> (effects:
        Vec<Effect>)
        requires
            old(self).wf(),
        ensures
            final(self).wf(),
            (final(self)@, effects.deep_view()) == step_registered(
                old(self)@,
                core_name@,
                transport,
                image,
            ),
    {
        self.connected = true;
        self.core_name = Some(core_name);
        self.has_transport = self.has_transport || transport;
        self.has_image_service = self.has_image_service || image;
        let mut effects: Vec<Effect> = Vec::new();
        effects.push(Effect::Broadcast(WsMessage::ConnectionChanged { connected: true }));
        if transport {
            effects.push(Effect::SubscribeZones);
        }
        assert(effects.deep_view() =~= step_registered(old(self)@, core_name@, transport, image).1);
        effects
    }

    /// Handles the loss of the connection to the core.
    pub fn core_lost(&mut self) -> (effects: Vec<Effect>)
        requires
            old(self).wf(),
        ensures
            final(self).wf(),
            (final(self)@, effects.deep_view()) == step_lost(old(self)@),
    {
        self.connected = false;
        self.core_name = None;
        self.zones.clear();
        self.pending.clear();
        self.has_transport = false;
        self.has_image_service = false;
        let mut effects: Vec<Effect> = Vec::new();
        effects.push(Effect::Broadcast(WsMessage::ConnectionChanged { connected: false }));
        assert(effects.deep_view() =~= step_lost(old(self)@).1);
        effects
    }

    /// Handles the snapshot of the subscribed queue.
    pub fn queue_snapshot(&mut self, items: Vec<QueueItem>) -> (effects: Vec<Effect>)
        requires
            old(self).wf(),
        ensures
            final(self).wf(),
            (final(self)@, effects.deep_view()) == step_queue(old(self)@, items.deep_view()),
    {
        let mut effects: Vec<Effect> = Vec::new();
        let active = match self.queue.active_zone() {
            Some(id) => Some(id.clone()),
            None => None,
        };
        match active {
            Some(id) => {
                let _ = self.queue.store_snapshot(items);
                effects.push(Effect::NotifyQueueReady);
                effects.push(Effect::Broadcast(WsMessage::QueueChanged { zone_id: id }));
                assert(effects.deep_view() =~= step_queue(old(self)@, items.deep_view()).1);
            },
            None => {
                assert(effects.deep_view() =~= Seq::<EffectView>::empty());
            },
        }
        effects
    }

    /// Handles a delta of the subscribed queue.
    pub fn queue_changes(&mut self, changes: &Vec<QueueChange>) -> (effects: Vec<Effect>)
        requires
            old(self).wf(),
        ensures
            final(self).wf(),
            (final(self)@, effects.deep_view()) == step_queue_changes(
                old(self)@,
                changes.deep_view(),
            ),
    {
        let mut effects: Vec<Effect> = Vec::new();
        let active = match self.queue.active_zone() {
            Some(id) => Some(id.clone()),
            None => None,
        };
        assert(effects.deep_view() =~= Seq::<EffectView>::empty());
        match active {
            Some(id) => {
                if self.queue.apply_delta(id.as_str(), changes) {
                    effects.push(Effect::Broadcast(WsMessage::QueueChanged { zone_id: id }));
                    assert(effects.deep_view() =~= step_queue_changes(
                        old(self)@,
                        changes.deep_view(),
                    ).1);
                }
            },
            None => {},
        }
        effects
    }

    /// Handles an image that arrived.
    pub fn image_received(&mut self, image_key: String, format: ImageFormat, data: Vec<u8>) -> (effects:
        Vec<Effect>)
        requires
            old(self).wf(),
        ensures
            final(self).wf(),
            (final(self)@, effects.deep_view()) == step_image(
                old(self)@,
                image_key@,
                format,
                data@,
            ),
    {
        let image = ImageData { content_type: content_type(format), data };
        self.images.insert(image_key, image);
        let effects: Vec<Effect> = Vec::new();
        assert(effects.deep_view() =~= Seq::<EffectView>::empty());
        effects
    }

    /// Handles one event of the upstream stream, which arrives at `now`
    /// (milliseconds on the host's clock).
    pub fn handle_event(&mut self, event: Event, now: u64) -> (effects: Vec<Effect>)
        requires
            old(self).wf(),
        ensures
            final(self).wf(),
            (final(self)@, effects.deep_view()) == step(old(self)@, event@, now),
    {
        match event {
            Event::Registered { core_name, transport, image } => self.core_registered(
                core_name,
                transport,
                image,
            ),
            Event::Lost => self.core_lost(),
            Event::Zones(batch) => self.zones_changed(&batch, now),
            Event::ZonesRemoved(ids) => self.zones_removed(&ids),
            Event::ZonesSeek(seeks) => self.zones_seek(&seeks),
            Event::Queue(items) => self.queue_snapshot(items),
            Event::QueueChanges(changes) => self.queue_changes(&changes),
            Event::Image { image_key, format, data } => self.image_received(
                image_key,
                format,
                data,
            ),
            Event::Unrecognized => {
                let effects: Vec<Effect> = Vec::new();
                assert(effects.deep_view() =~= Seq::<EffectView>::empty());
                effects
            },
        }
    }

    /// Fires the tasks whose deadline has come at `now`: each leaves the
    /// table and publishes the picture as it is at this moment.
    pub fn fire_due(&mut self, now: u64) -> (effects: Vec<Effect>)
        requires
            old(self).wf(),
        ensures
            final(self).wf(),
            (final(self)@, effects.deep_view()) == fire_due_step(old(self)@, now),
    {
        let ghost start = self@;
        let due = self.pending.take_due(now);
        let mut effects: Vec<Effect> = Vec::new();
        let mut i: usize = 0;
        while i < due.len()
            invariant
                i <= due.len(),
                effects.len() == i,
                self@ == fire_due_step(start, now).0,
                forall|k: int|
                    0 <= k < i ==> (#[trigger] effects.deep_view()[k]) == EffectView::Broadcast(
                        zones_message(start),
                    ),
            decreases due.len() - i,
        {
            let message = self.zones_changed_message();
            let ghost so_far = effects.deep_view();
            let ghost shown = message@;
            effects.push(Effect::Broadcast(message));
            assert(effects.deep_view() =~= so_far.push(EffectView::Broadcast(shown)));
            i += 1;
        }
        assert(effects.deep_view() =~= fire_due_step(start, now).1);
        effects
    }

    /// Makes `zone_id` the zone whose queue is subscribed, and says which
    /// calls to make for it; the host makes them, in order, the wait last.
    pub fn subscribe_to_queue(&mut self, zone_id: &str) -> (effects: Vec<Effect>)
        requires
            old(self).wf(),
        ensures
            final(self).wf(),
            (final(self)@, effects.deep_view()) == subscribe_step(old(self)@, zone_id@),
    {
        let mut effects: Vec<Effect> = Vec::new();
        if !self.has_transport {
            assert(effects.deep_view() =~= Seq::<EffectView>::empty());
            return effects;
        }
        let requests = self.queue.ensure_subscribed(zone_id);
        let ghost asked = requests.deep_view();
        let mut i: usize = 0;
        while i < requests.len()
            invariant
                i <= requests.len(),
                asked == requests.deep_view(),
                effects.len() == i,
                forall|k: int|
                    0 <= k < i ==> (#[trigger] effects.deep_view()[k]) == EffectView::Queue(
                        asked[k],
                    ),
            decreases requests.len() - i,
        {
            let ghost so_far = effects.deep_view();
            let request = requests[i].clone();
            effects.push(Effect::Queue(request));
            assert(effects.deep_view() =~= so_far.push(EffectView::Queue(request@)));
            i += 1;
        }
        assert(effects.deep_view() =~= queue_effects(asked));
        effects
    }

    /// Decides on a request for an image: with the image service there,
    /// the request goes upstream and the key counts as asked for.
    pub fn request_image(&mut self, image_key: &str, width: u32, height: u32) -> (effect: Option<
        Effect,
    >)
        requires
            old(self).wf(),
        ensures
            final(self).wf(),
            final(self)@ == image_asked(old(self)@, image_key@),
            effect.deep_view() == (if old(self)@.has_image_service {
                Some(EffectView::RequestImage { image_key: image_key@, width, height })
            } else {
                None
            }),
    {
        if self.has_image_service {
            self.images.mark_requested(image_key.to_owned());
            Some(Effect::RequestImage { image_key: image_key.to_owned(), width, height })
        } else {
            None
        }
    }

    /// Decides on a control request: `play`, `pause`, `playpause`, `stop`,
    /// `previous` or `next` for a zone.
    pub fn control_zone(&self, zone_id: &str, control: &str) -> (outcome: Result<
        Command,
        ActionError,
    >)
        ensures
            outcome_view(outcome) == control_outcome(self@, zone_id@, control@),
    {
        if !self.has_transport {
            return Err(ActionError::TransportUnavailable);
        }
        match parse_control(control) {
            Some(parsed) => Ok(Command::Control { zone_id: zone_id.to_owned(), control: parsed }),
            None => Err(ActionError::InvalidControl(control.to_owned())),
        }
    }

    /// Decides on a request to play from an item of the queue.
    pub fn play_from_queue_item(&self, zone_id: &str, queue_item_id: u32) -> (outcome: Result<
        Command,
        ActionError,
    >)
        ensures
            outcome_view(outcome) == (if self@.has_transport {
                Ok(CommandView::PlayFromHere { zone_id: zone_id@, queue_item_id })
            } else {
                Err(ActionErrorView::TransportUnavailable)
            }),
    {
        if self.has_transport {
            Ok(Command::PlayFromHere { zone_id: zone_id.to_owned(), queue_item_id })
        } else {
            Err(ActionError::TransportUnavailable)
        }
    }

    /// Decides on a request to seek to an absolute position.
    pub fn seek_zone(&self, zone_id: &str, seconds: i32) -> (outcome: Result<Command, ActionError>)
        ensures
            outcome_view(outcome) == (if self@.has_transport {
                Ok(CommandView::Seek { zone_id: zone_id@, seconds })
            } else {
                Err(ActionErrorView::TransportUnavailable)
            }),
    {
        if self.has_transport {
            Ok(Command::Seek { zone_id: zone_id.to_owned(), seconds })
        } else {
            Err(ActionError::TransportUnavailable)
        }
    }

    /// Decides on a request to mute or unmute a zone, which acts on the
    /// zone's first output.
    pub fn mute_output(&self, zone_id: &str, mute: bool) -> (outcome: Result<Command, ActionError>)
        requires
            self.wf(),
        ensures
            outcome_view(outcome) == mute_outcome(self@, zone_id@, mute),
    {
        match self.zones.get(zone_id) {
            None => Err(ActionError::ZoneNotFound),
            Some(zone) => {
                if zone.outputs.len() == 0 {
                    Err(ActionError::NoOutputs)
                } else if !self.has_transport {
                    Err(ActionError::TransportUnavailable)
                } else {
                    Ok(Command::Mute { output_id: zone.outputs[0].output_id.clone(), mute })
                }
            },
        }
    }

    /// Decides whether the wait for authorization is over.
    pub fn wait_for_authorization(&self, elapsed_secs: u64, timeout_secs: Option<u64>) -> (outcome:
        Option<bool>)
        ensures
            outcome == authorization_outcome(self@.connected, elapsed_secs, timeout_secs),
    {
        if self.connected {
            Some(true)
        } else {
            match timeout_secs {
                Some(limit) => if elapsed_secs >= limit {
                    Some(false)
                } else {
                    None
                },
                None => None,
            }
        }
    }
}

} // verus!
