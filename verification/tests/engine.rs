use roon_rd::roon::Effect;
use roon_rd::roon::Event;
use roon_rd::roon::ImageFormat;
use roon_rd::roon::NowPlaying;
use roon_rd::roon::Output;
use roon_rd::roon::RoonClient;
use roon_rd::roon::SettleKind;
use roon_rd::roon::SourceControl;
use roon_rd::roon::State;
use roon_rd::roon::WsMessage;
use roon_rd::roon::Zone;
use roon_rd::roon::ZoneSeek;

fn zone(id: &str, name: &str, state: State) -> Zone {
    Zone {
        zone_id: id.to_string(),
        display_name: name.to_string(),
        state,
        now_playing: None,
        outputs: Vec::new(),
    }
}

fn zone_with_cover(id: &str, state: State, key: &str) -> Zone {
    Zone {
        zone_id: id.to_string(),
        display_name: id.to_string(),
        state,
        now_playing: Some(NowPlaying {
            line1: "Track".to_string(),
            line2: "Artist".to_string(),
            line3: String::new(),
            seek_position: Some(3),
            length: Some(200),
            image_key: Some(key.to_string()),
        }),
        outputs: Vec::new(),
    }
}

fn states_shown(effect: &Effect) -> Vec<(String, String)> {
    match effect {
        Effect::Broadcast(WsMessage::ZonesChanged { now_playing, .. }) => now_playing
            .iter()
            .map(|model| (model.zone_id.clone(), model.state.clone()))
            .collect(),
        other => panic!("not a zones message: {:?}", other),
    }
}

fn broadcasts(effects: &[Effect]) -> usize {
    effects.iter().filter(|effect| matches!(effect, Effect::Broadcast(_))).count()
}

fn image_keys(effects: &[Effect]) -> Vec<String> {
    let mut keys = Vec::new();
    for effect in effects {
        if let Effect::RequestImage { image_key, .. } = effect {
            keys.push(image_key.clone());
        }
    }
    keys
}

#[test]
fn playing_zone_is_published_at_once() {
    let mut client = RoonClient::new();
    let effects = client.zones_changed(&vec![zone("z1", "Kitchen", State::Playing)], 1_000);
    assert_eq!(effects.len(), 1);
    assert_eq!(states_shown(&effects[0]), vec![("z1".to_string(), "Playing".to_string())]);
}

#[test]
fn stop_waits_for_its_deadline_then_is_published_once() {
    let mut client = RoonClient::new();
    client.zones_changed(&vec![zone("z1", "Kitchen", State::Playing)], 1_000);
    let effects = client.zones_changed(&vec![zone("z1", "Kitchen", State::Stopped)], 2_000);
    assert_eq!(
        effects,
        vec![Effect::Schedule {
            zone_id: "z1".to_string(),
            kind: SettleKind::StopSettle,
            deadline: 2_500,
        }]
    );
    assert!(client.fire_due(2_499).is_empty());
    let fired = client.fire_due(2_500);
    assert_eq!(fired.len(), 1);
    assert_eq!(states_shown(&fired[0]), vec![("z1".to_string(), "Stopped".to_string())]);
    assert!(client.fire_due(10_000).is_empty());
}

#[test]
fn stop_reported_twice_is_published_at_once() {
    let mut client = RoonClient::new();
    client.zones_changed(&vec![zone("z1", "Kitchen", State::Playing)], 1_000);
    client.zones_changed(&vec![zone("z1", "Kitchen", State::Stopped)], 2_000);
    let effects = client.zones_changed(&vec![zone("z1", "Kitchen", State::Stopped)], 2_100);
    assert_eq!(effects.len(), 1);
    assert_eq!(states_shown(&effects[0]), vec![("z1".to_string(), "Stopped".to_string())]);
    // The waiting stop is gone: its deadline publishes nothing.
    assert!(client.fire_due(2_500).is_empty());
    assert!(client.fire_due(9_999).is_empty());
}

#[test]
fn stop_after_a_fired_stop_waits_again_and_doubles_again() {
    let mut client = RoonClient::new();
    client.zones_changed(&vec![zone("z1", "Kitchen", State::Playing)], 1_000);
    client.zones_changed(&vec![zone("z1", "Kitchen", State::Stopped)], 2_000);
    assert_eq!(client.fire_due(2_500).len(), 1);
    let third = client.zones_changed(&vec![zone("z1", "Kitchen", State::Stopped)], 2_600);
    assert_eq!(
        third,
        vec![Effect::Schedule {
            zone_id: "z1".to_string(),
            kind: SettleKind::StopSettle,
            deadline: 3_100,
        }]
    );
    let fourth = client.zones_changed(&vec![zone("z1", "Kitchen", State::Stopped)], 2_700);
    assert_eq!(fourth.len(), 1);
    assert_eq!(states_shown(&fourth[0]), vec![("z1".to_string(), "Stopped".to_string())]);
    assert!(client.fire_due(5_000).is_empty());
}

#[test]
fn stop_taken_back_in_time_is_never_shown() {
    let mut client = RoonClient::new();
    client.zones_changed(&vec![zone("z1", "Kitchen", State::Playing)], 1_000);
    let on_stop = client.zones_changed(&vec![zone("z1", "Kitchen", State::Stopped)], 2_000);
    assert_eq!(broadcasts(&on_stop), 0);
    assert!(client.fire_due(2_300).is_empty());
    let on_resume = client.zones_changed(&vec![zone("z1", "Kitchen", State::Playing)], 2_400);
    assert_eq!(on_resume.len(), 1);
    assert_eq!(states_shown(&on_resume[0]), vec![("z1".to_string(), "Playing".to_string())]);
    assert!(client.fire_due(2_500).is_empty());
    assert!(client.fire_due(60_000).is_empty());
}

#[test]
fn stop_is_shown_at_once_while_another_zone_plays() {
    let mut client = RoonClient::new();
    client.zones_changed(
        &vec![zone("z1", "Kitchen", State::Playing), zone("z2", "Study", State::Playing)],
        1_000,
    );
    let effects = client.zones_changed(&vec![zone("z1", "Kitchen", State::Stopped)], 2_000);
    assert_eq!(effects.len(), 2);
    assert_eq!(
        effects[0],
        Effect::Schedule {
            zone_id: "z1".to_string(),
            kind: SettleKind::StopSettle,
            deadline: 2_500,
        }
    );
    assert_eq!(
        states_shown(&effects[1]),
        vec![
            ("z1".to_string(), "Stopped".to_string()),
            ("z2".to_string(), "Playing".to_string()),
        ]
    );
}

#[test]
fn loading_zones_alone_publish_nothing() {
    let mut client = RoonClient::new();
    let effects = client.zones_changed(
        &vec![zone("z1", "Kitchen", State::Loading), zone("z2", "Study", State::Loading)],
        1_000,
    );
    assert!(effects.is_empty());
    assert_eq!(client.get_zones().len(), 2);
    assert!(client.fire_due(u64::MAX).is_empty());
}

#[test]
fn loading_beside_a_paused_zone_is_published() {
    let mut client = RoonClient::new();
    let effects = client.zones_changed(
        &vec![zone("z1", "Kitchen", State::Loading), zone("z2", "Study", State::Paused)],
        1_000,
    );
    assert_eq!(effects.len(), 1);
    assert_eq!(
        states_shown(&effects[0]),
        vec![
            ("z1".to_string(), "Loading".to_string()),
            ("z2".to_string(), "Paused".to_string()),
        ]
    );
}

#[test]
fn removal_cancels_the_waiting_stop_and_publishes_once() {
    let mut client = RoonClient::new();
    client.zones_changed(&vec![zone("z1", "Kitchen", State::Playing)], 1_000);
    client.zones_changed(&vec![zone("z1", "Kitchen", State::Stopped)], 2_000);
    let effects = client.zones_removed(&vec!["z1".to_string()]);
    assert_eq!(effects.len(), 1);
    assert_eq!(states_shown(&effects[0]), Vec::<(String, String)>::new());
    assert!(client.get_zones().is_empty());
    assert!(client.fire_due(2_500).is_empty());
    assert!(client.fire_due(u64::MAX).is_empty());
}

#[test]
fn removal_of_an_unknown_zone_still_publishes() {
    let mut client = RoonClient::new();
    client.zones_changed(&vec![zone("z1", "Kitchen", State::Playing)], 1_000);
    let effects = client.zones_removed(&vec!["nobody".to_string()]);
    assert_eq!(effects.len(), 1);
    assert_eq!(states_shown(&effects[0]), vec![("z1".to_string(), "Playing".to_string())]);
}

#[test]
fn premium_zone_waits_for_the_device_before_it_is_published() {
    let mut client = RoonClient::new();
    let effects =
        client.zones_changed(&vec![zone("v", "dCS Vivaldi Upsampler", State::Playing)], 1_000);
    assert_eq!(
        effects,
        vec![Effect::Schedule {
            zone_id: "v".to_string(),
            kind: SettleKind::FormatSettle,
            deadline: 1_200,
        }]
    );
    assert!(client.fire_due(1_199).is_empty());
    let fired = client.fire_due(1_200);
    assert_eq!(fired.len(), 1);
    assert_eq!(states_shown(&fired[0]), vec![("v".to_string(), "Playing".to_string())]);
}

#[test]
fn premium_class_follows_the_configured_prefix() {
    let mut client = RoonClient::with_premium_prefix("Study".to_string());
    let effects = client.zones_changed(
        &vec![zone("a", "dCS Vivaldi", State::Playing), zone("b", "Study DAC", State::Playing)],
        50,
    );
    assert_eq!(
        effects,
        vec![Effect::Schedule {
            zone_id: "b".to_string(),
            kind: SettleKind::FormatSettle,
            deadline: 250,
        }]
    );
}

#[test]
fn deadline_saturates_at_the_end_of_time() {
    let mut client = RoonClient::new();
    let effects = client.zones_changed(&vec![zone("z1", "Kitchen", State::Stopped)], u64::MAX - 3);
    assert_eq!(
        effects,
        vec![Effect::Schedule {
            zone_id: "z1".to_string(),
            kind: SettleKind::StopSettle,
            deadline: u64::MAX,
        }]
    );
}

#[test]
fn image_is_asked_for_once_however_often_it_is_named() {
    let mut client = RoonClient::new();
    client.core_registered("Core".to_string(), true, true);
    let first = client.zones_changed(
        &vec![
            zone_with_cover("z1", State::Playing, "cover-a"),
            zone_with_cover("z2", State::Playing, "cover-a"),
            zone_with_cover("z3", State::Playing, "cover-b"),
        ],
        10,
    );
    assert_eq!(image_keys(&first), vec!["cover-a".to_string(), "cover-b".to_string()]);
    assert_eq!(
        first[0],
        Effect::RequestImage { image_key: "cover-a".to_string(), width: 300, height: 300 }
    );
    let second = client.zones_changed(&vec![zone_with_cover("z1", State::Playing, "cover-a")], 20);
    assert!(image_keys(&second).is_empty());
    client.image_received("cover-a".to_string(), ImageFormat::Jpeg, vec![1, 2, 3]);
    let third = client.zones_changed(&vec![zone_with_cover("z2", State::Paused, "cover-a")], 30);
    assert!(image_keys(&third).is_empty());
}

#[test]
fn image_is_not_asked_for_without_the_image_service() {
    let mut client = RoonClient::new();
    let effects = client.zones_changed(&vec![zone_with_cover("z1", State::Playing, "cover")], 10);
    assert!(image_keys(&effects).is_empty());
    client.core_registered("Core".to_string(), false, true);
    let effects = client.zones_changed(&vec![zone_with_cover("z1", State::Playing, "cover")], 20);
    assert_eq!(image_keys(&effects), vec!["cover".to_string()]);
}

#[test]
fn received_image_is_cached_with_its_content_type() {
    let mut client = RoonClient::new();
    assert!(client.get_image("k").is_none());
    let effects = client.image_received("k".to_string(), ImageFormat::Png, vec![9, 8, 7]);
    assert!(effects.is_empty());
    let image = client.get_image("k").expect("cached");
    assert_eq!(image.content_type, "image/png");
    assert_eq!(image.data, vec![9, 8, 7]);
    client.image_received("k".to_string(), ImageFormat::Jpeg, vec![1]);
    let image = client.get_image("k").expect("cached");
    assert_eq!(image.content_type, "image/jpeg");
    assert_eq!(image.data, vec![1]);
}

#[test]
fn store_follows_a_map_through_upserts_removals_and_seeks() {
    let mut client = RoonClient::new();
    let mut reference: std::collections::BTreeMap<String, (State, Option<i64>)> =
        std::collections::BTreeMap::new();
    client.zones_changed(
        &vec![
            zone_with_cover("a", State::Playing, "k"),
            zone("b", "B", State::Paused),
            zone_with_cover("a", State::Paused, "k"),
        ],
        1,
    );
    reference.insert("a".to_string(), (State::Paused, Some(3)));
    reference.insert("b".to_string(), (State::Paused, None));
    client.zones_seek(&vec![
        ZoneSeek { zone_id: "a".to_string(), seek_position: Some(42), queue_time_remaining: 7 },
        ZoneSeek { zone_id: "b".to_string(), seek_position: Some(5), queue_time_remaining: 0 },
        ZoneSeek { zone_id: "c".to_string(), seek_position: Some(6), queue_time_remaining: 0 },
    ]);
    reference.insert("a".to_string(), (State::Paused, Some(42)));
    client.zones_removed(&vec!["b".to_string(), "b".to_string()]);
    reference.remove("b");
    client.zones_changed(&vec![zone("c", "C", State::Stopped)], 2);
    reference.insert("c".to_string(), (State::Stopped, None));
    let mut stored: std::collections::BTreeMap<String, (State, Option<i64>)> =
        std::collections::BTreeMap::new();
    for zone in client.get_zones() {
        let position = zone.now_playing.as_ref().and_then(|playing| playing.seek_position);
        assert!(stored.insert(zone.zone_id.clone(), (zone.state, position)).is_none());
    }
    assert_eq!(stored, reference);
}

#[test]
fn upsert_is_idempotent_and_keeps_first_report_order() {
    let mut client = RoonClient::new();
    client.zones_changed(&vec![zone("a", "A", State::Playing), zone("b", "B", State::Playing)], 1);
    let once = client.get_zones();
    client.zones_changed(&vec![zone("a", "A", State::Playing)], 2);
    assert_eq!(client.get_zones(), once);
    client.zones_changed(&vec![zone("a", "A2", State::Paused)], 3);
    let zones = client.get_zones();
    assert_eq!(zones.len(), 2);
    assert_eq!(zones[0].zone_id, "a");
    assert_eq!(zones[0].display_name, "A2");
    assert_eq!(zones[1].zone_id, "b");
}

#[test]
fn seek_patches_the_position_and_publishes_each_entry() {
    let mut client = RoonClient::new();
    client.zones_changed(&vec![zone_with_cover("a", State::Playing, "k")], 1);
    let effects = client.zones_seek(&vec![
        ZoneSeek { zone_id: "a".to_string(), seek_position: Some(17), queue_time_remaining: 90 },
        ZoneSeek { zone_id: "ghost".to_string(), seek_position: None, queue_time_remaining: -1 },
    ]);
    assert_eq!(
        effects,
        vec![
            Effect::Broadcast(WsMessage::SeekUpdated {
                zone_id: "a".to_string(),
                seek_position: Some(17),
                queue_time_remaining: 90,
            }),
            Effect::Broadcast(WsMessage::SeekUpdated {
                zone_id: "ghost".to_string(),
                seek_position: None,
                queue_time_remaining: -1,
            }),
        ]
    );
    let zones = client.get_zones();
    assert_eq!(zones.len(), 1);
    let playing = zones[0].now_playing.as_ref().expect("plays");
    assert_eq!(playing.seek_position, Some(17));
    assert_eq!(playing.length, Some(200));
    assert_eq!(playing.line1, "Track");
}

#[test]
fn seek_never_touches_the_settle_table() {
    let mut client = RoonClient::new();
    client.zones_changed(&vec![zone("z1", "Kitchen", State::Stopped)], 1_000);
    client.zones_seek(&vec![ZoneSeek {
        zone_id: "z1".to_string(),
        seek_position: Some(1),
        queue_time_remaining: 0,
    }]);
    assert_eq!(client.fire_due(1_500).len(), 1);
}

#[test]
fn seek_leaves_a_zone_that_plays_nothing_alone() {
    let mut client = RoonClient::new();
    client.zones_changed(&vec![zone("z1", "Kitchen", State::Paused)], 1_000);
    let before = client.get_zones();
    client.zones_seek(&vec![ZoneSeek {
        zone_id: "z1".to_string(),
        seek_position: Some(1),
        queue_time_remaining: 0,
    }]);
    assert_eq!(client.get_zones(), before);
}

#[test]
fn registration_connects_and_subscribes() {
    let mut client = RoonClient::new();
    assert!(!client.is_connected());
    assert_eq!(client.get_core_name(), None);
    let effects = client.handle_event(
        Event::Registered { core_name: "Nucleus".to_string(), transport: true, image: false },
        5,
    );
    assert_eq!(
        effects,
        vec![
            Effect::Broadcast(WsMessage::ConnectionChanged { connected: true }),
            Effect::SubscribeZones,
        ]
    );
    assert!(client.is_connected());
    assert_eq!(client.get_core_name(), Some("Nucleus".to_string()));
}

#[test]
fn loss_clears_zones_and_waiting_tasks() {
    let mut client = RoonClient::new();
    client.core_registered("Nucleus".to_string(), true, true);
    client.zones_changed(&vec![zone("z1", "Kitchen", State::Stopped)], 1_000);
    let effects = client.handle_event(Event::Lost, 1_100);
    assert_eq!(effects, vec![Effect::Broadcast(WsMessage::ConnectionChanged { connected: false })]);
    assert!(!client.is_connected());
    assert_eq!(client.get_core_name(), None);
    assert!(client.get_zones().is_empty());
    assert!(client.fire_due(u64::MAX).is_empty());
    assert!(client.control_zone("z1", "play").is_err());
}

#[test]
fn unrecognized_event_changes_nothing() {
    let mut client = RoonClient::new();
    client.zones_changed(&vec![zone("z1", "Kitchen", State::Playing)], 1_000);
    let before = client.get_zones();
    assert!(client.handle_event(Event::Unrecognized, 2_000).is_empty());
    assert_eq!(client.get_zones(), before);
}

#[test]
fn events_dispatch_to_their_handlers() {
    let mut client = RoonClient::new();
    let effects = client.handle_event(Event::Zones(vec![zone("z1", "Kitchen", State::Playing)]), 1);
    assert_eq!(broadcasts(&effects), 1);
    let effects = client.handle_event(
        Event::ZonesSeek(vec![ZoneSeek {
            zone_id: "z1".to_string(),
            seek_position: Some(2),
            queue_time_remaining: 3,
        }]),
        2,
    );
    assert_eq!(effects.len(), 1);
    let effects = client.handle_event(Event::ZonesRemoved(vec!["z1".to_string()]), 3);
    assert_eq!(effects.len(), 1);
    assert!(client.get_zones().is_empty());
    let effects = client.handle_event(
        Event::Image { image_key: "k".to_string(), format: ImageFormat::Jpeg, data: vec![0] },
        4,
    );
    assert!(effects.is_empty());
    assert!(client.get_image("k").is_some());
}

#[test]
fn view_model_carries_the_selected_source_and_the_mute_flag() {
    let mut client = RoonClient::new();
    let mut kitchen = zone_with_cover("z1", State::Playing, "cover");
    kitchen.display_name = "Kitchen".to_string();
    kitchen.outputs = vec![
        Output {
            output_id: "o1".to_string(),
            display_name: "Amp".to_string(),
            is_muted: None,
            source_controls: Some(vec![
                SourceControl { display_name: "Phono".to_string(), selected: false },
                SourceControl { display_name: "Streamer".to_string(), selected: true },
                SourceControl { display_name: "Tape".to_string(), selected: true },
            ]),
        },
        Output {
            output_id: "o2".to_string(),
            display_name: "Sub".to_string(),
            is_muted: Some(true),
            source_controls: None,
        },
    ];
    client.zones_changed(&vec![kitchen], 1);
    let (models, raw) = client.build_ws_zone_data(&None);
    assert_eq!(raw.len(), 1);
    assert_eq!(models.len(), 1);
    let model = &models[0];
    assert_eq!(model.zone_id, "z1");
    assert_eq!(model.zone_name, "Kitchen (Streamer)");
    assert_eq!(model.state, "Playing");
    assert_eq!(model.track, Some("Track".to_string()));
    assert_eq!(model.artist, Some("Artist".to_string()));
    assert_eq!(model.album, None);
    assert_eq!(model.position_seconds, Some(3));
    assert_eq!(model.length_seconds, Some(200));
    assert_eq!(model.image_key, Some("cover".to_string()));
    assert_eq!(model.is_muted, Some(true));
    assert_eq!(model.dcs_format, None);
}

#[test]
fn view_model_of_an_idle_zone_is_bare() {
    let mut client = RoonClient::new();
    client.zones_changed(&vec![zone("z1", "Kitchen", State::Paused)], 1);
    let message = client.zones_changed_message();
    match message {
        WsMessage::ZonesChanged { now_playing, raw_zones } => {
            assert_eq!(raw_zones, vec![zone("z1", "Kitchen", State::Paused)]);
            assert_eq!(now_playing.len(), 1);
            assert_eq!(now_playing[0].zone_name, "Kitchen");
            assert_eq!(now_playing[0].state, "Paused");
            assert_eq!(now_playing[0].track, None);
            assert_eq!(now_playing[0].is_muted, None);
        }
        other => panic!("unexpected {:?}", other),
    }
}
