use roon_rd::roon::ActionError;
use roon_rd::roon::Command;
use roon_rd::roon::Control;
use roon_rd::roon::Effect;
use roon_rd::roon::Output;
use roon_rd::roon::QueueChange;
use roon_rd::roon::QueueItem;
use roon_rd::roon::QueueOperation;
use roon_rd::roon::QueueRequest;
use roon_rd::roon::QueueSubscription;
use roon_rd::roon::RoonClient;
use roon_rd::roon::State;
use roon_rd::roon::WsMessage;
use roon_rd::roon::Zone;

fn item(id: u32) -> QueueItem {
    QueueItem {
        queue_item_id: id,
        length: 100 + id,
        image_key: None,
        one_line: format!("one {}", id),
        two_line_1: format!("two {}", id),
        two_line_2: String::new(),
        three_line_1: format!("title {}", id),
        three_line_2: format!("artist {}", id),
        three_line_3: String::new(),
    }
}

fn ids(items: &[QueueItem]) -> Vec<u32> {
    items.iter().map(|item| item.queue_item_id).collect()
}

fn connected() -> RoonClient {
    let mut client = RoonClient::new();
    client.core_registered("Core".to_string(), true, true);
    client
}

fn subscribe(zone: &str) -> Effect {
    Effect::Queue(QueueRequest::Subscribe { zone_id: zone.to_string(), max_items: 50 })
}

fn wait() -> Effect {
    Effect::Queue(QueueRequest::Await { timeout_ms: 2_000 })
}

#[test]
fn first_subscription_subscribes_and_waits() {
    let mut client = connected();
    assert_eq!(client.subscribe_to_queue("z1"), vec![subscribe("z1"), wait()]);
}

#[test]
fn same_zone_twice_subscribes_once() {
    let mut client = connected();
    let first = client.subscribe_to_queue("z1");
    let second = client.subscribe_to_queue("z1");
    let subscribes = first
        .iter()
        .chain(second.iter())
        .filter(|effect| matches!(effect, Effect::Queue(QueueRequest::Subscribe { .. })))
        .count();
    assert_eq!(subscribes, 1);
    assert!(second.is_empty());
}

#[test]
fn new_zone_unsubscribes_then_subscribes() {
    let mut client = connected();
    client.subscribe_to_queue("z1");
    client.queue_snapshot(vec![item(1)]);
    let effects = client.subscribe_to_queue("z2");
    assert_eq!(
        effects,
        vec![Effect::Queue(QueueRequest::Unsubscribe), subscribe("z2"), wait()]
    );
    // One slot: the old zone's queue is gone, the new one's has not come.
    assert_eq!(client.get_queue("z1"), None);
    assert_eq!(client.get_queue("z2"), None);
}

#[test]
fn subscription_needs_the_transport_service() {
    let mut client = RoonClient::new();
    assert!(client.subscribe_to_queue("z1").is_empty());
    assert!(client.queue_snapshot(vec![item(1)]).is_empty());
    assert_eq!(client.get_queue("z1"), None);
}

#[test]
fn snapshot_fills_the_cache_and_wakes_the_waiter() {
    let mut client = connected();
    client.subscribe_to_queue("z1");
    assert_eq!(client.get_queue("z1"), None);
    let effects = client.queue_snapshot(vec![item(1), item(2)]);
    assert_eq!(
        effects,
        vec![
            Effect::NotifyQueueReady,
            Effect::Broadcast(WsMessage::QueueChanged { zone_id: "z1".to_string() }),
        ]
    );
    assert_eq!(ids(&client.get_queue("z1").expect("cached")), vec![1, 2]);
    assert_eq!(client.get_queue("z2"), None);
}

#[test]
fn delta_inserts_and_removes_in_order() {
    let mut client = connected();
    client.subscribe_to_queue("z1");
    client.queue_snapshot(vec![item(1), item(2), item(3)]);
    let effects = client.queue_changes(&vec![
        QueueChange {
            operation: QueueOperation::Insert,
            index: 1,
            items: Some(vec![item(10), item(11)]),
            count: None,
        },
        QueueChange { operation: QueueOperation::Remove, index: 0, items: None, count: None },
        QueueChange { operation: QueueOperation::Remove, index: 2, items: None, count: Some(5) },
    ]);
    assert_eq!(
        effects,
        vec![Effect::Broadcast(WsMessage::QueueChanged { zone_id: "z1".to_string() })]
    );
    assert_eq!(ids(&client.get_queue("z1").expect("cached")), vec![10, 11]);
}

#[test]
fn delta_before_the_snapshot_is_dropped() {
    let mut client = connected();
    client.subscribe_to_queue("z1");
    let effects = client.queue_changes(&vec![QueueChange {
        operation: QueueOperation::Insert,
        index: 0,
        items: Some(vec![item(1)]),
        count: None,
    }]);
    assert!(effects.is_empty());
    assert_eq!(client.get_queue("z1"), None);
}

#[test]
fn delta_for_another_zone_is_dropped() {
    let mut queue = QueueSubscription::new();
    queue.ensure_subscribed("z1");
    assert!(queue.store_snapshot(vec![item(1)]));
    let change = QueueChange {
        operation: QueueOperation::Remove,
        index: 0,
        items: None,
        count: Some(1),
    };
    assert!(!queue.apply_delta("z2", &vec![change]));
    assert_eq!(ids(&queue.queue_for("z1").expect("cached")), vec![1]);
    let change = QueueChange {
        operation: QueueOperation::Remove,
        index: 0,
        items: None,
        count: Some(1),
    };
    assert!(queue.apply_delta("z1", &vec![change]));
    assert!(queue.queue_for("z1").expect("cached").is_empty());
}

#[test]
fn insert_beyond_the_end_changes_nothing() {
    let mut queue = vec![item(1), item(2)];
    roon_rd::roon::queue::apply_queue_change(
        &mut queue,
        &QueueChange {
            operation: QueueOperation::Insert,
            index: 3,
            items: Some(vec![item(9)]),
            count: None,
        },
    );
    assert_eq!(ids(&queue), vec![1, 2]);
    roon_rd::roon::queue::apply_queue_change(
        &mut queue,
        &QueueChange {
            operation: QueueOperation::Insert,
            index: 2,
            items: Some(vec![item(9)]),
            count: None,
        },
    );
    assert_eq!(ids(&queue), vec![1, 2, 9]);
    roon_rd::roon::queue::apply_queue_change(
        &mut queue,
        &QueueChange { operation: QueueOperation::Insert, index: 0, items: None, count: None },
    );
    assert_eq!(ids(&queue), vec![1, 2, 9]);
}

#[test]
fn remove_stops_at_the_end_of_the_queue() {
    let mut queue = vec![item(1), item(2), item(3)];
    roon_rd::roon::queue::apply_queue_change(
        &mut queue,
        &QueueChange {
            operation: QueueOperation::Remove,
            index: 1,
            items: None,
            count: Some(usize::MAX),
        },
    );
    assert_eq!(ids(&queue), vec![1]);
    roon_rd::roon::queue::apply_queue_change(
        &mut queue,
        &QueueChange { operation: QueueOperation::Remove, index: 1, items: None, count: Some(1) },
    );
    assert_eq!(ids(&queue), vec![1]);
    roon_rd::roon::queue::apply_queue_change(
        &mut queue,
        &QueueChange { operation: QueueOperation::Remove, index: 0, items: None, count: Some(0) },
    );
    assert_eq!(ids(&queue), vec![1]);
}

#[test]
fn control_words_map_to_controls() {
    let client = connected();
    let expected = [
        ("play", Control::Play),
        ("pause", Control::Pause),
        ("playpause", Control::PlayPause),
        ("stop", Control::Stop),
        ("previous", Control::Previous),
        ("next", Control::Next),
    ];
    for (word, control) in expected {
        assert_eq!(
            client.control_zone("z1", word),
            Ok(Command::Control { zone_id: "z1".to_string(), control })
        );
    }
}

#[test]
fn unknown_control_word_is_refused() {
    let client = connected();
    let error = client.control_zone("z1", "rewind").expect_err("refused");
    assert_eq!(error, ActionError::InvalidControl("rewind".to_string()));
    assert_eq!(error.message(), "Invalid control: rewind");
}

#[test]
fn actions_need_the_transport_service() {
    let client = RoonClient::new();
    let error = client.control_zone("z1", "play").expect_err("refused");
    assert_eq!(error, ActionError::TransportUnavailable);
    assert_eq!(error.message(), "Transport service not available");
    assert_eq!(client.control_zone("z1", "bogus"), Err(ActionError::TransportUnavailable));
    assert_eq!(client.seek_zone("z1", 10), Err(ActionError::TransportUnavailable));
    assert_eq!(client.play_from_queue_item("z1", 4), Err(ActionError::TransportUnavailable));
}

#[test]
fn seek_and_play_from_queue_are_passed_on() {
    let client = connected();
    assert_eq!(
        client.seek_zone("z1", -5),
        Ok(Command::Seek { zone_id: "z1".to_string(), seconds: -5 })
    );
    assert_eq!(
        client.play_from_queue_item("z1", 77),
        Ok(Command::PlayFromHere { zone_id: "z1".to_string(), queue_item_id: 77 })
    );
}

#[test]
fn mute_acts_on_the_first_output() {
    let mut client = connected();
    let zone = Zone {
        zone_id: "z1".to_string(),
        display_name: "Kitchen".to_string(),
        state: State::Playing,
        now_playing: None,
        outputs: vec![
            Output {
                output_id: "out-a".to_string(),
                display_name: "A".to_string(),
                is_muted: Some(false),
                source_controls: None,
            },
            Output {
                output_id: "out-b".to_string(),
                display_name: "B".to_string(),
                is_muted: None,
                source_controls: None,
            },
        ],
    };
    let bare = Zone {
        zone_id: "z2".to_string(),
        display_name: "Bare".to_string(),
        state: State::Paused,
        now_playing: None,
        outputs: Vec::new(),
    };
    client.zones_changed(&vec![zone, bare], 1);
    assert_eq!(
        client.mute_output("z1", true),
        Ok(Command::Mute { output_id: "out-a".to_string(), mute: true })
    );
    assert_eq!(client.mute_output("z2", true), Err(ActionError::NoOutputs));
    assert_eq!(ActionError::NoOutputs.message(), "Zone has no outputs");
    assert_eq!(client.mute_output("nobody", false), Err(ActionError::ZoneNotFound));
    assert_eq!(ActionError::ZoneNotFound.message(), "Zone not found");
}

#[test]
fn mute_checks_the_zone_before_the_service() {
    let mut client = RoonClient::new();
    assert_eq!(client.mute_output("z1", true), Err(ActionError::ZoneNotFound));
    client.zones_changed(
        &vec![Zone {
            zone_id: "z1".to_string(),
            display_name: "Kitchen".to_string(),
            state: State::Playing,
            now_playing: None,
            outputs: vec![Output {
                output_id: "o".to_string(),
                display_name: "O".to_string(),
                is_muted: None,
                source_controls: None,
            }],
        }],
        1,
    );
    assert_eq!(client.mute_output("z1", true), Err(ActionError::TransportUnavailable));
}

#[test]
fn explicit_image_request_needs_the_image_service() {
    let mut client = RoonClient::new();
    assert_eq!(client.request_image("k", 10, 20), None);
    client.core_registered("Core".to_string(), false, true);
    assert_eq!(
        client.request_image("k", 10, 20),
        Some(Effect::RequestImage { image_key: "k".to_string(), width: 10, height: 20 })
    );
    assert_eq!(
        client.request_image("k", 30, 40),
        Some(Effect::RequestImage { image_key: "k".to_string(), width: 30, height: 40 })
    );
}

#[test]
fn authorization_wait_ends_on_connection_or_timeout() {
    let mut client = RoonClient::new();
    assert_eq!(client.wait_for_authorization(0, None), None);
    assert_eq!(client.wait_for_authorization(1_000_000, None), None);
    assert_eq!(client.wait_for_authorization(14, Some(15)), None);
    assert_eq!(client.wait_for_authorization(15, Some(15)), Some(false));
    client.core_registered("Core".to_string(), true, true);
    assert_eq!(client.wait_for_authorization(99, Some(15)), Some(true));
}
