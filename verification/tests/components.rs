use roon_rd::roon::debounce::deadline;
use roon_rd::roon::images::content_type;
use roon_rd::roon::DebounceTable;
use roon_rd::roon::ImageCache;
use roon_rd::roon::ImageData;
use roon_rd::roon::ImageFormat;
use roon_rd::roon::NowPlaying;
use roon_rd::roon::PendingTask;
use roon_rd::roon::SettleKind;
use roon_rd::roon::State;
use roon_rd::roon::Zone;
use roon_rd::roon::ZoneStore;

fn zone(id: &str, state: State, position: Option<i64>) -> Zone {
    Zone {
        zone_id: id.to_string(),
        display_name: format!("Zone {}", id),
        state,
        now_playing: position.map(|seconds| NowPlaying {
            line1: "Track".to_string(),
            line2: "Artist".to_string(),
            line3: "Album".to_string(),
            seek_position: Some(seconds),
            length: Some(300),
            image_key: Some("key".to_string()),
        }),
        outputs: Vec::new(),
    }
}

fn task(id: &str, kind: SettleKind, deadline: u64) -> PendingTask {
    PendingTask { zone_id: id.to_string(), kind, deadline }
}

fn image(byte: u8) -> ImageData {
    ImageData { content_type: "image/jpeg".to_string(), data: vec![byte] }
}

#[test]
fn store_replaces_or_inserts_by_identifier() {
    let mut store = ZoneStore::new();
    assert_eq!(store.len(), 0);
    store.upsert(zone("a", State::Playing, None));
    store.upsert(zone("b", State::Paused, None));
    store.upsert(zone("a", State::Stopped, Some(1)));
    assert_eq!(store.len(), 2);
    assert_eq!(store.position("a"), Some(0));
    assert_eq!(store.position("b"), Some(1));
    assert_eq!(store.position("c"), None);
    assert_eq!(store.get("a"), Some(&zone("a", State::Stopped, Some(1))));
    assert_eq!(store.get("c"), None);
    assert_eq!(
        store.snapshot(),
        vec![zone("a", State::Stopped, Some(1)), zone("b", State::Paused, None)]
    );
    assert_eq!(store.zones(), &store.snapshot());
}

#[test]
fn store_removes_by_identifier() {
    let mut store = ZoneStore::new();
    store.upsert(zone("a", State::Playing, None));
    store.upsert(zone("b", State::Paused, None));
    store.upsert(zone("c", State::Loading, None));
    assert!(store.remove("b"));
    assert!(!store.remove("b"));
    assert_eq!(
        store.snapshot(),
        vec![zone("a", State::Playing, None), zone("c", State::Loading, None)]
    );
    store.clear();
    assert_eq!(store.len(), 0);
    assert!(!store.remove("a"));
}

#[test]
fn store_patches_only_the_position() {
    let mut store = ZoneStore::new();
    store.upsert(zone("a", State::Playing, Some(10)));
    store.upsert(zone("b", State::Paused, None));
    store.patch_seek("a", Some(11));
    store.patch_seek("b", Some(12));
    store.patch_seek("c", Some(13));
    assert_eq!(
        store.snapshot(),
        vec![zone("a", State::Playing, Some(11)), zone("b", State::Paused, None)]
    );
    store.patch_seek("a", None);
    let patched = store.get("a").expect("held").now_playing.as_ref().expect("plays");
    assert_eq!(patched.seek_position, None);
    assert_eq!(patched.length, Some(300));
    assert_eq!(patched.image_key, Some("key".to_string()));
}

#[test]
fn snapshot_is_a_copy() {
    let mut store = ZoneStore::new();
    store.upsert(zone("a", State::Playing, Some(10)));
    let snapshot = store.snapshot();
    store.patch_seek("a", Some(99));
    store.upsert(zone("b", State::Paused, None));
    assert_eq!(snapshot, vec![zone("a", State::Playing, Some(10))]);
}

#[test]
fn table_holds_one_task_for_each_zone() {
    let mut table = DebounceTable::new();
    assert_eq!(table.len(), 0);
    assert_eq!(table.kind("a"), None);
    table.schedule(task("a", SettleKind::StopSettle, 500));
    table.schedule(task("b", SettleKind::FormatSettle, 200));
    table.schedule(task("a", SettleKind::FormatSettle, 300));
    assert_eq!(table.len(), 2);
    assert_eq!(table.kind("a"), Some(SettleKind::FormatSettle));
    assert_eq!(table.kind("b"), Some(SettleKind::FormatSettle));
    assert_eq!(
        table.tasks(),
        &vec![task("b", SettleKind::FormatSettle, 200), task("a", SettleKind::FormatSettle, 300)]
    );
}

#[test]
fn cancel_removes_the_task_if_there_is_one() {
    let mut table = DebounceTable::new();
    assert!(!table.cancel("a"));
    table.schedule(task("a", SettleKind::StopSettle, 500));
    table.schedule(task("b", SettleKind::StopSettle, 600));
    assert!(table.cancel("a"));
    assert!(!table.cancel("a"));
    assert_eq!(table.kind("a"), None);
    assert_eq!(table.kind("b"), Some(SettleKind::StopSettle));
    table.clear();
    assert_eq!(table.len(), 0);
}

#[test]
fn due_tasks_leave_the_table_in_order() {
    let mut table = DebounceTable::new();
    table.schedule(task("a", SettleKind::StopSettle, 500));
    table.schedule(task("b", SettleKind::FormatSettle, 200));
    table.schedule(task("c", SettleKind::StopSettle, 501));
    table.schedule(task("d", SettleKind::StopSettle, 0));
    assert!(table.take_due(199).len() == 1);
    assert_eq!(
        table.take_due(500),
        vec![task("a", SettleKind::StopSettle, 500), task("b", SettleKind::FormatSettle, 200)]
    );
    assert!(table.take_due(500).is_empty());
    assert_eq!(table.tasks(), &vec![task("c", SettleKind::StopSettle, 501)]);
    assert_eq!(table.take_due(u64::MAX), vec![task("c", SettleKind::StopSettle, 501)]);
    assert_eq!(table.len(), 0);
}

#[test]
fn deadlines_do_not_pass_the_end_of_time() {
    assert_eq!(deadline(0, 500), 500);
    assert_eq!(deadline(1_000, 200), 1_200);
    assert_eq!(deadline(u64::MAX - 500, 500), u64::MAX);
    assert_eq!(deadline(u64::MAX - 499, 500), u64::MAX);
    assert_eq!(deadline(u64::MAX, 0), u64::MAX);
}

#[test]
fn cache_stores_one_image_under_each_key() {
    let mut cache = ImageCache::new();
    assert_eq!(cache.get("k"), None);
    assert!(cache.wants("k"));
    cache.insert("k".to_string(), image(1));
    cache.insert("l".to_string(), image(2));
    cache.insert("k".to_string(), image(3));
    assert_eq!(cache.get("k"), Some(&image(3)));
    assert_eq!(cache.get("l"), Some(&image(2)));
    assert_eq!(cache.get("m"), None);
    assert!(!cache.wants("k"));
    assert!(cache.wants("m"));
}

#[test]
fn cache_remembers_what_was_asked_for() {
    let mut cache = ImageCache::new();
    assert!(!cache.is_requested("k"));
    assert!(cache.wants("k"));
    cache.mark_requested("k".to_string());
    cache.mark_requested("k".to_string());
    assert!(cache.is_requested("k"));
    assert!(!cache.wants("k"));
    assert!(cache.wants("l"));
    assert_eq!(cache.get("k"), None);
    cache.insert("k".to_string(), image(1));
    assert!(cache.is_requested("k"));
    assert!(!cache.wants("k"));
}

#[test]
fn image_formats_have_content_types() {
    assert_eq!(content_type(ImageFormat::Jpeg), "image/jpeg");
    assert_eq!(content_type(ImageFormat::Png), "image/png");
}

#[test]
fn lists_are_loaded_twenty_items_at_most() {
    assert_eq!(roon_rd::roon::browse::load_count(0), 0);
    assert_eq!(roon_rd::roon::browse::load_count(19), 19);
    assert_eq!(roon_rd::roon::browse::load_count(20), 20);
    assert_eq!(roon_rd::roon::browse::load_count(21), 20);
    assert_eq!(roon_rd::roon::browse::load_count(usize::MAX), 20);
}

#[test]
fn browsing_goes_into_the_first_queue_item_with_a_key() {
    let entry = |title: &str, key: Option<&str>| roon_rd::roon::browse::BrowseItem {
        title: title.to_string(),
        subtitle: None,
        item_key: key.map(|key| key.to_string()),
    };
    let items = vec![
        entry("Library", Some("1")),
        entry("Now Playing", None),
        entry("The Queue of Den", Some("3")),
        entry("Now Playing", Some("4")),
    ];
    assert_eq!(roon_rd::roon::browse::browse_target(&items), Some("3".to_string()));
    let keyless = vec![entry("Library", Some("1")), entry("Now Playing", None)];
    assert_eq!(roon_rd::roon::browse::browse_target(&keyless), None);
    let playing = vec![entry("Now Playing", Some("4"))];
    assert_eq!(roon_rd::roon::browse::browse_target(&playing), Some("4".to_string()));
    assert_eq!(roon_rd::roon::browse::browse_target(&vec![entry("queue", Some("5"))]), None);
    assert_eq!(roon_rd::roon::browse::browse_target(&Vec::new()), None);
}
