use roon_rd::cli::output::no_zones_lines;
use roon_rd::cli::output::progress_line;
use roon_rd::cli::output::queue_lines;
use roon_rd::cli::output::state_word;
use roon_rd::cli::output::status_lines;
use roon_rd::cli::output::track_lines;
use roon_rd::cli::output::track_position;
use roon_rd::cli::output::zone_lines;
use roon_rd::roon::NowPlaying;
use roon_rd::roon::Output;
use roon_rd::roon::QueueItem;
use roon_rd::roon::State;
use roon_rd::roon::Zone;

const RULE: &str = "  ─────────────────────────────────────";

fn output(name: &str) -> Output {
    Output {
        output_id: format!("id-{}", name),
        display_name: name.to_string(),
        is_muted: None,
        source_controls: None,
    }
}

fn zone(id: &str, name: &str, state: State, outputs: &[&str]) -> Zone {
    Zone {
        zone_id: id.to_string(),
        display_name: name.to_string(),
        state,
        now_playing: None,
        outputs: outputs.iter().map(|name| output(name)).collect(),
    }
}

fn item(id: u32, second: &str, length: u32) -> QueueItem {
    QueueItem {
        queue_item_id: id,
        length,
        image_key: None,
        one_line: String::new(),
        two_line_1: format!("Track {}", id),
        two_line_2: second.to_string(),
        three_line_1: String::new(),
        three_line_2: String::new(),
        three_line_3: String::new(),
    }
}

#[test]
fn states_are_named_in_lower_case() {
    assert_eq!(state_word(State::Playing), "playing");
    assert_eq!(state_word(State::Paused), "paused");
    assert_eq!(state_word(State::Loading), "loading");
    assert_eq!(state_word(State::Stopped), "stopped");
}

#[test]
fn status_names_the_core_when_connected() {
    assert_eq!(
        status_lines(true, &Some("Nucleus".to_string())),
        vec!["", "  Status: Connected", "  Core:   Nucleus", ""]
    );
    assert_eq!(status_lines(true, &None), vec!["", "  Status: Connected", ""]);
    assert_eq!(
        status_lines(false, &Some("Nucleus".to_string())),
        vec![
            "",
            "  Status: Not connected",
            "",
            "  Authorize the extension in Roon Settings > Extensions",
            "",
        ]
    );
}

#[test]
fn missing_zones_are_explained() {
    assert_eq!(
        no_zones_lines(false, true),
        vec![
            "",
            "  No zones found.",
            "  Not connected to Roon Core. Please authorize the extension.",
            "",
        ]
    );
    assert_eq!(
        no_zones_lines(true, true),
        vec!["", "  No zones found.", "  Connected but no active zones.", ""]
    );
    assert_eq!(no_zones_lines(true, false), vec!["", "  No zones found.", ""]);
}

#[test]
fn zones_are_listed_with_their_other_outputs() {
    let zones = vec![
        zone("z1", "Kitchen", State::Playing, &["Kitchen", "Sub"]),
        zone("z2", "Den", State::Stopped, &[]),
        zone("z3", "Hall + Stairs", State::Loading, &["Hall", "Stairs"]),
    ];
    assert_eq!(
        zone_lines(&zones),
        vec![
            "",
            "  Kitchen (playing)",
            "    ID: z1",
            "    └─ Sub",
            "  Den (stopped)",
            "    ID: z2",
            "  Hall + Stairs (loading)",
            "    ID: z3",
            "    └─ Hall",
            "    └─ Stairs",
            "",
        ]
    );
    assert_eq!(zone_lines(&Vec::new()), vec!["", ""]);
}

#[test]
fn track_is_shown_with_the_lines_it_has() {
    let mut playing = zone("z1", "Kitchen", State::Paused, &[]);
    assert!(track_lines(&playing).is_empty());
    playing.now_playing = Some(NowPlaying {
        line1: "So What".to_string(),
        line2: String::new(),
        line3: "Kind of Blue".to_string(),
        seek_position: None,
        length: None,
        image_key: None,
    });
    assert_eq!(
        track_lines(&playing),
        vec!["  Kitchen (paused)", RULE, "    So What", "    Kind of Blue"]
    );
    playing.now_playing = Some(NowPlaying {
        line1: String::new(),
        line2: "Miles Davis".to_string(),
        line3: String::new(),
        seek_position: None,
        length: None,
        image_key: None,
    });
    assert_eq!(track_lines(&playing), vec!["  Kitchen (paused)", RULE, "    ", "    Miles Davis"]);
}

#[test]
fn progress_shows_position_and_length() {
    assert_eq!(progress_line("━━──", 75, 300), "    ━━── 1:15 / 5:00");
    assert_eq!(track_position(None), 0);
    assert_eq!(track_position(Some(0)), 0);
    assert_eq!(track_position(Some(75)), 75);
    for position in [-1i64, u32::MAX as i64, u32::MAX as i64 + 1, i64::MAX, i64::MIN, 1 << 40] {
        assert_eq!(track_position(Some(position)), position as u32);
    }
}

#[test]
fn queue_is_listed_with_numbers_and_a_total() {
    assert_eq!(
        queue_lines("Den", &None),
        vec!["", "  Queue for: Den", RULE, "", "  Could not retrieve queue.", ""]
    );
    assert_eq!(
        queue_lines("Den", &Some(Vec::new())),
        vec!["", "  Queue for: Den", RULE, "", "  Queue is empty.", ""]
    );
    assert_eq!(
        queue_lines("Den", &Some(vec![item(1, "", 0)])),
        vec!["", "  Queue for: Den", RULE, "", "    1. Track 1", "", "  Total: 1 track", ""]
    );
    assert_eq!(
        queue_lines("Den", &Some(vec![item(1, "Artist", 61), item(2, "", 5)])),
        vec![
            "",
            "  Queue for: Den",
            RULE,
            "",
            "    1. Track 1",
            "       Artist",
            "       Duration: 1:01",
            "",
            "    2. Track 2",
            "       Duration: 0:05",
            "",
            "  Total: 2 tracks",
            "",
        ]
    );
}

#[test]
fn queue_numbers_stay_flush_right_up_to_three_places() {
    let items: Vec<QueueItem> = (1..=1000).map(|id| item(id, "", 0)).collect();
    let lines = queue_lines("Den", &Some(items));
    assert_eq!(lines[4], "    1. Track 1");
    assert_eq!(lines[4 + 2 * 9], "   10. Track 10");
    assert_eq!(lines[4 + 2 * 99], "  100. Track 100");
    assert_eq!(lines[4 + 2 * 999], "  1000. Track 1000");
    assert_eq!(lines[lines.len() - 2], "  Total: 1000 tracks");
}
