use roon_rd::roon::WsZoneData;
use roon_rd::tui::format_time;
use roon_rd::tui::get_state_priority;
use roon_rd::tui::history_tail;
use roon_rd::tui::layout::cursor_column;
use roon_rd::tui::layout::events_title;
use roon_rd::tui::layout::layout;
use roon_rd::tui::layout::output_title;
use roon_rd::tui::layout::panes;
use roon_rd::tui::layout::visible_window;
use roon_rd::tui::layout::zone_detail_line;
use roon_rd::tui::layout::zone_position_text;
use roon_rd::tui::layout::zone_title_line;
use roon_rd::tui::layout::PaneSize;
use roon_rd::tui::layout::Panes;
use roon_rd::tui::layout::Window;
use roon_rd::tui::sort_for_display;
use roon_rd::tui::zone_display;
use roon_rd::tui::App;
use roon_rd::tui::EventBuffer;
use roon_rd::tui::KeyCode;
use roon_rd::tui::KeyEvent;
use roon_rd::tui::MaximizedWindow;
use roon_rd::tui::MessageBuffer;
use roon_rd::tui::Modifiers;
use roon_rd::tui::Rect;
use roon_rd::tui::ZoneBuffer;
use roon_rd::tui::ZoneDisplay;

fn shown(id: &str, state: &str) -> ZoneDisplay {
    ZoneDisplay {
        zone_id: id.to_string(),
        zone_name: format!("Zone {}", id),
        state: state.to_string(),
        track: None,
        artist: None,
        album: None,
        format: None,
        position_seconds: None,
        length_seconds: None,
    }
}

fn key(code: KeyCode) -> KeyEvent {
    KeyEvent { code, modifiers: Modifiers::Plain }
}

fn with(code: KeyCode, modifiers: Modifiers) -> KeyEvent {
    KeyEvent { code, modifiers }
}

fn typed(app: &mut App, text: &str) {
    for c in text.chars() {
        assert_eq!(app.handle_key(key(KeyCode::Char(c)), 0, None), None);
    }
}

fn app_with(history: &[&str], commands: &[&str]) -> App {
    App::new(
        history.iter().map(|entry| entry.to_string()).collect(),
        commands.iter().map(|entry| entry.to_string()).collect(),
    )
}

#[test]
fn message_buffer_keeps_the_newest_lines() {
    let mut buffer = MessageBuffer::new(3);
    assert!(buffer.messages().is_empty());
    for line in ["a", "b", "c", "d", "e"] {
        buffer.push(line.to_string());
    }
    assert_eq!(buffer.messages(), ["c".to_string(), "d".to_string(), "e".to_string()]);
    buffer.clear();
    assert!(buffer.messages().is_empty());
    buffer.push("f".to_string());
    assert_eq!(buffer.messages(), ["f".to_string()]);
}

#[test]
fn message_buffer_without_room_keeps_nothing() {
    let mut buffer = MessageBuffer::new(0);
    buffer.push("a".to_string());
    assert!(buffer.messages().is_empty());
}

#[test]
fn event_buffer_keeps_the_newest_events() {
    let mut buffer = EventBuffer::new(2);
    buffer.push("one".to_string());
    assert_eq!(buffer.events(), ["one".to_string()]);
    buffer.push("two".to_string());
    buffer.push("three".to_string());
    assert_eq!(buffer.events(), ["two".to_string(), "three".to_string()]);
    buffer.clear();
    assert!(buffer.events().is_empty());
}

#[test]
fn zone_buffer_patches_the_first_zone_with_the_identifier() {
    let mut buffer = ZoneBuffer::new();
    assert!(buffer.zones().is_empty());
    buffer.update(vec![shown("a", "playing"), shown("b", "paused"), shown("a", "stopped")]);
    buffer.update_position("a", Some(12));
    buffer.update_position("nobody", Some(99));
    let zones = buffer.zones();
    assert_eq!(zones.len(), 3);
    assert_eq!(zones[0].position_seconds, Some(12));
    assert_eq!(zones[1].position_seconds, None);
    assert_eq!(zones[2].position_seconds, None);
    buffer.update_position("a", None);
    assert_eq!(buffer.zones()[0].position_seconds, None);
    buffer.update(Vec::new());
    assert!(buffer.zones().is_empty());
}

#[test]
fn time_is_written_in_minutes_or_hours() {
    assert_eq!(format_time(0), "0:00");
    assert_eq!(format_time(5), "0:05");
    assert_eq!(format_time(65), "1:05");
    assert_eq!(format_time(3_599), "59:59");
    assert_eq!(format_time(3_600), "1:00:00");
    assert_eq!(format_time(3_725), "1:02:05");
    assert_eq!(format_time(360_000), "100:00:00");
    assert_eq!(format_time(-75), "1:15");
    assert_eq!(format_time(i64::MAX), "2562047788015215:30:07");
    assert_eq!(format_time(i64::MIN), "2562047788015215:30:08");
}

#[test]
fn state_priority_ranks_playing_first() {
    assert_eq!(get_state_priority("playing"), 0);
    assert_eq!(get_state_priority("loading"), 1);
    assert_eq!(get_state_priority("paused"), 2);
    assert_eq!(get_state_priority("stopped"), 3);
    assert_eq!(get_state_priority("Playing"), 4);
    assert_eq!(get_state_priority(""), 4);
}

#[test]
fn display_order_is_by_rank_and_stable() {
    let zones = vec![
        shown("1", "stopped"),
        shown("2", "Playing"),
        shown("3", "playing"),
        shown("4", "paused"),
        shown("5", "playing"),
        shown("6", "loading"),
        shown("7", "stopped"),
    ];
    let sorted = sort_for_display(&zones);
    let order: Vec<&str> = sorted.iter().map(|zone| zone.zone_id.as_str()).collect();
    assert_eq!(order, vec!["3", "5", "6", "4", "1", "7", "2"]);
}

#[test]
fn view_model_is_shown_with_its_format() {
    let model = WsZoneData {
        zone_id: "z".to_string(),
        zone_name: "Zone".to_string(),
        state: "Playing".to_string(),
        track: Some("T".to_string()),
        artist: None,
        album: Some("A".to_string()),
        position_seconds: Some(1),
        length_seconds: Some(2),
        image_key: Some("k".to_string()),
        is_muted: Some(true),
        dcs_format: Some("44 kHz 16 bit".to_string()),
    };
    assert_eq!(
        zone_display(&model),
        ZoneDisplay {
            zone_id: "z".to_string(),
            zone_name: "Zone".to_string(),
            state: "Playing".to_string(),
            track: Some("T".to_string()),
            artist: None,
            album: Some("A".to_string()),
            format: Some("44 kHz 16 bit".to_string()),
            position_seconds: Some(1),
            length_seconds: Some(2),
        }
    );
}

#[test]
fn history_tail_keeps_the_last_entries() {
    let history: Vec<String> = (1..=5).map(|n| n.to_string()).collect();
    assert_eq!(history_tail(&history, 2), vec!["4".to_string(), "5".to_string()]);
    assert_eq!(history_tail(&history, 5), history);
    assert_eq!(history_tail(&history, 100), history);
    assert!(history_tail(&history, 0).is_empty());
    assert!(history_tail(&Vec::new(), 3).is_empty());
}

#[test]
fn typing_inserts_at_the_cursor() {
    let mut app = app_with(&[], &[]);
    typed(&mut app, "zoes");
    assert_eq!(app.handle_key(key(KeyCode::Left), 0, None), None);
    assert_eq!(app.handle_key(key(KeyCode::Left), 0, None), None);
    assert_eq!(app.handle_key(with(KeyCode::Char('N'), Modifiers::Shift), 0, None), None);
    assert_eq!(app.input(), "zoNes");
    assert_eq!(app.cursor_position(), 3);
    // A character with another modifier is not typed.
    app.handle_key(with(KeyCode::Char('x'), Modifiers::Alt), 0, None);
    app.handle_key(with(KeyCode::Char('x'), Modifiers::Other), 0, None);
    assert_eq!(app.input(), "zoNes");
}

#[test]
fn backspace_and_delete_edit_around_the_cursor() {
    let mut app = app_with(&[], &[]);
    typed(&mut app, "abcd");
    app.handle_key(key(KeyCode::Home), 0, None);
    assert_eq!(app.cursor_position(), 0);
    app.handle_key(key(KeyCode::Backspace), 0, None);
    assert_eq!(app.input(), "abcd");
    app.handle_key(key(KeyCode::Delete), 0, None);
    assert_eq!(app.input(), "bcd");
    app.handle_key(key(KeyCode::Right), 0, None);
    app.handle_key(key(KeyCode::Right), 0, None);
    app.handle_key(key(KeyCode::Backspace), 0, None);
    assert_eq!(app.input(), "bd");
    assert_eq!(app.cursor_position(), 1);
    app.handle_key(key(KeyCode::End), 0, None);
    assert_eq!(app.cursor_position(), 2);
    app.handle_key(key(KeyCode::Delete), 0, None);
    app.handle_key(key(KeyCode::Right), 0, None);
    assert_eq!(app.input(), "bd");
    assert_eq!(app.cursor_position(), 2);
}

#[test]
fn editing_counts_characters_not_bytes() {
    let mut app = app_with(&[], &[]);
    typed(&mut app, "aé\u{2191}z");
    assert_eq!(app.cursor_position(), 4);
    app.handle_key(key(KeyCode::Left), 0, None);
    app.handle_key(key(KeyCode::Backspace), 0, None);
    assert_eq!(app.input(), "aéz");
    assert_eq!(app.cursor_position(), 2);
}

#[test]
fn enter_submits_and_records_the_command() {
    let mut app = app_with(&["old"], &[]);
    typed(&mut app, "zones");
    assert_eq!(app.handle_key(key(KeyCode::Enter), 0, None), Some("zones".to_string()));
    assert_eq!(app.input(), "");
    assert_eq!(app.cursor_position(), 0);
    assert_eq!(app.history(), &vec!["old".to_string(), "zones".to_string()]);
    // An empty line is submitted but not recorded.
    assert_eq!(app.handle_key(key(KeyCode::Enter), 0, None), Some(String::new()));
    assert_eq!(app.history().len(), 2);
}

#[test]
fn history_is_walked_back_and_forth() {
    let mut app = app_with(&["one", "two", "three"], &[]);
    let back = with(KeyCode::Char('p'), Modifiers::Control);
    let forth = with(KeyCode::Char('n'), Modifiers::Control);
    app.handle_key(forth, 0, None);
    assert_eq!(app.input(), "");
    app.handle_key(back, 0, None);
    assert_eq!(app.input(), "three");
    assert_eq!(app.cursor_position(), 5);
    app.handle_key(with(KeyCode::Up, Modifiers::Control), 0, None);
    assert_eq!(app.input(), "two");
    app.handle_key(back, 0, None);
    app.handle_key(back, 0, None);
    assert_eq!(app.input(), "one");
    app.handle_key(forth, 0, None);
    assert_eq!(app.input(), "two");
    app.handle_key(with(KeyCode::Down, Modifiers::Control), 0, None);
    assert_eq!(app.input(), "three");
    app.handle_key(forth, 0, None);
    assert_eq!(app.input(), "");
    assert_eq!(app.cursor_position(), 0);
}

#[test]
fn history_keys_do_nothing_without_history() {
    let mut app = app_with(&[], &[]);
    typed(&mut app, "x");
    app.handle_key(with(KeyCode::Char('p'), Modifiers::Control), 0, None);
    app.handle_key(with(KeyCode::Char('n'), Modifiers::Control), 0, None);
    assert_eq!(app.input(), "x");
}

#[test]
fn tab_cycles_through_the_sorted_candidates() {
    let mut app = app_with(&[], &["zones", "upnp-xml", "upnp-info", "status"]);
    typed(&mut app, "  upnp");
    app.handle_key(key(KeyCode::Tab), 0, None);
    assert_eq!(app.input(), "upnp-info");
    assert_eq!(app.cursor_position(), 9);
    app.handle_key(key(KeyCode::Tab), 0, None);
    assert_eq!(app.input(), "upnp-xml");
    app.handle_key(key(KeyCode::Tab), 0, None);
    assert_eq!(app.input(), "upnp-info");
    // Any edit ends the cycle; the next Tab starts from the new input.
    typed(&mut app, "x");
    app.handle_key(key(KeyCode::Tab), 0, None);
    assert_eq!(app.input(), "upnp-infox");
}

#[test]
fn tab_on_an_empty_line_offers_every_command() {
    let mut app = app_with(&[], &["zones", "help", "status"]);
    app.handle_key(key(KeyCode::Tab), 0, None);
    assert_eq!(app.input(), "help");
    app.handle_key(key(KeyCode::Tab), 0, None);
    assert_eq!(app.input(), "status");
    app.handle_key(key(KeyCode::Tab), 0, None);
    assert_eq!(app.input(), "zones");
    app.handle_key(key(KeyCode::Tab), 0, None);
    assert_eq!(app.input(), "help");
}

#[test]
fn control_c_and_control_d_ask_to_leave() {
    let mut app = app_with(&[], &[]);
    assert!(!app.should_exit());
    app.handle_key(key(KeyCode::Char('c')), 0, None);
    assert!(!app.should_exit());
    assert_eq!(app.input(), "c");
    app.handle_key(with(KeyCode::Char('c'), Modifiers::Control), 0, None);
    assert!(app.should_exit());
    let mut app = app_with(&[], &[]);
    app.handle_key(with(KeyCode::Char('d'), Modifiers::Control), 0, None);
    assert!(app.should_exit());
}

#[test]
fn output_scrolls_within_its_lines() {
    let mut app = app_with(&[], &[]);
    app.handle_key(key(KeyCode::Up), 3, None);
    app.handle_key(key(KeyCode::Up), 3, None);
    app.handle_key(key(KeyCode::Up), 3, None);
    assert_eq!(app.scroll_offset(), 2);
    app.handle_key(key(KeyCode::Down), 3, None);
    assert_eq!(app.scroll_offset(), 1);
    app.handle_key(key(KeyCode::PageUp), 100, None);
    assert_eq!(app.scroll_offset(), 11);
    app.handle_key(key(KeyCode::PageUp), 15, None);
    assert_eq!(app.scroll_offset(), 14);
    app.handle_key(key(KeyCode::PageDown), 15, None);
    assert_eq!(app.scroll_offset(), 4);
    app.handle_key(key(KeyCode::PageDown), 15, None);
    assert_eq!(app.scroll_offset(), 0);
    app.handle_key(key(KeyCode::Down), 15, None);
    assert_eq!(app.scroll_offset(), 0);
    app.handle_key(with(KeyCode::Home, Modifiers::Control), 40, None);
    assert_eq!(app.scroll_offset(), 39);
    app.handle_key(with(KeyCode::Home, Modifiers::Control), 0, None);
    assert_eq!(app.scroll_offset(), 39);
    app.handle_key(with(KeyCode::End, Modifiers::Control), 40, None);
    assert_eq!(app.scroll_offset(), 0);
    app.handle_key(key(KeyCode::Up), 0, None);
    assert_eq!(app.scroll_offset(), 0);
}

#[test]
fn events_scroll_only_when_the_window_exists() {
    let mut app = app_with(&[], &[]);
    let up = with(KeyCode::Up, Modifiers::Alt);
    let down = with(KeyCode::Down, Modifiers::Alt);
    app.handle_key(up, 10, None);
    assert_eq!(app.event_scroll_offset(), 0);
    app.handle_key(up, 10, Some(2));
    app.handle_key(up, 10, Some(2));
    assert_eq!(app.event_scroll_offset(), 1);
    assert_eq!(app.scroll_offset(), 0);
    app.handle_key(down, 10, Some(2));
    app.handle_key(down, 10, Some(2));
    assert_eq!(app.event_scroll_offset(), 0);
}

#[test]
fn click_on_a_title_toggles_the_window() {
    let mut app = app_with(&[], &[]);
    let zones = Some(Rect { x: 0, y: 0, width: 80, height: 5 });
    let events = Some(Rect { x: 0, y: 5, width: 80, height: 10 });
    let output = Some(Rect { x: 0, y: 15, width: 80, height: 20 });
    app.handle_mouse(true, 5, 79, zones, events, output);
    assert_eq!(app.maximized_window(), MaximizedWindow::Events);
    app.handle_mouse(true, 5, 0, zones, events, output);
    assert_eq!(app.maximized_window(), MaximizedWindow::Normal);
    app.handle_mouse(true, 0, 10, zones, events, output);
    assert_eq!(app.maximized_window(), MaximizedWindow::Zones);
    app.handle_mouse(true, 15, 10, zones, events, output);
    assert_eq!(app.maximized_window(), MaximizedWindow::Output);
    // Not on a title, beyond the right edge, or not a press of the left button.
    app.handle_mouse(true, 6, 10, zones, events, output);
    app.handle_mouse(true, 5, 80, zones, events, output);
    app.handle_mouse(false, 0, 10, zones, events, output);
    app.handle_mouse(true, 0, 10, None, None, None);
    assert_eq!(app.maximized_window(), MaximizedWindow::Output);
    app.handle_key(key(KeyCode::Esc), 0, None);
    assert_eq!(app.maximized_window(), MaximizedWindow::Normal);
}

#[test]
fn click_at_the_far_right_does_not_overflow() {
    let mut app = app_with(&[], &[]);
    let area = Some(Rect { x: 65_000, y: 1, width: 1_000, height: 1 });
    app.handle_mouse(true, 1, u16::MAX, area, None, None);
    assert_eq!(app.maximized_window(), MaximizedWindow::Zones);
}

#[test]
fn layout_follows_the_windows_there_are() {
    let normal = MaximizedWindow::Normal;
    assert_eq!(
        layout(normal, true, true),
        vec![PaneSize::Length(5), PaneSize::Percentage(25), PaneSize::Min(1), PaneSize::Length(3)]
    );
    assert_eq!(
        layout(normal, true, false),
        vec![PaneSize::Length(5), PaneSize::Min(1), PaneSize::Length(3)]
    );
    assert_eq!(
        layout(normal, false, true),
        vec![PaneSize::Percentage(30), PaneSize::Min(1), PaneSize::Length(3)]
    );
    assert_eq!(layout(normal, false, false), vec![PaneSize::Min(1), PaneSize::Length(3)]);
    for window in [MaximizedWindow::Zones, MaximizedWindow::Events, MaximizedWindow::Output] {
        assert_eq!(layout(window, true, true), vec![PaneSize::Min(1), PaneSize::Length(3)]);
    }
}

#[test]
fn panes_hide_what_a_maximized_window_covers() {
    assert_eq!(
        panes(MaximizedWindow::Normal, true, true),
        Panes { zones: Some(0), events: Some(1), output: Some(2), input: 3 }
    );
    assert_eq!(
        panes(MaximizedWindow::Normal, false, true),
        Panes { zones: None, events: Some(0), output: Some(1), input: 2 }
    );
    assert_eq!(
        panes(MaximizedWindow::Normal, true, false),
        Panes { zones: Some(0), events: None, output: Some(1), input: 2 }
    );
    assert_eq!(
        panes(MaximizedWindow::Normal, false, false),
        Panes { zones: None, events: None, output: Some(0), input: 1 }
    );
    assert_eq!(
        panes(MaximizedWindow::Zones, true, true),
        Panes { zones: Some(0), events: None, output: None, input: 1 }
    );
    assert_eq!(
        panes(MaximizedWindow::Events, true, true),
        Panes { zones: None, events: Some(0), output: None, input: 1 }
    );
    assert_eq!(
        panes(MaximizedWindow::Output, true, true),
        Panes { zones: None, events: None, output: Some(0), input: 1 }
    );
}

#[test]
fn window_shows_the_last_lines_unless_scrolled() {
    assert_eq!(visible_window(0, 0, 10), Window { start: 0, end: 0, position: 0 });
    assert_eq!(visible_window(5, 0, 10), Window { start: 0, end: 5, position: 4 });
    assert_eq!(visible_window(50, 0, 10), Window { start: 40, end: 50, position: 49 });
    assert_eq!(visible_window(50, 3, 10), Window { start: 37, end: 47, position: 46 });
    assert_eq!(visible_window(50, 45, 10), Window { start: 0, end: 5, position: 4 });
    assert_eq!(visible_window(50, 60, 10), Window { start: 0, end: 0, position: 0 });
    assert_eq!(visible_window(50, 3, 0), Window { start: 47, end: 47, position: 46 });
}

#[test]
fn title_line_centres_the_state_and_puts_the_position_right() {
    assert_eq!(zone_title_line("Den", "playing", "", 0), "Zone: Den");
    //         0         1         2         3         4
    //         0123456789012345678901234567890123456789
    assert_eq!(
        zone_title_line("Den", "playing", "1:00 / 3:00", 40),
        "Zone: Den        playing     1:00 / 3:00"
    );
    assert_eq!(zone_title_line("Den", "playing", "", 40), "Zone: Den        playing");
    // No room to centre: two spaces; room for the position after one space only.
    assert_eq!(
        zone_title_line("A long zone name", "stopped", "0:01 / 0:02", 43),
        "Zone: A long zone name  stopped 0:01 / 0:02"
    );
    assert_eq!(
        zone_title_line("A long zone name", "stopped", "0:01 / 0:02", 45),
        "Zone: A long zone name  stopped   0:01 / 0:02"
    );
    assert_eq!(
        zone_title_line("A long zone name", "stopped", "0:01 / 0:02", 42),
        "Zone: A long zone name  stopped"
    );
}

#[test]
fn position_and_detail_lines_show_what_is_known() {
    assert_eq!(zone_position_text(Some(75), Some(3_700)), "1:15 / 1:01:40");
    assert_eq!(zone_position_text(None, Some(3_700)), "");
    assert_eq!(zone_position_text(Some(1), None), "");
    assert_eq!(
        zone_detail_line(&Some("T".to_string()), &None, &Some("A".to_string()), &None),
        "  Track: T  |  Artist: -  |  Album: A  |  Format: -"
    );
}

#[test]
fn titles_say_how_far_a_window_is_scrolled() {
    assert_eq!(output_title(0), "Output");
    assert_eq!(output_title(12), "Output (\u{2191}12 lines)");
    assert_eq!(events_title(0), "Roon Events (Alt+\u{2191}/\u{2193} to scroll)");
    assert_eq!(events_title(3), "Roon Events (\u{2191}3 lines, Alt+\u{2191}/\u{2193} to scroll)");
}

#[test]
fn cursor_column_stays_on_the_screen() {
    assert_eq!(cursor_column(0, 0, 0), 1);
    assert_eq!(cursor_column(2, 10, 5), 18);
    assert_eq!(cursor_column(65_000, 1_000, 0), u16::MAX);
    assert_eq!(cursor_column(0, usize::MAX, usize::MAX), u16::MAX);
}
