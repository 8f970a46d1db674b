use roon_rd::cli::brightness_query;
use roon_rd::cli::complete_line;
use roon_rd::cli::completer_commands;
use roon_rd::cli::display_query;
use roon_rd::cli::format_duration;
use roon_rd::cli::is_roon_command;
use roon_rd::cli::level_enabled;
use roon_rd::cli::level_for_flag;
use roon_rd::cli::log_line;
use roon_rd::cli::shell_action;
use roon_rd::cli::startup_level;
use roon_rd::cli::tui_action;
use roon_rd::cli::Mode;
use roon_rd::cli::ShellAction;
use roon_rd::cli::level_name;
use roon_rd::cli::parse_i32;
use roon_rd::cli::parse_level;
use roon_rd::cli::plan_query;
use roon_rd::cli::prompt;
use roon_rd::cli::queue_target;
use roon_rd::cli::split_at_spaces;
use roon_rd::cli::toggled_level;
use roon_rd::cli::verbose_request;
use roon_rd::cli::verbose_request_from;
use roon_rd::cli::LogLevel;
use roon_rd::cli::Query;
use roon_rd::cli::QueryError;
use roon_rd::cli::QueryErrorKind;
use roon_rd::cli::QueryKind;
use roon_rd::cli::VerboseRequest;
use roon_rd::roon::Control;
use roon_rd::roon::NowPlaying;
use roon_rd::roon::State;
use roon_rd::roon::Zone;
use roon_rd::text::contains;
use roon_rd::text::i64_to_string;
use roon_rd::text::join_from;
use roon_rd::text::sort_texts;
use roon_rd::text::starts_with;
use roon_rd::text::str_le;
use roon_rd::text::u64_to_string;
use roon_rd::text::spaces;
use roon_rd::text::split_whitespace;
use roon_rd::text::str_eq;
use roon_rd::text::trim;
use roon_rd::text::trim_start;
use roon_rd::text::two_digit_string;

fn strings(parts: &[&str]) -> Vec<String> {
    parts.iter().map(|part| part.to_string()).collect()
}

fn query(kind: QueryKind, args: &[&str]) -> Result<Query, QueryError> {
    Ok(Query { kind, args: strings(args) })
}

fn refused(kind: QueryErrorKind, detail: &str) -> Result<Query, QueryError> {
    Err(QueryError { kind, detail: detail.to_string() })
}

#[test]
fn slices_compare_by_their_characters() {
    assert!(str_eq("", ""));
    assert!(str_eq("zone", "zone"));
    assert!(!str_eq("zone", "zones"));
    assert!(!str_eq("zone", "zonE"));
    assert!(str_eq("\u{2191}é", "\u{2191}é"));
    assert!(!str_eq("\u{2191}", "\u{2193}"));
}

#[test]
fn two_digits_pad_with_a_zero() {
    assert_eq!(two_digit_string(0), "00");
    assert_eq!(two_digit_string(7), "07");
    assert_eq!(two_digit_string(10), "10");
    assert_eq!(two_digit_string(123), "123");
}

#[test]
fn spaces_are_counted() {
    assert_eq!(spaces(0), "");
    assert_eq!(spaces(3), "   ");
}

#[test]
fn trimming_follows_std() {
    for text in ["", "   ", "a", "  a b  ", "\t\n x \r\n", "\u{a0}x\u{3000}", "\u{2003}y z\u{85}", "é "]
    {
        assert_eq!(trim(text), text.trim(), "{:?}", text);
        assert_eq!(trim_start(text), text.trim_start(), "{:?}", text);
    }
}

#[test]
fn splitting_follows_std() {
    for text in
        ["", "   ", "a", "  a  b ", "play zone-1", "\tq\u{a0}r\u{2009}s\n", "dcs-menu  x", "é ü"]
    {
        let expected: Vec<String> = text.split_whitespace().map(|word| word.to_string()).collect();
        assert_eq!(split_whitespace(text), expected, "{:?}", text);
    }
}

#[test]
fn joining_puts_one_space_between() {
    let parts = strings(&["queue", "Living", "Room"]);
    assert_eq!(join_from(&parts, 0), "queue Living Room");
    assert_eq!(join_from(&parts, 1), "Living Room");
    assert_eq!(join_from(&parts, 2), "Room");
    assert_eq!(join_from(&parts, 3), "");
    assert_eq!(join_from(&parts, 4), "");
    assert_eq!(join_from(&parts, usize::MAX), "");
}

#[test]
fn duration_is_minutes_and_seconds() {
    assert_eq!(format_duration(0), "0:00");
    assert_eq!(format_duration(59), "0:59");
    assert_eq!(format_duration(61), "1:01");
    assert_eq!(format_duration(3_600), "60:00");
    assert_eq!(format_duration(u32::MAX), "71582788:15");
}

#[test]
fn log_levels_have_names() {
    let levels = [
        (LogLevel::Off, "off"),
        (LogLevel::Error, "error"),
        (LogLevel::Warn, "warn"),
        (LogLevel::Info, "info"),
        (LogLevel::Debug, "debug"),
        (LogLevel::Trace, "trace"),
    ];
    for (level, name) in levels {
        assert_eq!(level_name(level), name);
        assert_eq!(parse_level(name), Some(level));
    }
    assert_eq!(parse_level("INFO"), None);
    assert_eq!(parse_level(""), None);
}

#[test]
fn verbose_line_toggles_sets_or_is_refused() {
    assert_eq!(verbose_request("verbose"), VerboseRequest::Toggle);
    assert_eq!(verbose_request("verbose  DeBuG "), VerboseRequest::Level(LogLevel::Debug));
    assert_eq!(verbose_request("verbose off"), VerboseRequest::Level(LogLevel::Off));
    assert_eq!(verbose_request("verbose loud"), VerboseRequest::InvalidLevel);
    assert_eq!(verbose_request("verbose info now"), VerboseRequest::Usage);
    assert_eq!(verbose_request_from(2, None), VerboseRequest::InvalidLevel);
    assert_eq!(verbose_request_from(1, Some(LogLevel::Warn)), VerboseRequest::Toggle);
}

#[test]
fn toggled_level_is_info_or_off() {
    assert_eq!(toggled_level(LogLevel::Off), LogLevel::Info);
    assert_eq!(toggled_level(LogLevel::Info), LogLevel::Off);
    assert_eq!(toggled_level(LogLevel::Trace), LogLevel::Off);
    assert_eq!(level_for_flag(true), LogLevel::Info);
    assert_eq!(level_for_flag(false), LogLevel::Off);
}

#[test]
fn prompt_names_the_core_and_the_level() {
    assert_eq!(prompt("Nucleus", LogLevel::Debug), "Nucleus: debug> ");
    assert_eq!(prompt("UPnP", LogLevel::Off), "UPnP: off> ");
}

#[test]
fn completer_leaves_roon_commands_out_without_a_core() {
    let names = strings(&["help", "status", "upnp-info", "queue", "mute", "dcs-menu", "zones"]);
    assert_eq!(completer_commands(&names, true), names);
    assert_eq!(completer_commands(&names, false), strings(&["help", "upnp-info", "dcs-menu"]));
    for name in
        ["status", "reconnect", "zones", "now-playing", "queue", "play", "pause", "stop", "mute"]
    {
        assert!(is_roon_command(name));
    }
    assert!(!is_roon_command("help"));
    assert!(!is_roon_command("Play"));
}

#[test]
fn line_completes_the_word_before_the_cursor() {
    let commands = strings(&["play", "pause", "stop", "status"]);
    assert_eq!(complete_line(&commands, "p", 1), (0, strings(&["play", "pause"])));
    assert_eq!(complete_line(&commands, "x st", 4), (2, strings(&["stop", "status"])));
    assert_eq!(complete_line(&commands, "x sta", 4), (2, strings(&["stop", "status"])));
    assert_eq!(complete_line(&commands, "x sta", 5), (2, strings(&["status"])));
    assert_eq!(complete_line(&commands, "play ", 5), (5, commands.clone()));
    assert_eq!(complete_line(&commands, "", 0), (0, commands.clone()));
    assert_eq!(complete_line(&commands, "é q", 4), (3, Vec::<String>::new()));
}

#[test]
fn bare_lines_are_queries_by_themselves() {
    assert_eq!(plan_query(""), query(QueryKind::Nothing, &[]));
    assert_eq!(plan_query("status"), query(QueryKind::Status, &[]));
    assert_eq!(plan_query("zones"), query(QueryKind::Zones, &[]));
    assert_eq!(plan_query("now-playing"), query(QueryKind::NowPlaying, &[]));
    assert_eq!(plan_query("upnp-discover"), query(QueryKind::UpnpDiscover, &[]));
    assert_eq!(plan_query("upnp-renderers"), query(QueryKind::UpnpRenderers, &[]));
    assert_eq!(plan_query("verbose"), query(QueryKind::Verbose, &[]));
    assert_eq!(plan_query("version"), query(QueryKind::Version, &[]));
    assert_eq!(plan_query("help"), query(QueryKind::Help, &[]));
}

#[test]
fn queue_takes_the_rest_of_the_line_as_the_zone() {
    assert_eq!(plan_query("queue"), query(QueryKind::Queue, &[]));
    assert_eq!(plan_query("queue  Living   Room"), query(QueryKind::Queue, &["Living Room"]));
    assert_eq!(plan_query("queued"), query(QueryKind::Queue, &[]));
}

#[test]
fn upnp_commands_take_the_rest_of_the_line() {
    assert_eq!(
        plan_query("upnp-info http://h/d.xml"),
        query(QueryKind::UpnpInfo, &["http://h/d.xml"])
    );
    assert_eq!(plan_query("upnp-xml a  b"), query(QueryKind::UpnpXml, &["a b"]));
    assert_eq!(plan_query("upnp-position"), query(QueryKind::UpnpPosition, &[""]));
    assert_eq!(plan_query("upnp-state x"), query(QueryKind::UpnpState, &["x"]));
    assert_eq!(plan_query("upnp-playing x"), query(QueryKind::UpnpPlaying, &["x"]));
}

#[test]
fn upnp_service_needs_an_address_and_a_service() {
    assert_eq!(plan_query("upnp-service"), refused(QueryErrorKind::UpnpServiceUsage, ""));
    assert_eq!(plan_query("upnp-service http://h"), refused(QueryErrorKind::UpnpServiceUsage, ""));
    assert_eq!(
        plan_query("upnp-service ftp://h AVTransport:2"),
        refused(QueryErrorKind::InvalidDeviceUrl, "ftp://h")
    );
    assert_eq!(
        plan_query("upnp-service https://h/d.xml AVTransport:2 more"),
        query(QueryKind::UpnpService, &["https://h/d.xml", "AVTransport:2"])
    );
}

#[test]
fn dcs_commands_default_to_the_usual_host() {
    assert_eq!(plan_query("dcs-playing"), query(QueryKind::DcsPlaying, &["dcs-vivaldi.local"]));
    assert_eq!(plan_query("dcs-format 10.0.0.2"), query(QueryKind::DcsFormat, &["10.0.0.2"]));
    assert_eq!(plan_query("dcs-settings a b"), query(QueryKind::DcsSettings, &["a"]));
    assert_eq!(plan_query("dcs-upsampler"), query(QueryKind::DcsUpsampler, &["dcs-vivaldi.local"]));
    assert_eq!(plan_query("dcs-inputs h"), query(QueryKind::DcsInputs, &["h"]));
    assert_eq!(plan_query("dcs-playmode h"), query(QueryKind::DcsPlaymode, &["h"]));
}

#[test]
fn dcs_menu_cuts_the_line_at_single_spaces() {
    assert_eq!(plan_query("dcs-menu"), refused(QueryErrorKind::DcsMenuUsage, ""));
    assert_eq!(
        plan_query("dcs-menu ui:/settings"),
        query(QueryKind::DcsMenu, &["dcs-vivaldi.local", "ui:/settings"])
    );
    assert_eq!(
        plan_query("dcs-menu host ui:/a b c"),
        query(QueryKind::DcsMenu, &["host", "ui:/a b c"])
    );
    assert_eq!(plan_query("dcs-menu  x"), query(QueryKind::DcsMenu, &["", "x"]));
    assert_eq!(split_at_spaces("a"), strings(&["a"]));
    assert_eq!(split_at_spaces("a b"), strings(&["a", "b"]));
    assert_eq!(split_at_spaces("a b c d"), strings(&["a", "b", "c d"]));
    assert_eq!(split_at_spaces(" a"), strings(&["", "a"]));
    assert_eq!(split_at_spaces("a  "), strings(&["a", "", ""]));
}

#[test]
fn brightness_must_be_a_number() {
    assert_eq!(plan_query("dcs-set-brightness"), refused(QueryErrorKind::BrightnessUsage, ""));
    assert_eq!(
        plan_query("dcs-set-brightness 7"),
        query(QueryKind::DcsSetBrightness(7), &["dcs-vivaldi.local"])
    );
    assert_eq!(
        plan_query("dcs-set-brightness h -3"),
        query(QueryKind::DcsSetBrightness(-3), &["h"])
    );
    assert_eq!(
        plan_query("dcs-set-brightness h bright"),
        refused(QueryErrorKind::InvalidBrightness, "bright")
    );
    assert_eq!(
        plan_query("dcs-set-brightness 99999999999"),
        refused(QueryErrorKind::InvalidBrightness, "99999999999")
    );
    assert_eq!(
        brightness_query("h".to_string(), "x".to_string(), Some(4)),
        query(QueryKind::DcsSetBrightness(4), &["h"])
    );
    assert_eq!(
        brightness_query("h".to_string(), "x".to_string(), None),
        refused(QueryErrorKind::InvalidBrightness, "x")
    );
}

#[test]
fn display_state_is_on_or_off_in_any_case() {
    assert_eq!(plan_query("dcs-set-display"), refused(QueryErrorKind::DisplayUsage, ""));
    assert_eq!(
        plan_query("dcs-set-display OFF"),
        query(QueryKind::DcsSetDisplay(true), &["dcs-vivaldi.local"])
    );
    assert_eq!(plan_query("dcs-set-display h On"), query(QueryKind::DcsSetDisplay(false), &["h"]));
    assert_eq!(
        plan_query("dcs-set-display h Dim"),
        refused(QueryErrorKind::InvalidDisplayState, "dim")
    );
    assert_eq!(
        display_query("h".to_string(), "off".to_string()),
        query(QueryKind::DcsSetDisplay(true), &["h"])
    );
    assert_eq!(
        display_query("h".to_string(), "OFF".to_string()),
        refused(QueryErrorKind::InvalidDisplayState, "OFF")
    );
}

#[test]
fn zone_commands_need_exactly_one_zone() {
    assert_eq!(plan_query("play z1"), query(QueryKind::Control(Control::Play), &["z1"]));
    assert_eq!(plan_query("pause z1"), query(QueryKind::Control(Control::Pause), &["z1"]));
    assert_eq!(plan_query(" stop  z1 "), query(QueryKind::Control(Control::Stop), &["z1"]));
    assert_eq!(plan_query("mute z1"), query(QueryKind::Mute, &["z1"]));
    assert_eq!(plan_query("play"), refused(QueryErrorKind::ZoneRequired, "play"));
    assert_eq!(plan_query("mute"), refused(QueryErrorKind::ZoneRequired, "mute"));
    assert_eq!(plan_query("play a b"), refused(QueryErrorKind::UnknownCommand, "play a b"));
    assert_eq!(plan_query("next z1"), refused(QueryErrorKind::UnknownCommand, "next z1"));
    assert_eq!(plan_query("status "), refused(QueryErrorKind::UnknownCommand, "status "));
    assert_eq!(plan_query("   "), refused(QueryErrorKind::UnknownCommand, "   "));
    assert_eq!(plan_query("verbose debug"), refused(QueryErrorKind::UnknownCommand, "verbose debug"));
}

#[test]
fn query_errors_have_their_texts() {
    let error = QueryError { kind: QueryErrorKind::UnknownCommand, detail: "frob".to_string() };
    assert_eq!(error.message(), "Unknown command: frob\nType 'help' for available commands.");
    let error = QueryError { kind: QueryErrorKind::ZoneRequired, detail: "play".to_string() };
    assert_eq!(error.message(), "Usage: play <zone_id>\nUse 'zones' to see available zone IDs.");
    let error = QueryError { kind: QueryErrorKind::InvalidBrightness, detail: "x".to_string() };
    assert_eq!(error.message(), "Invalid brightness value 'x'. Must be a number between 0 and 15.");
    let error = QueryError { kind: QueryErrorKind::InvalidDisplayState, detail: "dim".to_string() };
    assert_eq!(error.message(), "Invalid display state 'dim'. Must be 'on' or 'off'.");
    let error = QueryError { kind: QueryErrorKind::InvalidDeviceUrl, detail: "ftp://h".to_string() };
    assert!(error.message().starts_with("Invalid device URL: 'ftp://h'\n\nThe device URL must be"));
    for kind in [
        QueryErrorKind::UpnpServiceUsage,
        QueryErrorKind::DcsMenuUsage,
        QueryErrorKind::BrightnessUsage,
        QueryErrorKind::DisplayUsage,
    ] {
        let error = QueryError { kind, detail: String::new() };
        assert!(error.message().starts_with("Usage: "));
    }
}

fn named_zone(name: &str, plays: bool) -> Zone {
    Zone {
        zone_id: name.to_string(),
        display_name: name.to_string(),
        state: State::Paused,
        now_playing: if plays {
            Some(NowPlaying {
                line1: "t".to_string(),
                line2: String::new(),
                line3: String::new(),
                seek_position: None,
                length: None,
                image_key: None,
            })
        } else {
            None
        },
        outputs: Vec::new(),
    }
}

#[test]
fn text_contains_its_parts() {
    assert!(contains("living room", "ing r"));
    assert!(contains("living room", ""));
    assert!(contains("", ""));
    assert!(contains("living room", "living room"));
    assert!(contains("living room", "m"));
    assert!(!contains("living room", "rooms"));
    assert!(!contains("living room", "Living"));
    assert!(!contains("", "x"));
    assert!(contains("caf\u{e9} bar", "\u{e9} b"));
}

#[test]
fn queue_is_that_of_the_named_or_the_first_playing_zone() {
    let zones = vec![
        named_zone("Kitchen", false),
        named_zone("Living Room", true),
        named_zone("Bedroom", true),
    ];
    assert_eq!(queue_target(&zones, &None), Some(1));
    assert_eq!(queue_target(&zones, &Some("ROOM".to_string())), Some(1));
    assert_eq!(queue_target(&zones, &Some("bed".to_string())), Some(2));
    assert_eq!(queue_target(&zones, &Some("kitchen".to_string())), Some(0));
    assert_eq!(queue_target(&zones, &Some("garage".to_string())), None);
    assert_eq!(queue_target(&zones[..1].to_vec(), &None), None);
    assert_eq!(queue_target(&Vec::new(), &None), None);
}

#[test]
fn interactive_shell_knows_its_own_commands() {
    assert_eq!(shell_action(""), ShellAction::Skip);
    assert_eq!(shell_action("   \t"), ShellAction::Skip);
    assert_eq!(shell_action(" quit "), ShellAction::Quit);
    assert_eq!(shell_action("exit"), ShellAction::Quit);
    assert_eq!(shell_action("reconnect"), ShellAction::Reconnect);
    assert_eq!(shell_action("verbose"), ShellAction::Verbose(VerboseRequest::Toggle));
    assert_eq!(
        shell_action(" verbose trace"),
        ShellAction::Verbose(VerboseRequest::Level(LogLevel::Trace))
    );
    assert_eq!(shell_action("verbosely"), ShellAction::Verbose(VerboseRequest::Toggle));
    assert_eq!(shell_action("clear"), ShellAction::Run);
    assert_eq!(shell_action("zones"), ShellAction::Run);
    assert_eq!(shell_action("quit now"), ShellAction::Run);
}

#[test]
fn terminal_ui_knows_its_own_commands() {
    assert_eq!(tui_action(" clear "), ShellAction::Clear);
    assert_eq!(tui_action("test"), ShellAction::Test);
    assert_eq!(tui_action("quit"), ShellAction::Quit);
    assert_eq!(tui_action("exit "), ShellAction::Quit);
    assert_eq!(tui_action("reconnect"), ShellAction::Reconnect);
    assert_eq!(tui_action("verbose x"), ShellAction::Verbose(VerboseRequest::InvalidLevel));
    assert_eq!(tui_action(" verbose"), ShellAction::Run);
    assert_eq!(tui_action(""), ShellAction::Run);
    assert_eq!(tui_action("status"), ShellAction::Run);
}

#[test]
fn logger_starts_at_the_level_of_the_mode() {
    assert_eq!(startup_level(Mode::Query, false), LogLevel::Trace);
    assert_eq!(startup_level(Mode::Interactive, true), LogLevel::Trace);
    assert_eq!(startup_level(Mode::Tui, true), LogLevel::Off);
    assert_eq!(startup_level(Mode::Server, false), LogLevel::Info);
    assert_eq!(startup_level(Mode::Server, true), LogLevel::Debug);
}

#[test]
fn messages_show_up_to_the_current_level() {
    assert!(level_enabled(LogLevel::Error, LogLevel::Error));
    assert!(level_enabled(LogLevel::Warn, LogLevel::Info));
    assert!(!level_enabled(LogLevel::Debug, LogLevel::Info));
    assert!(!level_enabled(LogLevel::Error, LogLevel::Off));
    assert!(level_enabled(LogLevel::Trace, LogLevel::Trace));
    assert_eq!(log_line(LogLevel::Warn, "careful"), "[WARN ] careful");
    assert_eq!(log_line(LogLevel::Error, ""), "[ERROR] ");
    assert_eq!(log_line(LogLevel::Info, "x"), "[INFO ] x");
    assert_eq!(log_line(LogLevel::Debug, "x"), "[DEBUG] x");
    assert_eq!(log_line(LogLevel::Trace, "x"), "[TRACE] x");
}

#[test]
fn numbers_are_read_as_std_reads_them() {
    let texts = [
        "0", "7", "-7", "+7", "007", "-0", "+0", "2147483647", "2147483648", "-2147483648",
        "-2147483649", "99999999999999999999999", "-99999999999999999999999", "", "-", "+", "--1",
        "+-1", "1-", " 1", "1 ", "1_000", "0x10", "1.5", "\u{661}\u{662}", "12a", "a12",
        "\u{ff11}\u{ff12}",
    ];
    for text in texts {
        assert_eq!(parse_i32(text), text.parse::<i32>().ok(), "{:?}", text);
    }
    assert_eq!(parse_i32("2147483647"), Some(i32::MAX));
    assert_eq!(parse_i32("-2147483648"), Some(i32::MIN));
    assert_eq!(parse_i32("2147483648"), None);
}

#[test]
fn numbers_are_written_as_std_writes_them() {
    for n in [0u64, 1, 9, 10, 11, 99, 100, 12_345, u32::MAX as u64, u64::MAX] {
        assert_eq!(u64_to_string(n), n.to_string());
    }
    for n in [0i64, 1, -1, 10, -10, 999, -1_000, i64::MAX, i64::MIN, i64::MIN + 1] {
        assert_eq!(i64_to_string(n), n.to_string());
    }
}

#[test]
fn prefixes_are_found_as_std_finds_them() {
    let pairs = [
        ("", ""),
        ("a", ""),
        ("", "a"),
        ("queue", "queue"),
        ("queued", "queue"),
        ("queu", "queue"),
        ("Queue", "queue"),
        ("http://h", "http://"),
        ("\u{e9}\u{2191}x", "\u{e9}\u{2191}"),
        ("\u{e9}x", "e"),
        ("dCS Vivaldi DAC", "dCS Vivaldi"),
    ];
    for (text, prefix) in pairs {
        assert_eq!(starts_with(text, prefix), text.starts_with(prefix), "{:?}", (text, prefix));
    }
}

#[test]
fn texts_are_ordered_and_sorted_as_std_does() {
    let texts =
        ["", "a", "ab", "b", "B", "aa", "\u{e9}", "z", "zones", "zone", "\u{2191}", "~", "a"];
    for a in texts {
        for b in texts {
            assert_eq!(str_le(a, b), a <= b, "{:?}", (a, b));
        }
    }
    let unsorted: Vec<String> = texts.iter().map(|text| text.to_string()).collect();
    let mut expected = unsorted.clone();
    expected.sort();
    assert_eq!(sort_texts(&unsorted), expected);
    assert_eq!(sort_texts(&Vec::new()), Vec::<String>::new());
}
