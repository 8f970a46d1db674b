use roon_rd::dcs::current_input_path;
use roon_rd::dcs::cut_to_32;
use roon_rd::dcs::input_info_from;
use roon_rd::dcs::input_title;
use roon_rd::dcs::menu_from;
use roon_rd::dcs::menu_line;
use roon_rd::dcs::play_mode_from;
use roon_rd::dcs::playback_info_from;
use roon_rd::dcs::set_succeeded;
use roon_rd::dcs::AudioFormatDetails;
use roon_rd::dcs::DcsError;
use roon_rd::dcs::DcsMenu;
use roon_rd::dcs::DcsMenuItem;
use roon_rd::dcs::DcsPlaybackInfo;
use roon_rd::dcs::MenuValue;
use roon_rd::json::Json;
use roon_rd::json::Member;

fn text(value: &str) -> Json {
    Json::Text(value.to_string())
}

fn object(members: Vec<(&str, Json)>) -> Json {
    Json::Object(
        members.into_iter().map(|(key, value)| Member { key: key.to_string(), value }).collect(),
    )
}

fn playback_document() -> Json {
    Json::Array(vec![
        text(""),
        object(vec![
            ("state", text("playing")),
            (
                "trackRoles",
                object(vec![
                    ("title", text("So What")),
                    (
                        "mediaData",
                        object(vec![
                            (
                                "metaData",
                                object(vec![
                                    ("artist", text("Miles Davis")),
                                    ("album", text("Kind of Blue")),
                                    ("serviceID", text("roon")),
                                ]),
                            ),
                            (
                                "resources",
                                Json::Array(vec![
                                    object(vec![
                                        ("sampleFrequency", Json::Int(96_000)),
                                        ("bitsPerSample", Json::Int(24)),
                                        ("nrAudioChannels", text("two")),
                                    ]),
                                    object(vec![("sampleFrequency", Json::Int(1))]),
                                ]),
                            ),
                        ]),
                    ),
                ]),
            ),
            ("status", object(vec![("duration", Json::Int(545_000))])),
        ]),
    ])
}

#[test]
fn json_is_read_by_member_and_position() {
    let document = object(vec![
        ("a", Json::Int(1)),
        ("b", Json::Array(vec![Json::Bool(true), Json::Null])),
        ("a", Json::Int(2)),
    ]);
    assert_eq!(document.get("a"), Some(&Json::Int(1)));
    assert_eq!(document.get("c"), None);
    assert_eq!(document.at(0), None);
    let list = document.get("b").expect("member");
    assert_eq!(list.at(0), Some(&Json::Bool(true)));
    assert_eq!(list.at(1), Some(&Json::Null));
    assert_eq!(list.at(2), None);
    assert_eq!(list.get("a"), None);
    assert_eq!(list.at(0).and_then(Json::as_flag), Some(true));
    assert_eq!(Json::Int(-7).as_int(), Some(-7));
    assert_eq!(Json::Fraction.as_int(), None);
    assert_eq!(text("x").as_text(), Some("x".to_string()));
    assert_eq!(Json::Int(1).as_text(), None);
    assert!(Json::Null.is_null());
    assert!(!Json::Bool(false).is_null());
}

#[test]
fn playback_report_is_read_from_the_second_element() {
    assert_eq!(
        playback_info_from(&playback_document()),
        Ok(DcsPlaybackInfo {
            state: Some("playing".to_string()),
            title: Some("So What".to_string()),
            artist: Some("Miles Davis".to_string()),
            album: Some("Kind of Blue".to_string()),
            service_id: Some("roon".to_string()),
            duration: Some(545_000),
            audio_format: Some(AudioFormatDetails {
                sample_frequency: Some(96_000),
                bits_per_sample: Some(24),
                nr_audio_channels: None,
            }),
        })
    );
}

#[test]
fn playback_report_of_an_idle_player_is_empty() {
    let idle = Json::Array(vec![text(""), object(vec![])]);
    assert_eq!(
        playback_info_from(&idle),
        Ok(DcsPlaybackInfo {
            state: None,
            title: None,
            artist: None,
            album: None,
            service_id: None,
            duration: None,
            audio_format: None,
        })
    );
}

#[test]
fn playback_answer_of_another_shape_is_refused() {
    let error = playback_info_from(&Json::Array(vec![text("")])).expect_err("refused");
    assert_eq!(error, DcsError::InvalidResponse);
    assert_eq!(error.message(), "Invalid response format from dCS API");
    assert_eq!(playback_info_from(&object(vec![])), Err(DcsError::InvalidResponse));
    assert_eq!(playback_info_from(&Json::Null), Err(DcsError::InvalidResponse));
}

#[test]
fn numbers_are_cut_to_32_bits() {
    assert_eq!(cut_to_32(0), 0);
    assert_eq!(cut_to_32(44_100), 44_100);
    assert_eq!(cut_to_32(-1), -1);
    assert_eq!(cut_to_32(i32::MAX as i64), i32::MAX);
    assert_eq!(cut_to_32(i32::MAX as i64 + 1), i32::MIN);
    assert_eq!(cut_to_32(i32::MIN as i64 - 1), i32::MAX);
    assert_eq!(cut_to_32(1 << 32), 0);
    assert_eq!(cut_to_32(i64::MAX), -1);
    assert_eq!(cut_to_32(i64::MIN), 0);
    for number in [5_000_000_000i64, -5_000_000_000, 1 << 40, -(1 << 40) + 17] {
        assert_eq!(cut_to_32(number), number as i32);
    }
}

#[test]
fn inputs_and_play_mode_are_read_from_their_answers() {
    let current = Json::Array(vec![text("t"), object(vec![("string_", text("ui:/in/aes1"))])]);
    assert_eq!(current_input_path(&current), Some("ui:/in/aes1".to_string()));
    assert_eq!(current_input_path(&Json::Array(vec![text("t")])), None);
    assert_eq!(input_title(&Json::Array(vec![text("AES1")])), Some("AES1".to_string()));
    assert_eq!(input_title(&Json::Array(vec![Json::Int(1)])), None);
    let info = input_info_from(Some("AES1".to_string()));
    assert_eq!(info.current_input, Some("AES1".to_string()));
    assert_eq!(info.available_inputs, vec!["Network", "AES1", "SPDIF1", "SPDIF2"]);
    let mode = Json::Array(vec![object(vec![("playerPlayMode", text("Network"))])]);
    assert_eq!(play_mode_from(&mode).mode, Some("Network".to_string()));
    assert_eq!(play_mode_from(&Json::Array(vec![])).mode, None);
}

#[test]
fn write_answer_is_true_on_success() {
    assert!(set_succeeded("true"));
    assert!(set_succeeded(" true\n"));
    assert!(!set_succeeded("false"));
    assert!(!set_succeeded("True"));
    assert!(!set_succeeded(""));
}

#[test]
fn menu_is_read_from_roles_and_rows() {
    let answer = object(vec![
        ("roles", object(vec![("title", text("Audio"))])),
        (
            "rows",
            Json::Array(vec![
                Json::Array(vec![
                    text("Filter"),
                    Json::Null,
                    text("value"),
                    text("ui:/f"),
                    object(vec![("type", text("i32_")), ("i32_", Json::Int(3))]),
                ]),
                Json::Array(vec![text("Short"), Json::Null, text("x")]),
                text("no row"),
                Json::Array(vec![Json::Int(1), Json::Null, Json::Null, Json::Null, Json::Null]),
                Json::Array(vec![text("Four"), Json::Null, text("container"), text("ui:/4")]),
                Json::Array(vec![
                    text("Mode"),
                    Json::Null,
                    text("enum"),
                    text("ui:/m"),
                    object(vec![("string_", text("Auto")), ("bool_", Json::Bool(true))]),
                ]),
                Json::Array(vec![
                    text("Mute"),
                    Json::Null,
                    text("value"),
                    text("ui:/mute"),
                    object(vec![("bool_", Json::Bool(false))]),
                ]),
                Json::Array(vec![
                    text("Odd"),
                    Json::Null,
                    text("value"),
                    text("ui:/odd"),
                    object(vec![("double_", Json::Fraction)]),
                ]),
            ]),
        ),
    ]);
    let item = |title: &str, item_type: &str, path: &str, value: Option<MenuValue>| DcsMenuItem {
        title: title.to_string(),
        item_type: item_type.to_string(),
        path: path.to_string(),
        value,
    };
    let menu = menu_from(&answer, "ui:/audio").expect("menu");
    assert_eq!(
        menu,
        DcsMenu {
            title: "Audio".to_string(),
            path: "ui:/audio".to_string(),
            items: vec![
                item("Filter", "value", "ui:/f", Some(MenuValue::Int(3))),
                item("", "unknown", "", None),
                item("Four", "container", "ui:/4", None),
                item("Mode", "enum", "ui:/m", Some(MenuValue::Text("Auto".to_string()))),
                item("Mute", "value", "ui:/mute", Some(MenuValue::Flag(false))),
                item("Odd", "value", "ui:/odd", Some(MenuValue::Other)),
            ],
        }
    );
    let lines: Vec<String> =
        menu.items.iter().enumerate().map(|(at, item)| menu_line(at + 1, item)).collect();
    assert_eq!(
        lines,
        vec![
            "    1. Filter: 3",
            "    2.  (unknown)",
            "    3. Four \u{2192}",
            "    4. Mode (enum): Auto",
            "    5. Mute: false",
            "    6. Odd",
        ]
    );
}

#[test]
fn menu_answer_with_an_error_is_the_devices_refusal() {
    let refused = object(vec![
        ("error", object(vec![("message", text("no such path"))])),
        ("roles", object(vec![])),
        ("rows", Json::Array(vec![])),
    ]);
    let error = menu_from(&refused, "p").expect_err("refused");
    assert_eq!(error, DcsError::Api("no such path".to_string()));
    assert_eq!(error.message(), "API error: no such path");
    let silent = object(vec![("error", Json::Null)]);
    assert_eq!(menu_from(&silent, "p"), Err(DcsError::Api("Unknown error".to_string())));
}

#[test]
fn menu_answer_needs_roles_and_rows() {
    let no_roles = object(vec![("rows", Json::Array(vec![]))]);
    let error = menu_from(&no_roles, "p").expect_err("refused");
    assert_eq!(error, DcsError::MissingRoles);
    assert_eq!(error.message(), "Missing roles in response");
    let no_rows = object(vec![("roles", object(vec![("path", text("q"))])), ("rows", text("x"))]);
    let error = menu_from(&no_rows, "p").expect_err("refused");
    assert_eq!(error, DcsError::MissingRows);
    assert_eq!(error.message(), "Missing rows in response");
    let bare = object(vec![("roles", object(vec![("path", text("q"))])), ("rows", Json::Array(vec![]))]);
    assert_eq!(
        menu_from(&bare, "p"),
        Ok(DcsMenu { title: "Unknown".to_string(), path: "q".to_string(), items: Vec::new() })
    );
}
