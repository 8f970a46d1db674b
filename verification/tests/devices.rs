use roon_rd::dcs::api_url;
use roon_rd::dcs::brightness_json;
use roon_rd::dcs::display_off_json;
use roon_rd::dcs::format_text;
use roon_rd::dcs::known_inputs;
use roon_rd::dcs::playback_text;
use roon_rd::dcs::rate_text;
use roon_rd::dcs::rows_url;
use roon_rd::dcs::set_url;
use roon_rd::dcs::AudioFormatDetails;
use roon_rd::dcs::DcsError;
use roon_rd::dcs::DcsPlaybackInfo;
use roon_rd::roon::build_ws_zone_data_from_zones;
use roon_rd::roon::view_model::needs_format;
use roon_rd::roon::QueueItem;
use roon_rd::roon::State;
use roon_rd::roon::WsZoneData;
use roon_rd::roon::Zone;
use roon_rd::server::now_playing_response;
use roon_rd::server::queue_response;
use roon_rd::server::reconnect_response;
use roon_rd::server::status_response;
use roon_rd::server::zones_response;
use roon_rd::server::ZoneInfo;
use roon_rd::upnp::audio_format_from;
use roon_rd::upnp::check_device_url;
use roon_rd::upnp::extract_attribute;
use roon_rd::upnp::parse_audio_format;
use roon_rd::upnp::position_info_from;
use roon_rd::upnp::pretty_print_xml;
use roon_rd::upnp::scpd_location;
use roon_rd::upnp::scpd_url;
use roon_rd::upnp::service_name;
use roon_rd::upnp::transport_info_from;
use roon_rd::upnp::AudioFormat;
use roon_rd::upnp::PositionInfo;
use roon_rd::upnp::TransportInfo;
use roon_rd::upnp::UpnpError;

fn details(frequency: Option<i32>, bits: Option<i32>) -> AudioFormatDetails {
    AudioFormatDetails {
        sample_frequency: frequency,
        bits_per_sample: bits,
        nr_audio_channels: Some(2),
    }
}

fn playback(format: Option<AudioFormatDetails>) -> DcsPlaybackInfo {
    DcsPlaybackInfo {
        state: Some("playing".to_string()),
        title: None,
        artist: None,
        album: None,
        service_id: None,
        duration: None,
        audio_format: format,
    }
}

fn zone(id: &str, name: &str, state: State) -> Zone {
    Zone {
        zone_id: id.to_string(),
        display_name: name.to_string(),
        state,
        now_playing: None,
        outputs: Vec::new(),
    }
}

const DIDL: &str = r#"<DIDL-Lite><item><res protocolInfo="http-get:*:audio/flac:*" sampleFrequency="96000" bitsPerSample="24" nrAudioChannels="2" bitrate="576000">http://x/y.flac</res></item></DIDL-Lite>"#;

#[test]
fn format_line_needs_rate_and_positive_depth() {
    assert_eq!(format_text(&details(Some(44_100), Some(16))), Some("44 kHz 16 bit".to_string()));
    assert_eq!(format_text(&details(Some(192_000), Some(24))), Some("192 kHz 24 bit".to_string()));
    assert_eq!(format_text(&details(Some(999), Some(1))), Some("999 Hz 1 bit".to_string()));
    assert_eq!(format_text(&details(Some(1_000), Some(1))), Some("1 kHz 1 bit".to_string()));
    assert_eq!(format_text(&details(Some(-5), Some(8))), Some("-5 Hz 8 bit".to_string()));
    assert_eq!(format_text(&details(Some(44_100), Some(0))), None);
    assert_eq!(format_text(&details(Some(44_100), Some(-16))), None);
    assert_eq!(format_text(&details(Some(44_100), None)), None);
    assert_eq!(format_text(&details(None, Some(16))), None);
    assert_eq!(rate_text(i32::MAX), "2147483 kHz");
    assert_eq!(rate_text(i32::MIN), "-2147483648 Hz");
}

#[test]
fn playback_report_without_a_format_has_no_line() {
    assert_eq!(playback_text(&None), None);
    assert_eq!(playback_text(&Some(playback(None))), None);
    assert_eq!(
        playback_text(&Some(playback(Some(details(Some(88_200), Some(24)))))),
        Some("88 kHz 24 bit".to_string())
    );
}

#[test]
fn format_line_goes_to_playing_premium_zones_only() {
    let zones = vec![
        zone("a", "dCS Vivaldi", State::Playing),
        zone("b", "dCS Vivaldi", State::Paused),
        zone("c", "Kitchen", State::Playing),
        zone("d", "dCS", State::Playing),
    ];
    let report = Some(playback(Some(details(Some(44_100), Some(16)))));
    let models: Vec<WsZoneData> = build_ws_zone_data_from_zones(&zones, &report, "dCS Vivaldi");
    let formats: Vec<Option<String>> =
        models.iter().map(|model| model.dcs_format.clone()).collect();
    assert_eq!(formats, vec![Some("44 kHz 16 bit".to_string()), None, None, None]);
    assert!(needs_format(&zones, "dCS Vivaldi"));
    assert!(!needs_format(&zones[1..].to_vec(), "dCS Vivaldi"));
    assert!(needs_format(&zones, ""));
    assert!(!needs_format(&Vec::new(), ""));
}

#[test]
fn request_urls_are_percent_encoded() {
    assert_eq!(
        api_url("dcs.local", "getData", "dcsworker:/dcs/currentBitDepth", "value"),
        "http://dcs.local/api/getData?path=dcsworker%3A%2Fdcs%2FcurrentBitDepth&roles=value"
    );
    assert_eq!(
        api_url("h", "getData", "/player/data", "title,value"),
        "http://h/api/getData?path=%2Fplayer%2Fdata&roles=title%2Cvalue"
    );
    assert_eq!(
        api_url("h", "e", "a-b_c.d~e é", ""),
        "http://h/api/e?path=a-b_c.d~e%20%C3%A9&roles="
    );
    assert_eq!(
        rows_url("h", "ui:/x"),
        "http://h/api/getRows?path=ui%3A%2Fx&roles=title,icon,type,path,value&from=0&to=100"
    );
    assert_eq!(
        set_url("h", "p/q", "{\"a\":1}"),
        "http://h/api/setData?path=p%2Fq&role=value&value=%7B%22a%22%3A1%7D"
    );
}

#[test]
fn brightness_lies_between_0_and_15() {
    assert_eq!(brightness_json(0), Ok("{\"type\":\"i32_\",\"i32_\":0}".to_string()));
    assert_eq!(brightness_json(15), Ok("{\"type\":\"i32_\",\"i32_\":15}".to_string()));
    assert_eq!(brightness_json(16), Err(DcsError::BrightnessOutOfRange));
    assert_eq!(brightness_json(-1), Err(DcsError::BrightnessOutOfRange));
    assert_eq!(DcsError::BrightnessOutOfRange.message(), "Brightness must be between 0 and 15");
    assert_eq!(display_off_json(true), "{\"type\":\"bool_\",\"bool_\":true}");
    assert_eq!(display_off_json(false), "{\"type\":\"bool_\",\"bool_\":false}");
}

#[test]
fn known_inputs_are_four() {
    assert_eq!(known_inputs(), vec!["Network", "AES1", "SPDIF1", "SPDIF2"]);
}

#[test]
fn audio_format_is_read_from_metadata() {
    assert_eq!(
        parse_audio_format(DIDL),
        Some(AudioFormat {
            sample_rate: Some("96000".to_string()),
            bits_per_sample: Some("24".to_string()),
            channels: Some("2".to_string()),
            bitrate: Some("576000".to_string()),
        })
    );
    assert_eq!(parse_audio_format(""), None);
    assert_eq!(parse_audio_format("<res nrAudioChannels=\"2\" bitrate=\"1\"/>"), None);
    assert_eq!(
        parse_audio_format("<res bitsPerSample=\"\"/>"),
        Some(AudioFormat {
            sample_rate: None,
            bits_per_sample: Some(String::new()),
            channels: None,
            bitrate: None,
        })
    );
}

#[test]
fn attribute_is_the_first_of_its_name() {
    assert_eq!(extract_attribute(DIDL, "bitsPerSample"), Some("24".to_string()));
    assert_eq!(extract_attribute("a=\"1\" a=\"2\"", "a"), Some("1".to_string()));
    assert_eq!(extract_attribute(DIDL, "missing"), None);
    assert_eq!(extract_attribute(DIDL, "("), None);
    assert_ne!(extract_attribute(DIDL, "bitrate"), Some(DIDL.to_string()));
}

#[test]
fn audio_format_needs_rate_or_depth() {
    assert_eq!(audio_format_from(None, None, Some("2".to_string()), Some("1".to_string())), None);
    assert_eq!(
        audio_format_from(Some("44100".to_string()), None, None, None),
        Some(AudioFormat {
            sample_rate: Some("44100".to_string()),
            bits_per_sample: None,
            channels: None,
            bitrate: None,
        })
    );
}

#[test]
fn service_name_stands_before_the_last_colon() {
    assert_eq!(service_name("AVTransport:2"), "AVTransport");
    assert_eq!(service_name("urn:schemas-upnp-org:service:AVTransport:2"), "AVTransport");
    assert_eq!(service_name("AVTransport"), "AVTransport");
    assert_eq!(service_name(":"), "");
    assert_eq!(service_name("a:"), "a");
    assert_eq!(service_name(":b"), "");
    assert_eq!(service_name(""), "");
}

#[test]
fn device_address_must_be_http() {
    assert_eq!(check_device_url("http://h/d.xml"), Ok(()));
    assert_eq!(check_device_url("https://h"), Ok(()));
    let error = check_device_url("h/d.xml").expect_err("refused");
    assert_eq!(error, UpnpError::InvalidDeviceUrl("h/d.xml".to_string()));
    assert_eq!(
        error.message(),
        "Invalid device URL: 'h/d.xml'. Must start with http:// or https://"
    );
}

#[test]
fn service_description_is_found_and_resolved() {
    let xml = "<service><serviceType>urn:schemas-upnp-org:service:AVTransport:2</serviceType><controlURL>/c</controlURL><SCPDURL>/AVTransport/desc.xml</SCPDURL></service>\n<service><serviceType>urn:x:service:Other:1</serviceType><SCPDURL>http://elsewhere/o.xml</SCPDURL></service>";
    assert_eq!(
        scpd_url("http://10.0.0.9:9000/dev/description.xml", xml, "AVTransport:2"),
        Ok("http://10.0.0.9:9000/AVTransport/desc.xml".to_string())
    );
    assert_eq!(
        scpd_url("http://10.0.0.9:9000/dev/description.xml", xml, "Other:1"),
        Ok("http://elsewhere/o.xml".to_string())
    );
    let error = scpd_url("http://10.0.0.9/d.xml", xml, "Rendering.Control:1").expect_err("absent");
    assert_eq!(error, UpnpError::ServiceNotFound("Rendering.Control".to_string()));
    assert_eq!(error.message(), "Service Rendering.Control not found in device description");
    assert_eq!(
        scpd_url("10.0.0.9/d.xml", xml, "AVTransport:2"),
        Err(UpnpError::InvalidDeviceUrl("10.0.0.9/d.xml".to_string()))
    );
}

#[test]
fn service_description_path_is_joined_to_the_device_address() {
    assert_eq!(
        scpd_location("http://h:1/a/b.xml", "S", Some("c.xml".to_string())),
        Ok("http://h:1/a/c.xml".to_string())
    );
    assert_eq!(
        scpd_location("http://h:1/a/b.xml", "S", Some("https://o/c.xml".to_string())),
        Ok("https://o/c.xml".to_string())
    );
    assert_eq!(
        scpd_location("http://h:1/a/b.xml", "S", None),
        Err(UpnpError::ServiceNotFound("S".to_string()))
    );
    assert_eq!(
        scpd_location("not a url", "S", Some("c.xml".to_string())),
        Err(UpnpError::InvalidUrl)
    );
    assert_eq!(UpnpError::InvalidUrl.message(), "Invalid service description URL");
    assert_eq!(UpnpError::MalformedXml.message(), "Error parsing XML");
}

#[test]
fn missing_answer_fields_get_their_defaults() {
    assert_eq!(
        position_info_from(None, None, None, None, None),
        PositionInfo {
            track: "0".to_string(),
            track_duration: "00:00:00".to_string(),
            track_metadata: String::new(),
            track_uri: String::new(),
            rel_time: "00:00:00".to_string(),
        }
    );
    assert_eq!(
        position_info_from(
            Some("3".to_string()),
            Some("0:04:05".to_string()),
            Some("<x/>".to_string()),
            Some("http://t".to_string()),
            Some("0:00:09".to_string()),
        ),
        PositionInfo {
            track: "3".to_string(),
            track_duration: "0:04:05".to_string(),
            track_metadata: "<x/>".to_string(),
            track_uri: "http://t".to_string(),
            rel_time: "0:00:09".to_string(),
        }
    );
    assert_eq!(
        transport_info_from(None, None, None),
        TransportInfo {
            current_transport_state: "UNKNOWN".to_string(),
            current_transport_status: "OK".to_string(),
            current_speed: "1".to_string(),
        }
    );
    assert_eq!(
        transport_info_from(Some("PLAYING".to_string()), None, Some("2".to_string())),
        TransportInfo {
            current_transport_state: "PLAYING".to_string(),
            current_transport_status: "OK".to_string(),
            current_speed: "2".to_string(),
        }
    );
}

#[test]
fn status_answer_says_whether_the_core_is_connected() {
    let up = status_response(true, Some("Nucleus".to_string()));
    assert!(up.connected);
    assert_eq!(up.core_name, Some("Nucleus".to_string()));
    assert_eq!(up.message, "Connected to Roon Core");
    let down = status_response(false, None);
    assert!(!down.connected);
    assert_eq!(
        down.message,
        "Not connected. Please authorize the extension in Roon Settings > Extensions"
    );
}

#[test]
fn reconnect_answer_carries_the_reason_of_a_failure() {
    let ok = reconnect_response(None);
    assert!(ok.success);
    assert_eq!(ok.message, "Reconnection initiated. Please check status.");
    let failed = reconnect_response(Some("no core".to_string()));
    assert!(!failed.success);
    assert_eq!(failed.message, "Reconnection failed: no core");
}

#[test]
fn zones_answer_lists_zones_with_their_devices() {
    let mut kitchen = zone("z1", "Kitchen", State::Loading);
    kitchen.outputs = vec![
        roon_rd::roon::Output {
            output_id: "o1".to_string(),
            display_name: "Amp".to_string(),
            is_muted: None,
            source_controls: None,
        },
        roon_rd::roon::Output {
            output_id: "o2".to_string(),
            display_name: "Sub".to_string(),
            is_muted: None,
            source_controls: None,
        },
    ];
    let response = zones_response(&vec![kitchen, zone("z2", "Study", State::Stopped)]);
    assert_eq!(response.count, 2);
    assert_eq!(
        response.zones,
        vec![
            ZoneInfo {
                zone_id: "z1".to_string(),
                display_name: "Kitchen".to_string(),
                state: "Loading".to_string(),
                devices: vec!["Amp".to_string(), "Sub".to_string()],
            },
            ZoneInfo {
                zone_id: "z2".to_string(),
                display_name: "Study".to_string(),
                state: "Stopped".to_string(),
                devices: Vec::new(),
            },
        ]
    );
    assert_eq!(now_playing_response(Vec::new()).count, 0);
}

#[test]
fn queue_answer_shows_artist_and_album_when_there_are_any() {
    let item = QueueItem {
        queue_item_id: 9,
        length: 240,
        image_key: Some("k".to_string()),
        one_line: "One".to_string(),
        two_line_1: "Two".to_string(),
        two_line_2: "Two b".to_string(),
        three_line_1: "Title".to_string(),
        three_line_2: String::new(),
        three_line_3: "Album".to_string(),
    };
    let items = queue_response(&Some(vec![item]));
    assert_eq!(items.len(), 1);
    assert_eq!(items[0].queue_item_id, 9);
    assert_eq!(items[0].title, "Title");
    assert_eq!(items[0].artist, None);
    assert_eq!(items[0].album, Some("Album".to_string()));
    assert_eq!(items[0].length, 240);
    assert_eq!(items[0].image_key, Some("k".to_string()));
    assert_eq!(items[0].one_line, "One");
    assert_eq!(items[0].two_line_1, "Two");
    assert_eq!(items[0].two_line_2, "Two b");
    assert!(queue_response(&None).is_empty());
}

#[test]
fn service_name_is_searched_for_literally() {
    let xml = "<serviceType>urn:x:service:AVxTransport:1</serviceType><SCPDURL>/wrong.xml</SCPDURL>";
    assert_eq!(
        scpd_url("http://h/d.xml", xml, "AV.Transport:1"),
        Err(UpnpError::ServiceNotFound("AV.Transport".to_string()))
    );
    let xml = "<serviceType>urn:x:service:AV.Transport:1</serviceType><SCPDURL>/right.xml</SCPDURL>";
    assert_eq!(
        scpd_url("http://h/d.xml", xml, "AV.Transport:1"),
        Ok("http://h/right.xml".to_string())
    );
}

#[test]
fn device_xml_is_written_anew_with_indentation() {
    assert_eq!(
        pretty_print_xml("<a>  <b>text</b><c/>  </a>"),
        Ok("<a>\n  <b>text</b>\n  <c/>\n</a>".to_string())
    );
    assert_eq!(pretty_print_xml(""), Ok(String::new()));
    assert_eq!(pretty_print_xml("<a></b>"), Err(UpnpError::MalformedXml));
}
