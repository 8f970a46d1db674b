//! Values reported by a dCS network player, and the text derived from them.

use vstd::prelude::*;
use vstd::string::*;
use vstd::utf8::*;

use crate::json::at_in;
use crate::json::element;
use crate::json::element_in;
use crate::json::get_in;
use crate::json::int_at;
use crate::json::int_in;
use crate::json::member;
use crate::json::member_in;
use crate::json::pointee;
use crate::json::text_at;
use crate::json::text_in;
use crate::json::Json;
use crate::text::decimal;
use crate::text::str_eq;
use crate::text::trim;
use crate::text::trimmed;
use crate::text::digit_char;
use crate::text::i64_to_string;
use crate::text::signed_decimal;
use crate::text::u64_to_string;

verus! {

/// Audio format as the device's worker reports it.
#[derive(Debug, Clone, PartialEq, Eq)]
pub struct DcsAudioFormat {
    pub bit_depth: Option<i32>,
    pub sample_rate: Option<i32>,
    pub input_mode: Option<String>,
}

/// Audio format of the stream being played.
#[derive(Debug, Clone, Copy, PartialEq, Eq)]
pub struct AudioFormatDetails {
    pub sample_frequency: Option<i32>,
    pub bits_per_sample: Option<i32>,
    pub nr_audio_channels: Option<i32>,
}

/// What the device is playing.
#[derive(Debug, Clone, PartialEq, Eq)]
pub struct DcsPlaybackInfo {
    pub state: Option<String>,
    pub title: Option<String>,
    pub artist: Option<String>,
    pub album: Option<String>,
    pub service_id: Option<String>,
    pub duration: Option<i32>,
    pub audio_format: Option<AudioFormatDetails>,
}

/// Device settings.
#[derive(Debug, Clone, PartialEq, Eq)]
pub struct DcsDeviceSettings {
    pub display_brightness: Option<i32>,
    pub display_off: Option<bool>,
    pub sync_mode: Option<String>,
}

/// Upsampler settings.
#[derive(Debug, Clone, Copy, PartialEq, Eq)]
pub struct DcsUpsamplerSettings {
    pub output_sample_rate: Option<i32>,
    pub filter: Option<i32>,
}

/// The selected digital input and the inputs that can be selected.
#[derive(Debug, Clone, PartialEq, Eq)]
pub struct DcsInputInfo {
    pub current_input: Option<String>,
    pub available_inputs: Vec<String>,
}

/// Play mode.
#[derive(Debug, Clone, PartialEq, Eq)]
pub struct DcsPlayMode {
    pub mode: Option<String>,
}

/// The sample rate as shown to a viewer: whole kilohertz from 1000 Hz up,
/// hertz below.
pub open spec fn rate_label(frequency: i32) -> Seq<char> {
    if frequency >= 1000 {
        decimal((frequency / 1000) as nat) + " kHz"@
    } else {
        signed_decimal(frequency as int) + " Hz"@
    }
}

/// The format line shown beside a playing zone: sample rate, then bit
/// depth. There is none unless the bit depth is known and positive and the
/// sample rate is known.
pub open spec fn format_label(details: AudioFormatDetails) -> Option<Seq<char>> {
    match (details.bits_per_sample, details.sample_frequency) {
        (Some(bits), Some(frequency)) => if bits > 0 {
            Some(rate_label(frequency) + " "@ + decimal(bits as nat) + " bit"@)
        } else {
            None
        },
        _ => None,
    }
}

/// The format line of a playback report, if it carries a usable format.
pub open spec fn playback_label(playback: Option<DcsPlaybackInfo>) -> Option<Seq<char>> {
    match playback {
        Some(info) => match info.audio_format {
            Some(details) => format_label(details),
            None => None,
        },
        None => None,
    }
}

/// The sample rate as shown to a viewer.
pub fn rate_text(frequency: i32) -> (label: String)
    ensures
        label@ == rate_label(frequency),
{
    if frequency >= 1000 {
        let khz: i32 = frequency / 1000;
        u64_to_string(khz as u64).concat(" kHz")
    } else {
        i64_to_string(frequency as i64).concat(" Hz")
    }
}

/// The format line shown beside a playing zone.
pub fn format_text(details: &AudioFormatDetails) -> (label: Option<String>)
    ensures
        label.deep_view() == format_label(*details),
{
    match (details.bits_per_sample, details.sample_frequency) {
        (Some(bits), Some(frequency)) => {
            if bits > 0 {
                let rate = rate_text(frequency);
                let depth = u64_to_string(bits as u64);
                let label = rate.concat(" ").concat(depth.as_str()).concat(" bit");
                Some(label)
            } else {
                None
            }
        },
        _ => None,
    }
}

/// The format line of a playback report, if it carries a usable format.
pub fn playback_text(playback: &Option<DcsPlaybackInfo>) -> (label: Option<String>)
    ensures
        label.deep_view() == playback_label(*playback),
{
    match playback {
        Some(info) => match &info.audio_format {
            Some(details) => format_text(details),
            None => None,
        },
        None => None,
    }
}

/// The host that is asked when a command names none.
pub const DEFAULT_DCS_HOST: &'static str = "dcs-vivaldi.local";

/// Is the byte one that a URL may hold as it is: a letter, a digit, or
/// one of `-`, `.`, `_`, `~`?
pub open spec fn is_unreserved(byte: u8) -> bool {
    (0x30 <= byte <= 0x39) || (0x41 <= byte <= 0x5a) || (0x61 <= byte <= 0x7a) || byte == 0x2d
        || byte == 0x2e || byte == 0x5f || byte == 0x7e
}

/// The character that writes the hexadecimal digit `d` in upper case.
pub open spec fn hex_digit(d: int) -> char {
    if d < 10 {
        digit_char(d)
    } else if d == 10 {
        'A'
    } else if d == 11 {
        'B'
    } else if d == 12 {
        'C'
    } else if d == 13 {
        'D'
    } else if d == 14 {
        'E'
    } else {
        'F'
    }
}

/// One byte as a URL holds it: itself when unreserved, else a percent
/// sign and its two hexadecimal digits.
pub open spec fn percent_encoded_byte(byte: u8) -> Seq<char> {
    if is_unreserved(byte) {
        seq![byte as char]
    } else {
        seq!['%', hex_digit(byte as int / 16), hex_digit(byte as int % 16)]
    }
}

/// Bytes as a URL holds them.
pub open spec fn percent_encoded(bytes: Seq<u8>) -> Seq<char>
    decreases bytes.len(),
{
    if bytes.len() == 0 {
        Seq::empty()
    } else {
        percent_encoded(bytes.drop_last()) + percent_encoded_byte(bytes.last())
    }
}

/// Percent-encodes a text for use in a URL.
///
/// Trusted: states what `urlencoding::encode` does, as its documentation
/// and source show it: every byte of the UTF-8 text but letters, digits
/// and `-`, `.`, `_`, `~` becomes a percent sign and two upper-case
/// hexadecimal digits.
#[verifier::external_body]
pub(crate) fn url_encode(text: &str) -> (encoded: String)
    ensures
        encoded@ == percent_encoded(encode_utf8(text@)),
{
    urlencoding::encode(text).into_owned()
}

/// The address of a read request to the device.
pub open spec fn api_url_spec(
    host: Seq<char>,
    endpoint: Seq<char>,
    path: Seq<char>,
    roles: Seq<char>,
) -> Seq<char> {
    "http://"@ + host + "/api/"@ + endpoint + "?path="@ + percent_encoded(encode_utf8(path))
        + "&roles="@ + percent_encoded(encode_utf8(roles))
}

/// The address of a read request to the device.
pub fn api_url(host: &str, endpoint: &str, path: &str, roles: &str) -> (url: String)
    ensures
        url@ == api_url_spec(host@, endpoint@, path@, roles@),
{
    String::from_str("http://").concat(host).concat("/api/").concat(endpoint).concat(
        "?path=",
    ).concat(url_encode(path).as_str()).concat("&roles=").concat(url_encode(roles).as_str())
}

/// The address of a request for the rows of a menu.
pub open spec fn rows_url_spec(host: Seq<char>, path: Seq<char>) -> Seq<char> {
    "http://"@ + host + "/api/getRows?path="@ + percent_encoded(encode_utf8(path))
        + "&roles=title,icon,type,path,value&from=0&to=100"@
}

/// The address of a request for the rows of a menu.
pub fn rows_url(host: &str, path: &str) -> (url: String)
    ensures
        url@ == rows_url_spec(host@, path@),
{
    String::from_str("http://").concat(host).concat("/api/getRows?path=").concat(
        url_encode(path).as_str(),
    ).concat("&roles=title,icon,type,path,value&from=0&to=100")
}

/// The address of a write request to the device.
pub open spec fn set_url_spec(host: Seq<char>, path: Seq<char>, value: Seq<char>) -> Seq<char> {
    "http://"@ + host + "/api/setData?path="@ + percent_encoded(encode_utf8(path))
        + "&role=value&value="@ + percent_encoded(encode_utf8(value))
}

/// The address of a write request to the device.
pub fn set_url(host: &str, path: &str, value: &str) -> (url: String)
    ensures
        url@ == set_url_spec(host@, path@, value@),
{
    String::from_str("http://").concat(host).concat("/api/setData?path=").concat(
        url_encode(path).as_str(),
    ).concat("&role=value&value=").concat(url_encode(value).as_str())
}

/// Why a request to the device was not made, or why its answer could not
/// be used.
#[derive(Debug, Clone, PartialEq, Eq)]
pub enum DcsError {
    /// The brightness lies outside 0 to 15.
    BrightnessOutOfRange,
    /// The answer has not the shape of a playback report.
    InvalidResponse,
    /// The device answered with an error; this is its message.
    Api(String),
    /// The answer to a menu request names no roles.
    MissingRoles,
    /// The answer to a menu request holds no rows.
    MissingRows,
}

pub enum DcsErrorView {
    BrightnessOutOfRange,
    InvalidResponse,
    Api(Seq<char>),
    MissingRoles,
    MissingRows,
}

impl View for DcsError {
    type V = DcsErrorView;

    open spec fn view(&self) -> DcsErrorView {
        match self {
            DcsError::BrightnessOutOfRange => DcsErrorView::BrightnessOutOfRange,
            DcsError::InvalidResponse => DcsErrorView::InvalidResponse,
            DcsError::Api(message) => DcsErrorView::Api(message@),
            DcsError::MissingRoles => DcsErrorView::MissingRoles,
            DcsError::MissingRows => DcsErrorView::MissingRows,
        }
    }
}

/// The text of an error, as callers are shown it.
pub open spec fn dcs_error_text(error: DcsErrorView) -> Seq<char> {
    match error {
        DcsErrorView::BrightnessOutOfRange => "Brightness must be between 0 and 15"@,
        DcsErrorView::InvalidResponse => "Invalid response format from dCS API"@,
        DcsErrorView::Api(message) => "API error: "@ + message,
        DcsErrorView::MissingRoles => "Missing roles in response"@,
        DcsErrorView::MissingRows => "Missing rows in response"@,
    }
}

impl DcsError {
    /// The text of the error, as callers are shown it.
    pub fn message(&self) -> (text: String)
        ensures
            text@ == dcs_error_text(self@),
    {
        match self {
            DcsError::BrightnessOutOfRange => String::from_str(
                "Brightness must be between 0 and 15",
            ),
            DcsError::InvalidResponse => String::from_str("Invalid response format from dCS API"),
            DcsError::Api(message) => String::from_str("API error: ").concat(message.as_str()),
            DcsError::MissingRoles => String::from_str("Missing roles in response"),
            DcsError::MissingRows => String::from_str("Missing rows in response"),
        }
    }
}

/// The JSON value that sets the display brightness.
pub open spec fn brightness_value(brightness: i32) -> Seq<char> {
    "{\"type\":\"i32_\",\"i32_\":"@ + decimal(brightness as nat) + "}"@
}

/// The JSON value that sets the display brightness, for a brightness from
/// 0 to 15.
pub fn brightness_json(brightness: i32) -> (value: Result<String, DcsError>)
    ensures
        0 <= brightness <= 15 ==> value is Ok && value->Ok_0@ == brightness_value(brightness),
        !(0 <= brightness <= 15) ==> value is Err && value->Err_0@
            == DcsErrorView::BrightnessOutOfRange,
{
    if brightness < 0 || brightness > 15 {
        return Err(DcsError::BrightnessOutOfRange);
    }
    Ok(
        String::from_str("{\"type\":\"i32_\",\"i32_\":").concat(
            u64_to_string(brightness as u64).as_str(),
        ).concat("}"),
    )
}

/// The JSON value that turns the display off or on.
pub open spec fn display_off_value(off: bool) -> Seq<char> {
    if off {
        "{\"type\":\"bool_\",\"bool_\":true}"@
    } else {
        "{\"type\":\"bool_\",\"bool_\":false}"@
    }
}

/// The JSON value that turns the display off or on.
pub fn display_off_json(off: bool) -> (value: String)
    ensures
        value@ == display_off_value(off),
{
    if off {
        String::from_str("{\"type\":\"bool_\",\"bool_\":true}")
    } else {
        String::from_str("{\"type\":\"bool_\",\"bool_\":false}")
    }
}

/// The inputs that a device is known to have.
pub fn known_inputs() -> (inputs: Vec<String>)
    ensures
        inputs.deep_view() == seq!["Network"@, "AES1"@, "SPDIF1"@, "SPDIF2"@],
{
    let mut inputs: Vec<String> = Vec::new();
    inputs.push(String::from_str("Network"));
    inputs.push(String::from_str("AES1"));
    inputs.push(String::from_str("SPDIF1"));
    inputs.push(String::from_str("SPDIF2"));
    assert(inputs.deep_view() =~= seq!["Network"@, "AES1"@, "SPDIF1"@, "SPDIF2"@]);
    inputs
}

pub struct DcsPlaybackInfoView {
    pub state: Option<Seq<char>>,
    pub title: Option<Seq<char>>,
    pub artist: Option<Seq<char>>,
    pub album: Option<Seq<char>>,
    pub service_id: Option<Seq<char>>,
    pub duration: Option<i32>,
    pub audio_format: Option<AudioFormatDetails>,
}

impl View for DcsPlaybackInfo {
    type V = DcsPlaybackInfoView;

    open spec fn view(&self) -> DcsPlaybackInfoView {
        DcsPlaybackInfoView {
            state: self.state.deep_view(),
            title: self.title.deep_view(),
            artist: self.artist.deep_view(),
            album: self.album.deep_view(),
            service_id: self.service_id.deep_view(),
            duration: self.duration,
            audio_format: self.audio_format,
        }
    }
}

impl DeepView for DcsPlaybackInfo {
    type V = DcsPlaybackInfoView;

    open spec fn deep_view(&self) -> DcsPlaybackInfoView {
        self@
    }
}

/// A 64-bit number cut to its low 32 bits, read as a signed number.
pub open spec fn low_32(number: i64) -> i32 {
    (((number + 0x8000_0000 + 0x1_0000_0000_0000_0000) % 0x1_0000_0000) - 0x8000_0000) as i32
}

/// A 64-bit number cut to its low 32 bits.
pub fn cut_to_32(number: i64) -> (cut: i32)
    ensures
        cut == low_32(number),
{
    let shifted: i128 = number as i128 + 0x8000_0000 + 0x1_0000_0000_0000_0000;
    let low: i128 = shifted % 0x1_0000_0000;
    (low - 0x8000_0000) as i32
}

/// A whole number in a document, cut to 32 bits.
pub open spec fn number_in(json: Option<Json>) -> Option<i32> {
    match int_in(json) {
        Some(number) => Some(low_32(number)),
        None => None,
    }
}

fn number_at(json: Option<&Json>) -> (number: Option<i32>)
    ensures
        number == number_in(pointee(json)),
{
    match int_at(json) {
        Some(number) => Some(cut_to_32(number)),
        None => None,
    }
}

/// The audio format that the first resource of a track names.
pub open spec fn first_resource_format(resources: Option<Json>) -> Option<AudioFormatDetails> {
    match element_in(resources, 0) {
        Some(resource) => Some(
            AudioFormatDetails {
                sample_frequency: number_in(member(resource, "sampleFrequency"@)),
                bits_per_sample: number_in(member(resource, "bitsPerSample"@)),
                nr_audio_channels: number_in(member(resource, "nrAudioChannels"@)),
            },
        ),
        None => None,
    }
}

/// The playback report in the answer to a request for the player's data:
/// the answer is an array whose second element holds the data; the state
/// stands in it, the title under `trackRoles`, artist, album and service
/// under `trackRoles.mediaData.metaData`, the duration under `status`,
/// and the audio format in the first of `trackRoles.mediaData.resources`.
pub open spec fn playback_info_of(json: Json) -> Option<DcsPlaybackInfoView> {
    match element(json, 1) {
        None => None,
        Some(data) => {
            let track_roles = member(data, "trackRoles"@);
            let media_data = member_in(track_roles, "mediaData"@);
            let meta_data = member_in(media_data, "metaData"@);
            Some(
                DcsPlaybackInfoView {
                    state: text_in(member(data, "state"@)),
                    title: text_in(member_in(track_roles, "title"@)),
                    artist: text_in(member_in(meta_data, "artist"@)),
                    album: text_in(member_in(meta_data, "album"@)),
                    service_id: text_in(member_in(meta_data, "serviceID"@)),
                    duration: number_in(member_in(member(data, "status"@), "duration"@)),
                    audio_format: first_resource_format(member_in(media_data, "resources"@)),
                },
            )
        },
    }
}

/// Reads the playback report out of the answer to a request for the
/// player's data.
pub fn playback_info_from(json: &Json) -> (info: Result<DcsPlaybackInfo, DcsError>)
    ensures
        match playback_info_of(*json) {
            Some(report) => info is Ok && info->Ok_0@ == report,
            None => info is Err && info->Err_0@ == DcsErrorView::InvalidResponse,
        },
{
    let data = match json.at(1) {
        Some(data) => data,
        None => {
            return Err(DcsError::InvalidResponse);
        },
    };
    let track_roles = data.get("trackRoles");
    let media_data = get_in(track_roles, "mediaData");
    let meta_data = get_in(media_data, "metaData");
    let audio_format = match at_in(get_in(media_data, "resources"), 0) {
        Some(resource) => Some(
            AudioFormatDetails {
                sample_frequency: number_at(resource.get("sampleFrequency")),
                bits_per_sample: number_at(resource.get("bitsPerSample")),
                nr_audio_channels: number_at(resource.get("nrAudioChannels")),
            },
        ),
        None => None,
    };
    Ok(
        DcsPlaybackInfo {
            state: text_at(data.get("state")),
            title: text_at(get_in(track_roles, "title")),
            artist: text_at(get_in(meta_data, "artist")),
            album: text_at(get_in(meta_data, "album")),
            service_id: text_at(get_in(meta_data, "serviceID")),
            duration: number_at(get_in(data.get("status"), "duration")),
            audio_format,
        },
    )
}

/// The menu path of the selected digital input, in the answer to a
/// request for the current input.
pub fn current_input_path(json: &Json) -> (path: Option<String>)
    ensures
        path.deep_view() == text_in(member_in(element(*json, 1), "string_"@)),
{
    text_at(get_in(json.at(1), "string_"))
}

/// The title of a digital input, in the answer to a request for it.
pub fn input_title(json: &Json) -> (title: Option<String>)
    ensures
        title.deep_view() == text_in(element(*json, 0)),
{
    text_at(json.at(0))
}

/// The selected input and the inputs that a device is known to have.
pub fn input_info_from(current_input: Option<String>) -> (info: DcsInputInfo)
    ensures
        info.current_input == current_input,
        info.available_inputs.deep_view() == seq!["Network"@, "AES1"@, "SPDIF1"@, "SPDIF2"@],
{
    DcsInputInfo { current_input, available_inputs: known_inputs() }
}

/// The play mode, in the answer to a request for it.
pub fn play_mode_from(json: &Json) -> (mode: DcsPlayMode)
    ensures
        mode.mode.deep_view() == text_in(member_in(element(*json, 0), "playerPlayMode"@)),
{
    DcsPlayMode { mode: text_at(get_in(json.at(0), "playerPlayMode")) }
}

/// Did a write request succeed? The device answers `true`, with or
/// without white space around it.
pub fn set_succeeded(answer: &str) -> (yes: bool)
    ensures
        yes == (trimmed(answer@) == "true"@),
{
    str_eq(trim(answer), "true")
}

/// The value of a menu item, as far as the menu shows it.
#[derive(Debug, Clone, PartialEq, Eq)]
pub enum MenuValue {
    Int(i64),
    Text(String),
    Flag(bool),
    /// A value of a kind that the menu does not show.
    Other,
}

pub enum MenuValueView {
    Int(i64),
    Text(Seq<char>),
    Flag(bool),
    Other,
}

impl View for MenuValue {
    type V = MenuValueView;

    open spec fn view(&self) -> MenuValueView {
        match self {
            MenuValue::Int(number) => MenuValueView::Int(*number),
            MenuValue::Text(text) => MenuValueView::Text(text@),
            MenuValue::Flag(flag) => MenuValueView::Flag(*flag),
            MenuValue::Other => MenuValueView::Other,
        }
    }
}

impl DeepView for MenuValue {
    type V = MenuValueView;

    open spec fn deep_view(&self) -> MenuValueView {
        self@
    }
}

/// An item of a menu.
#[derive(Debug, Clone, PartialEq, Eq)]
pub struct DcsMenuItem {
    pub title: String,
    pub item_type: String,
    pub path: String,
    pub value: Option<MenuValue>,
}

pub struct DcsMenuItemView {
    pub title: Seq<char>,
    pub item_type: Seq<char>,
    pub path: Seq<char>,
    pub value: Option<MenuValueView>,
}

impl View for DcsMenuItem {
    type V = DcsMenuItemView;

    open spec fn view(&self) -> DcsMenuItemView {
        DcsMenuItemView {
            title: self.title@,
            item_type: self.item_type@,
            path: self.path@,
            value: self.value.deep_view(),
        }
    }
}

impl DeepView for DcsMenuItem {
    type V = DcsMenuItemView;

    open spec fn deep_view(&self) -> DcsMenuItemView {
        self@
    }
}

/// A menu of the device.
#[derive(Debug, Clone, PartialEq, Eq)]
pub struct DcsMenu {
    pub title: String,
    pub path: String,
    pub items: Vec<DcsMenuItem>,
}

pub struct DcsMenuView {
    pub title: Seq<char>,
    pub path: Seq<char>,
    pub items: Seq<DcsMenuItemView>,
}

impl View for DcsMenu {
    type V = DcsMenuView;

    open spec fn view(&self) -> DcsMenuView {
        DcsMenuView { title: self.title@, path: self.path@, items: self.items.deep_view() }
    }
}

/// The value of a menu item: its whole number if it has one, else its
/// text, else its flag.
pub open spec fn menu_value_of(json: Json) -> MenuValueView {
    match int_in(member(json, "i32_"@)) {
        Some(number) => MenuValueView::Int(number),
        None => match text_in(member(json, "string_"@)) {
            Some(text) => MenuValueView::Text(text),
            None => match member(json, "bool_"@) {
                Some(Json::Bool(flag)) => MenuValueView::Flag(flag),
                _ => MenuValueView::Other,
            },
        },
    }
}

fn menu_value(json: &Json) -> (value: MenuValue)
    ensures
        value@ == menu_value_of(*json),
{
    match int_at(json.get("i32_")) {
        Some(number) => MenuValue::Int(number),
        None => match text_at(json.get("string_")) {
            Some(text) => MenuValue::Text(text),
            None => match json.get("bool_") {
                Some(Json::Bool(flag)) => MenuValue::Flag(*flag),
                _ => MenuValue::Other,
            },
        },
    }
}

/// A text in a document, or the default in its place.
pub open spec fn text_or(json: Option<Json>, default: Seq<char>) -> Seq<char> {
    match text_in(json) {
        Some(text) => text,
        None => default,
    }
}

fn text_or_default(json: Option<&Json>, default: &str) -> (text: String)
    ensures
        text@ == text_or(pointee(json), default@),
{
    match text_at(json) {
        Some(text) => text,
        None => default.to_owned(),
    }
}

/// The menu item that a row stands for: a row is an array of title, icon,
/// type, path and value; one with fewer than four elements, or that is no
/// array, stands for none.
pub open spec fn menu_item_of(row: Json) -> Option<DcsMenuItemView> {
    match row {
        Json::Array(cells) => if cells@.len() >= 4 {
            Some(
                DcsMenuItemView {
                    title: text_or(Some(cells@[0]), ""@),
                    item_type: text_or(Some(cells@[2]), "unknown"@),
                    path: text_or(Some(cells@[3]), ""@),
                    value: if cells@.len() >= 5 && !(cells@[4] is Null) {
                        Some(menu_value_of(cells@[4]))
                    } else {
                        None
                    },
                },
            )
        } else {
            None
        },
        _ => None,
    }
}

fn menu_item(row: &Json) -> (item: Option<DcsMenuItem>)
    ensures
        item.deep_view() == menu_item_of(*row),
{
    match row {
        Json::Array(cells) => {
            if cells.len() >= 4 {
                let value = if cells.len() >= 5 && !cells[4].is_null() {
                    Some(menu_value(&cells[4]))
                } else {
                    None
                };
                Some(
                    DcsMenuItem {
                        title: text_or_default(Some(&cells[0]), ""),
                        item_type: text_or_default(Some(&cells[2]), "unknown"),
                        path: text_or_default(Some(&cells[3]), ""),
                        value,
                    },
                )
            } else {
                None
            }
        },
        _ => None,
    }
}

/// The menu items that rows stand for, in order.
pub open spec fn menu_items_of(rows: Seq<Json>) -> Seq<DcsMenuItemView>
    decreases rows.len(),
{
    if rows.len() == 0 {
        Seq::empty()
    } else {
        match menu_item_of(rows.last()) {
            Some(item) => menu_items_of(rows.drop_last()).push(item),
            None => menu_items_of(rows.drop_last()),
        }
    }
}

/// The view of a menu or of the error in its place.
pub open spec fn menu_view(menu: Result<DcsMenu, DcsError>) -> Result<DcsMenuView, DcsErrorView> {
    match menu {
        Ok(menu) => Ok(menu@),
        Err(error) => Err(error@),
    }
}

/// The menu in the answer to a request for the rows of the menu at
/// `path`. An answer with an `error` member is the device's refusal, with
/// its message or `Unknown error`. Otherwise the answer must name `roles`,
/// which give the menu's title (or `Unknown`) and path (or the path asked
/// for), and hold its `rows`.
pub open spec fn menu_of(json: Json, path: Seq<char>) -> Result<DcsMenuView, DcsErrorView> {
    match member(json, "error"@) {
        Some(error) => Err(
            DcsErrorView::Api(text_or(member(error, "message"@), "Unknown error"@)),
        ),
        None => match member(json, "roles"@) {
            None => Err(DcsErrorView::MissingRoles),
            Some(roles) => match member(json, "rows"@) {
                Some(Json::Array(rows)) => Ok(
                    DcsMenuView {
                        title: text_or(member(roles, "title"@), "Unknown"@),
                        path: text_or(member(roles, "path"@), path),
                        items: menu_items_of(rows@),
                    },
                ),
                _ => Err(DcsErrorView::MissingRows),
            },
        },
    }
}

/// Reads a menu out of the answer to a request for its rows.
pub fn menu_from(json: &Json, path: &str) -> (menu: Result<DcsMenu, DcsError>)
    ensures
        menu_view(menu) == menu_of(*json, path@),
{
    match json.get("error") {
        Some(error) => {
            return Err(DcsError::Api(text_or_default(error.get("message"), "Unknown error")));
        },
        None => {},
    }
    let roles = match json.get("roles") {
        Some(roles) => roles,
        None => {
            return Err(DcsError::MissingRoles);
        },
    };
    let rows = match json.get("rows") {
        Some(Json::Array(rows)) => rows,
        _ => {
            return Err(DcsError::MissingRows);
        },
    };
    let mut items: Vec<DcsMenuItem> = Vec::new();
    let mut i: usize = 0;
    assert(rows@.take(0) =~= Seq::<Json>::empty());
    assert(items.deep_view() =~= Seq::<DcsMenuItemView>::empty());
    while i < rows.len()
        invariant
            i <= rows.len(),
            items.deep_view() == menu_items_of(rows@.take(i as int)),
        decreases rows.len() - i,
    {
        proof {
            let upto = rows@.take(i + 1);
            assert(upto.drop_last() =~= rows@.take(i as int));
            assert(upto.last() == rows@[i as int]);
        }
        match menu_item(&rows[i]) {
            Some(item) => {
                let ghost so_far = items.deep_view();
                let ghost added = item@;
                items.push(item);
                assert(items.deep_view() =~= so_far.push(added));
            },
            None => {},
        }
        i += 1;
    }
    assert(rows@.take(rows.len() as int) =~= rows@);
    Ok(
        DcsMenu {
            title: text_or_default(roles.get("title"), "Unknown"),
            path: text_or_default(roles.get("path"), path),
            items,
        },
    )
}

/// The mark that follows the title of a menu item: an arrow for a
/// container, nothing for a value, the type in parentheses for anything
/// else.
pub open spec fn type_marker(item_type: Seq<char>) -> Seq<char> {
    if item_type == "container"@ {
        " \u{2192}"@
    } else if item_type == "value"@ {
        ""@
    } else {
        " ("@ + item_type + ")"@
    }
}

/// The value of a menu item as its line shows it.
pub open spec fn value_text(value: Option<MenuValueView>) -> Seq<char> {
    match value {
        Some(MenuValueView::Int(number)) => ": "@ + signed_decimal(number as int),
        Some(MenuValueView::Text(text)) => ": "@ + text,
        Some(MenuValueView::Flag(flag)) => if flag {
            ": true"@
        } else {
            ": false"@
        },
        _ => ""@,
    }
}

/// The line of a menu item: its number in the menu, its title, its type
/// mark and its value.
pub open spec fn menu_line_spec(number: usize, item: DcsMenuItemView) -> Seq<char> {
    "    "@ + decimal(number as nat) + ". "@ + item.title + type_marker(item.item_type)
        + value_text(item.value)
}

/// The line of the menu item that is the `number`th of its menu.
pub fn menu_line(number: usize, item: &DcsMenuItem) -> (line: String)
    ensures
        line@ == menu_line_spec(number, item@),
{
    let marker = if str_eq(item.item_type.as_str(), "container") {
        String::from_str(" \u{2192}")
    } else if str_eq(item.item_type.as_str(), "value") {
        String::from_str("")
    } else {
        String::from_str(" (").concat(item.item_type.as_str()).concat(")")
    };
    let value = match &item.value {
        Some(MenuValue::Int(number)) => String::from_str(": ").concat(
            i64_to_string(*number).as_str(),
        ),
        Some(MenuValue::Text(text)) => String::from_str(": ").concat(text.as_str()),
        Some(MenuValue::Flag(flag)) => if *flag {
            String::from_str(": true")
        } else {
            String::from_str(": false")
        },
        _ => String::from_str(""),
    };
    String::from_str("    ").concat(u64_to_string(number as u64).as_str()).concat(". ").concat(
        item.title.as_str(),
    ).concat(marker.as_str()).concat(value.as_str())
}

} // verus!
