//! What is made of the answers of UPnP devices: the audio format in a
//! track's metadata, the address of a service description, and the
//! defaults for fields a device leaves out.

use vstd::prelude::*;
use vstd::string::*;

use crate::text::starts_with;

verus! {

/// A device found on the network.
#[derive(Debug, Clone, PartialEq, Eq)]
pub struct UpnpDevice {
    pub location: String,
    pub usn: String,
    pub server: Option<String>,
    pub device_type: Option<String>,
}

/// What a device says of itself.
#[derive(Debug, Clone, PartialEq, Eq)]
pub struct DeviceInfo {
    pub friendly_name: String,
    pub manufacturer: Option<String>,
    pub model_name: Option<String>,
    pub model_number: Option<String>,
    pub serial_number: Option<String>,
    pub device_type: String,
    pub services: Vec<String>,
}

/// The answer to `GetPositionInfo`.
#[derive(Debug, Clone, PartialEq, Eq)]
pub struct PositionInfo {
    pub track: String,
    pub track_duration: String,
    pub track_metadata: String,
    pub track_uri: String,
    pub rel_time: String,
}

pub struct PositionInfoView {
    pub track: Seq<char>,
    pub track_duration: Seq<char>,
    pub track_metadata: Seq<char>,
    pub track_uri: Seq<char>,
    pub rel_time: Seq<char>,
}

impl View for PositionInfo {
    type V = PositionInfoView;

    open spec fn view(&self) -> PositionInfoView {
        PositionInfoView {
            track: self.track@,
            track_duration: self.track_duration@,
            track_metadata: self.track_metadata@,
            track_uri: self.track_uri@,
            rel_time: self.rel_time@,
        }
    }
}

/// The answer to `GetTransportInfo`.
#[derive(Debug, Clone, PartialEq, Eq)]
pub struct TransportInfo {
    pub current_transport_state: String,
    pub current_transport_status: String,
    pub current_speed: String,
}

pub struct TransportInfoView {
    pub current_transport_state: Seq<char>,
    pub current_transport_status: Seq<char>,
    pub current_speed: Seq<char>,
}

impl View for TransportInfo {
    type V = TransportInfoView;

    open spec fn view(&self) -> TransportInfoView {
        TransportInfoView {
            current_transport_state: self.current_transport_state@,
            current_transport_status: self.current_transport_status@,
            current_speed: self.current_speed@,
        }
    }
}

/// The audio format named in a track's DIDL-Lite metadata.
#[derive(Debug, Clone, PartialEq, Eq)]
pub struct AudioFormat {
    pub sample_rate: Option<String>,
    pub bits_per_sample: Option<String>,
    pub channels: Option<String>,
    pub bitrate: Option<String>,
}

pub struct AudioFormatView {
    pub sample_rate: Option<Seq<char>>,
    pub bits_per_sample: Option<Seq<char>>,
    pub channels: Option<Seq<char>>,
    pub bitrate: Option<Seq<char>>,
}

impl View for AudioFormat {
    type V = AudioFormatView;

    open spec fn view(&self) -> AudioFormatView {
        AudioFormatView {
            sample_rate: self.sample_rate.deep_view(),
            bits_per_sample: self.bits_per_sample.deep_view(),
            channels: self.channels.deep_view(),
            bitrate: self.bitrate.deep_view(),
        }
    }
}

impl DeepView for AudioFormat {
    type V = AudioFormatView;

    open spec fn deep_view(&self) -> AudioFormatView {
        self@
    }
}

/// Why an address or a document of a device could not be used.
#[derive(Debug, PartialEq, Eq)]
pub enum UpnpError {
    /// The device address does not begin with `http://` or `https://`.
    InvalidDeviceUrl(String),
    /// The device description names no such service.
    ServiceNotFound(String),
    /// The address of the service description cannot be resolved.
    InvalidUrl,
    /// The document is not well-formed XML.
    MalformedXml,
}

pub enum UpnpErrorView {
    InvalidDeviceUrl(Seq<char>),
    ServiceNotFound(Seq<char>),
    InvalidUrl,
    MalformedXml,
}

impl View for UpnpError {
    type V = UpnpErrorView;

    open spec fn view(&self) -> UpnpErrorView {
        match self {
            UpnpError::InvalidDeviceUrl(url) => UpnpErrorView::InvalidDeviceUrl(url@),
            UpnpError::ServiceNotFound(name) => UpnpErrorView::ServiceNotFound(name@),
            UpnpError::InvalidUrl => UpnpErrorView::InvalidUrl,
            UpnpError::MalformedXml => UpnpErrorView::MalformedXml,
        }
    }
}

/// The text of an error, as callers are shown it.
pub open spec fn upnp_error_text(error: UpnpErrorView) -> Seq<char> {
    match error {
        UpnpErrorView::InvalidDeviceUrl(url) => "Invalid device URL: '"@ + url
            + "'. Must start with http:// or https://"@,
        UpnpErrorView::ServiceNotFound(name) => "Service "@ + name
            + " not found in device description"@,
        UpnpErrorView::InvalidUrl => "Invalid service description URL"@,
        UpnpErrorView::MalformedXml => "Error parsing XML"@,
    }
}

impl UpnpError {
    /// The text of the error, as callers are shown it.
    pub fn message(&self) -> (text: String)
        ensures
            text@ == upnp_error_text(self@),
    {
        match self {
            UpnpError::InvalidDeviceUrl(url) => String::from_str("Invalid device URL: '").concat(
                url.as_str(),
            ).concat("'. Must start with http:// or https://"),
            UpnpError::ServiceNotFound(name) => String::from_str("Service ").concat(
                name.as_str(),
            ).concat(" not found in device description"),
            UpnpError::InvalidUrl => String::from_str("Invalid service description URL"),
            UpnpError::MalformedXml => String::from_str("Error parsing XML"),
        }
    }
}

/// What the first capture group holds in the leftmost match of the
/// regular expression `pattern` in `text`; `None` when the pattern is no
/// regular expression, when nothing matches, or when the group took no
/// part in the match.
pub uninterp spec fn regex_first_group(pattern: Seq<char>, text: Seq<char>) -> Option<Seq<char>>;

/// Searches `text` for `pattern` and hands out the first capture group.
///
/// Trusted: names the result of `regex::Regex::new`, `Regex::captures` and
/// `Captures::get(1)` in a row. The regex crate compiles and searches
/// without regard to anything but the two strings, and neither call
/// panics.
#[verifier::external_body]
pub(crate) fn first_group(pattern: &str, text: &str) -> (found: Option<String>)
    ensures
        found.deep_view() == regex_first_group(pattern@, text@),
{
    let compiled = regex::Regex::new(pattern).ok()?;
    let captures = compiled.captures(text)?;
    captures.get(1).map(|group| group.as_str().to_string())
}

/// The pattern that finds the value of the XML attribute `name`.
pub open spec fn attribute_pattern(name: Seq<char>) -> Seq<char> {
    name + "=\"([^\"]*)\""@
}

/// The value of the first attribute `attr_name` in `xml`, as a regular
/// expression finds it.
pub fn extract_attribute(xml: &str, attr_name: &str) -> (value: Option<String>)
    ensures
        value.deep_view() == regex_first_group(attribute_pattern(attr_name@), xml@),
{
    let pattern = String::from_str(attr_name).concat("=\"([^\"]*)\"");
    first_group(pattern.as_str(), xml)
}

/// The audio format that four attribute values make: there is one as soon
/// as the sample rate or the bit depth is known.
pub open spec fn audio_format_of(
    sample_rate: Option<Seq<char>>,
    bits_per_sample: Option<Seq<char>>,
    channels: Option<Seq<char>>,
    bitrate: Option<Seq<char>>,
) -> Option<AudioFormatView> {
    if sample_rate is Some || bits_per_sample is Some {
        Some(AudioFormatView { sample_rate, bits_per_sample, channels, bitrate })
    } else {
        None
    }
}

/// The audio format that four attribute values make.
pub fn audio_format_from(
    sample_rate: Option<String>,
    bits_per_sample: Option<String>,
    channels: Option<String>,
    bitrate: Option<String>,
) -> (format: Option<AudioFormat>)
    ensures
        format.deep_view() == audio_format_of(
            sample_rate.deep_view(),
            bits_per_sample.deep_view(),
            channels.deep_view(),
            bitrate.deep_view(),
        ),
{
    if sample_rate.is_some() || bits_per_sample.is_some() {
        Some(AudioFormat { sample_rate, bits_per_sample, channels, bitrate })
    } else {
        None
    }
}

/// The audio format named in DIDL-Lite metadata.
pub open spec fn parsed_audio_format(didl_xml: Seq<char>) -> Option<AudioFormatView> {
    if didl_xml.len() == 0 {
        None
    } else {
        audio_format_of(
            regex_first_group(attribute_pattern("sampleFrequency"@), didl_xml),
            regex_first_group(attribute_pattern("bitsPerSample"@), didl_xml),
            regex_first_group(attribute_pattern("nrAudioChannels"@), didl_xml),
            regex_first_group(attribute_pattern("bitrate"@), didl_xml),
        )
    }
}

/// Reads the audio format out of DIDL-Lite metadata: the attributes
/// `sampleFrequency`, `bitsPerSample`, `nrAudioChannels` and `bitrate`.
pub fn parse_audio_format(didl_xml: &str) -> (format: Option<AudioFormat>)
    ensures
        format.deep_view() == parsed_audio_format(didl_xml@),
{
    if didl_xml.is_empty() {
        return None;
    }
    let sample_rate = extract_attribute(didl_xml, "sampleFrequency");
    let bits_per_sample = extract_attribute(didl_xml, "bitsPerSample");
    let channels = extract_attribute(didl_xml, "nrAudioChannels");
    let bitrate = extract_attribute(didl_xml, "bitrate");
    audio_format_from(sample_rate, bits_per_sample, channels, bitrate)
}

/// The place of the last colon before `end`, or -1 when there is none.
pub open spec fn last_colon_before(text: Seq<char>, end: int) -> int
    decreases end,
{
    if end <= 0 || end > text.len() {
        -1
    } else if text[end - 1] == ':' {
        end - 1
    } else {
        last_colon_before(text, end - 1)
    }
}

/// The name of a service in its type: what stands before the last colon,
/// back to the colon before that. A type without a colon is the name.
pub open spec fn service_name_spec(service_type: Seq<char>) -> Seq<char> {
    let last = last_colon_before(service_type, service_type.len() as int);
    if last < 0 {
        service_type
    } else {
        service_type.subrange(last_colon_before(service_type, last) + 1, last)
    }
}

fn colon_before(text: &str, end: usize) -> (found: Option<usize>)
    requires
        end <= text@.len(),
    ensures
        match found {
            Some(at) => at == last_colon_before(text@, end as int),
            None => last_colon_before(text@, end as int) == -1,
        },
        found is Some ==> found->0 < end,
{
    let mut i: usize = end;
    while i > 0
        invariant
            i <= end,
            end <= text@.len(),
            last_colon_before(text@, end as int) == last_colon_before(text@, i as int),
        decreases i,
    {
        if text.get_char(i - 1) == ':' {
            return Some(i - 1);
        }
        i -= 1;
    }
    None
}

/// The name of a service in its type, as in `AVTransport:2` or in
/// `urn:schemas-upnp-org:service:AVTransport:2`.
pub fn service_name(service_type: &str) -> (name: String)
    ensures
        name@ == service_name_spec(service_type@),
{
    let length = service_type.unicode_len();
    match colon_before(service_type, length) {
        None => service_type.to_owned(),
        Some(last) => {
            let start: usize = match colon_before(service_type, last) {
                Some(previous) => previous + 1,
                None => 0,
            };
            service_type.substring_char(start, last).to_owned()
        },
    }
}

/// Is the character one that has a meaning in a regular expression?
pub open spec fn is_meta_character(c: char) -> bool {
    c == '\\' || c == '.' || c == '+' || c == '*' || c == '?' || c == '(' || c == ')' || c == '|'
        || c == '[' || c == ']' || c == '{' || c == '}' || c == '^' || c == '$' || c == '#' || c
        == '&' || c == '-' || c == '~'
}

/// The text with a backslash before each character that has a meaning in
/// a regular expression.
pub open spec fn regex_escaped(text: Seq<char>) -> Seq<char>
    decreases text.len(),
{
    if text.len() == 0 {
        Seq::empty()
    } else if is_meta_character(text.last()) {
        regex_escaped(text.drop_last()).push('\\').push(text.last())
    } else {
        regex_escaped(text.drop_last()).push(text.last())
    }
}

/// Escapes the characters that have a meaning in a regular expression.
///
/// Trusted: states what `regex::escape` does, as its source shows it: it
/// copies the text and puts a backslash before each meta character.
#[verifier::external_body]
pub(crate) fn regex_escape(text: &str) -> (escaped: String)
    ensures
        escaped@ == regex_escaped(text@),
{
    regex::escape(text)
}

/// The address that `relative` stands for when it is read at the address
/// `base`; `None` when `base` is no absolute URL or the two do not make
/// one.
pub uninterp spec fn url_joined(base: Seq<char>, relative: Seq<char>) -> Option<Seq<char>>;

/// Resolves `relative` against `base`.
///
/// Trusted: names the result of `url::Url::parse` on the base, `Url::join`
/// and the URL's rendering as a string. The url crate parses without
/// regard to anything but the two strings and does not panic.
#[verifier::external_body]
pub(crate) fn url_join(base: &str, relative: &str) -> (joined: Option<String>)
    ensures
        joined.deep_view() == url_joined(base@, relative@),
{
    let parsed = url::Url::parse(base).ok()?;
    parsed.join(relative).ok().map(|url| url.to_string())
}

/// Does the address name a device that can be asked over HTTP?
pub open spec fn is_http_url(location: Seq<char>) -> bool {
    "http://"@.is_prefix_of(location) || "https://"@.is_prefix_of(location)
}

/// Accepts a device address that begins with `http://` or `https://`.
pub fn check_device_url(location: &str) -> (checked: Result<(), UpnpError>)
    ensures
        checked is Ok <==> is_http_url(location@),
        checked is Err ==> checked->Err_0@ == UpnpErrorView::InvalidDeviceUrl(location@),
{
    if starts_with(location, "http://") || starts_with(location, "https://") {
        Ok(())
    } else {
        Err(UpnpError::InvalidDeviceUrl(location.to_owned()))
    }
}

/// The pattern that finds the address of a service's description in a
/// device description.
pub open spec fn scpd_pattern(service: Seq<char>) -> Seq<char> {
    "<serviceType>.*"@ + regex_escaped(service) + ".*</serviceType>.*?<SCPDURL>(.*?)</SCPDURL>"@
}

/// The view of an address or of the error in its place.
pub open spec fn located(outcome: Result<String, UpnpError>) -> Result<Seq<char>, UpnpErrorView> {
    match outcome {
        Ok(url) => Ok(url@),
        Err(error) => Err(error@),
    }
}

/// Where the description of a service is, given the path that the device
/// description names for it: a path that begins with `http` is the
/// address; any other is read at the device's address.
pub open spec fn scpd_location_spec(
    device_location: Seq<char>,
    service: Seq<char>,
    path: Option<Seq<char>>,
) -> Result<Seq<char>, UpnpErrorView> {
    match path {
        None => Err(UpnpErrorView::ServiceNotFound(service)),
        Some(path) => if "http"@.is_prefix_of(path) {
            Ok(path)
        } else {
            match url_joined(device_location, path) {
                Some(url) => Ok(url),
                None => Err(UpnpErrorView::InvalidUrl),
            }
        },
    }
}

/// Where the description of a service is, given the path that the device
/// description names for it.
pub fn scpd_location(device_location: &str, service: &str, path: Option<String>) -> (outcome:
    Result<String, UpnpError>)
    ensures
        located(outcome) == scpd_location_spec(device_location@, service@, path.deep_view()),
{
    match path {
        None => Err(UpnpError::ServiceNotFound(service.to_owned())),
        Some(path) => {
            if starts_with(path.as_str(), "http") {
                Ok(path)
            } else {
                match url_join(device_location, path.as_str()) {
                    Some(url) => Ok(url),
                    None => Err(UpnpError::InvalidUrl),
                }
            }
        },
    }
}

/// Where the description of the service `service_type` is, according to
/// the device description `device_xml` fetched from `device_location`.
pub open spec fn scpd_url_spec(
    device_location: Seq<char>,
    device_xml: Seq<char>,
    service_type: Seq<char>,
) -> Result<Seq<char>, UpnpErrorView> {
    if !is_http_url(device_location) {
        Err(UpnpErrorView::InvalidDeviceUrl(device_location))
    } else {
        let service = service_name_spec(service_type);
        scpd_location_spec(
            device_location,
            service,
            regex_first_group(scpd_pattern(service), device_xml),
        )
    }
}

/// Finds the address of a service's description in a device description.
pub fn scpd_url(device_location: &str, device_xml: &str, service_type: &str) -> (outcome: Result<
    String,
    UpnpError,
>)
    ensures
        located(outcome) == scpd_url_spec(device_location@, device_xml@, service_type@),
{
    match check_device_url(device_location) {
        Err(error) => {
            return Err(error);
        },
        Ok(_) => {},
    }
    let service = service_name(service_type);
    let pattern = String::from_str("<serviceType>.*").concat(
        regex_escape(service.as_str()).as_str(),
    ).concat(".*</serviceType>.*?<SCPDURL>(.*?)</SCPDURL>");
    let path = first_group(pattern.as_str(), device_xml);
    scpd_location(device_location, service.as_str(), path)
}

/// The field of an answer, or the default when the device left it out.
pub open spec fn or_default(value: Option<Seq<char>>, default: Seq<char>) -> Seq<char> {
    match value {
        Some(text) => text,
        None => default,
    }
}

fn field_or(value: Option<String>, default: &str) -> (text: String)
    ensures
        text@ == or_default(value.deep_view(), default@),
{
    match value {
        Some(text) => text,
        None => default.to_owned(),
    }
}

/// The position of a renderer from the fields of its answer: a missing
/// track is track `0`, a missing time is `00:00:00`, missing metadata and
/// a missing address are empty.
pub fn position_info_from(
    track: Option<String>,
    track_duration: Option<String>,
    track_metadata: Option<String>,
    track_uri: Option<String>,
    rel_time: Option<String>,
) -> (info: PositionInfo)
    ensures
        info@ == (PositionInfoView {
            track: or_default(track.deep_view(), "0"@),
            track_duration: or_default(track_duration.deep_view(), "00:00:00"@),
            track_metadata: or_default(track_metadata.deep_view(), ""@),
            track_uri: or_default(track_uri.deep_view(), ""@),
            rel_time: or_default(rel_time.deep_view(), "00:00:00"@),
        }),
{
    PositionInfo {
        track: field_or(track, "0"),
        track_duration: field_or(track_duration, "00:00:00"),
        track_metadata: field_or(track_metadata, ""),
        track_uri: field_or(track_uri, ""),
        rel_time: field_or(rel_time, "00:00:00"),
    }
}

/// The transport state of a renderer from the fields of its answer: a
/// missing state is `UNKNOWN`, a missing status `OK`, a missing speed `1`.
pub fn transport_info_from(
    current_transport_state: Option<String>,
    current_transport_status: Option<String>,
    current_speed: Option<String>,
) -> (info: TransportInfo)
    ensures
        info@ == (TransportInfoView {
            current_transport_state: or_default(current_transport_state.deep_view(), "UNKNOWN"@),
            current_transport_status: or_default(current_transport_status.deep_view(), "OK"@),
            current_speed: or_default(current_speed.deep_view(), "1"@),
        }),
{
    TransportInfo {
        current_transport_state: field_or(current_transport_state, "UNKNOWN"),
        current_transport_status: field_or(current_transport_status, "OK"),
        current_speed: field_or(current_speed, "1"),
    }
}

/// The XML document with each element on a line of its own, indented by
/// two spaces for each level; `None` when the document is not well-formed.
pub uninterp spec fn indented_xml(xml: Seq<char>) -> Option<Seq<char>>;

/// Writes an XML document anew, indented.
///
/// Trusted: names what quick-xml's `Writer`, made by `new_with_indent`
/// with two spaces, writes when it is given, one by one, the events that
/// a `Reader` with `trim_text` reads from the document, up to the end of
/// the document. Reader and writer work on the text alone and do not
/// panic; an event that cannot be read or written gives `None`.
#[verifier::external_body]
pub(crate) fn reindent_xml(xml: &str) -> (pretty: Option<String>)
    ensures
        pretty.deep_view() == indented_xml(xml@),
{
    let mut reader = quick_xml::Reader::from_str(xml);
    reader.config_mut().trim_text(true);
    let mut writer = quick_xml::Writer::new_with_indent(std::io::Cursor::new(Vec::new()), b' ', 2);
    loop {
        match reader.read_event() {
            Ok(quick_xml::events::Event::Eof) => break,
            Ok(event) => writer.write_event(event).ok()?,
            Err(_) => return None,
        }
    }
    String::from_utf8(writer.into_inner().into_inner()).ok()
}

/// Writes a device's XML document anew, indented, for display.
pub fn pretty_print_xml(xml: &str) -> (pretty: Result<String, UpnpError>)
    ensures
        located(pretty) == (match indented_xml(xml@) {
            Some(text) => Ok::<Seq<char>, UpnpErrorView>(text),
            None => Err(UpnpErrorView::MalformedXml),
        }),
{
    match reindent_xml(xml) {
        Some(text) => Ok(text),
        None => Err(UpnpError::MalformedXml),
    }
}

} // verus!
