//! What the command shell decides before it acts: which query a line
//! asks for, what a `verbose` line does to the log level, what a line
//! completes to, and how durations and prompts are written.

use vstd::prelude::*;
use vstd::string::*;
use vstd::utf8::*;

pub mod output;

use crate::dcs::DEFAULT_DCS_HOST;
use crate::roon::event::Control;
use crate::roon::zone::Zone;
use crate::roon::zone::ZoneView;
use crate::text::contains;
use crate::text::occurs_in;
use crate::text::decimal;
use crate::text::join_from;
use crate::text::joined;
use crate::text::rest_from;
use crate::text::lowercased;
use crate::text::split_whitespace;
use crate::text::starts_with;
use crate::text::str_eq;
use crate::text::to_lowercase;
use crate::text::trim;
use crate::text::trimmed;
use crate::text::two_digit_string;
use crate::text::two_digits;
use crate::text::u64_to_string;
use crate::text::words;
use crate::upnp::is_http_url;

verus! {

/// A duration as the shell shows it: minutes, then seconds in two places.
pub open spec fn duration_text(seconds: u32) -> Seq<char> {
    decimal((seconds / 60) as nat) + ":"@ + two_digits((seconds % 60) as nat)
}

/// Formats a duration as `M:SS`.
pub fn format_duration(seconds: u32) -> (text: String)
    ensures
        text@ == duration_text(seconds),
{
    let minutes: u32 = seconds / 60;
    let secs: u32 = seconds % 60;
    u64_to_string(minutes as u64).concat(":").concat(two_digit_string(secs as u64).as_str())
}

/// How much is logged.
#[derive(Clone, Copy, Debug, PartialEq, Eq, Structural)]
pub enum LogLevel {
    Off,
    Error,
    Warn,
    Info,
    Debug,
    Trace,
}

/// The name of a log level, as the prompt shows it and as `verbose`
/// takes it.
pub open spec fn level_name_spec(level: LogLevel) -> Seq<char> {
    match level {
        LogLevel::Off => "off"@,
        LogLevel::Error => "error"@,
        LogLevel::Warn => "warn"@,
        LogLevel::Info => "info"@,
        LogLevel::Debug => "debug"@,
        LogLevel::Trace => "trace"@,
    }
}

/// The name of a log level.
pub fn level_name(level: LogLevel) -> (name: &'static str)
    ensures
        name@ == level_name_spec(level),
{
    match level {
        LogLevel::Off => "off",
        LogLevel::Error => "error",
        LogLevel::Warn => "warn",
        LogLevel::Info => "info",
        LogLevel::Debug => "debug",
        LogLevel::Trace => "trace",
    }
}

/// The log level that a name in lower case stands for.
pub open spec fn level_of(name: Seq<char>) -> Option<LogLevel> {
    if name == "off"@ {
        Some(LogLevel::Off)
    } else if name == "error"@ {
        Some(LogLevel::Error)
    } else if name == "warn"@ {
        Some(LogLevel::Warn)
    } else if name == "info"@ {
        Some(LogLevel::Info)
    } else if name == "debug"@ {
        Some(LogLevel::Debug)
    } else if name == "trace"@ {
        Some(LogLevel::Trace)
    } else {
        None
    }
}

/// The log level that a name in lower case stands for.
pub fn parse_level(name: &str) -> (level: Option<LogLevel>)
    ensures
        level == level_of(name@),
{
    if str_eq(name, "off") {
        Some(LogLevel::Off)
    } else if str_eq(name, "error") {
        Some(LogLevel::Error)
    } else if str_eq(name, "warn") {
        Some(LogLevel::Warn)
    } else if str_eq(name, "info") {
        Some(LogLevel::Info)
    } else if str_eq(name, "debug") {
        Some(LogLevel::Debug)
    } else if str_eq(name, "trace") {
        Some(LogLevel::Trace)
    } else {
        None
    }
}

/// What a `verbose` line asks for.
#[derive(Clone, Copy, Debug, PartialEq, Eq, Structural)]
pub enum VerboseRequest {
    /// No argument: switch logging on or off.
    Toggle,
    /// Set the level that the argument names.
    Level(LogLevel),
    /// The argument names no level.
    InvalidLevel,
    /// More than one argument.
    Usage,
}

/// What a `verbose` line of the given words asks for; the level may be
/// written in any case.
pub open spec fn verbose_request_spec(parts: Seq<Seq<char>>) -> VerboseRequest {
    if parts.len() <= 1 {
        VerboseRequest::Toggle
    } else if parts.len() == 2 {
        match level_of(lowercased(parts[1])) {
            Some(level) => VerboseRequest::Level(level),
            None => VerboseRequest::InvalidLevel,
        }
    } else {
        VerboseRequest::Usage
    }
}

/// What a `verbose` line asks for, given the level that its argument
/// names once it is in lower case.
pub fn verbose_request_from(word_count: usize, level: Option<LogLevel>) -> (request: VerboseRequest)
    ensures
        request == (if word_count <= 1 {
            VerboseRequest::Toggle
        } else if word_count == 2 {
            match level {
                Some(level) => VerboseRequest::Level(level),
                None => VerboseRequest::InvalidLevel,
            }
        } else {
            VerboseRequest::Usage
        }),
{
    if word_count <= 1 {
        VerboseRequest::Toggle
    } else if word_count == 2 {
        match level {
            Some(level) => VerboseRequest::Level(level),
            None => VerboseRequest::InvalidLevel,
        }
    } else {
        VerboseRequest::Usage
    }
}

/// What a `verbose` line asks for.
pub fn verbose_request(line: &str) -> (request: VerboseRequest)
    ensures
        request == verbose_request_spec(words(line@)),
{
    let parts = split_whitespace(line);
    let level = if parts.len() == 2 {
        parse_level(to_lowercase(parts[1].as_str()).as_str())
    } else {
        None
    };
    verbose_request_from(parts.len(), level)
}

/// The level after a toggle where a level is kept: logging that is off
/// goes to `Info`, any other goes off.
pub fn toggled_level(level: LogLevel) -> (next: LogLevel)
    ensures
        next == (if level == LogLevel::Off {
            LogLevel::Info
        } else {
            LogLevel::Off
        }),
{
    match level {
        LogLevel::Off => LogLevel::Info,
        _ => LogLevel::Off,
    }
}

/// The level that goes with the verbose flag: `Info` when set, else off.
pub fn level_for_flag(verbose: bool) -> (level: LogLevel)
    ensures
        level == (if verbose {
            LogLevel::Info
        } else {
            LogLevel::Off
        }),
{
    if verbose {
        LogLevel::Info
    } else {
        LogLevel::Off
    }
}

/// The prompt: what the shell is connected to, then the log level.
pub open spec fn prompt_spec(base: Seq<char>, level: LogLevel) -> Seq<char> {
    base + ": "@ + level_name_spec(level) + "> "@
}

/// The prompt of the shell.
pub fn prompt(base: &str, level: LogLevel) -> (text: String)
    ensures
        text@ == prompt_spec(base@, level),
{
    String::from_str(base).concat(": ").concat(level_name(level)).concat("> ")
}

/// Is the command one that needs the connection to the core?
pub open spec fn is_roon_command_spec(name: Seq<char>) -> bool {
    name == "status"@ || name == "reconnect"@ || name == "zones"@ || name == "now-playing"@ || name
        == "queue"@ || name == "play"@ || name == "pause"@ || name == "stop"@ || name == "mute"@
}

/// Is the command one that needs the connection to the core?
pub fn is_roon_command(name: &str) -> (yes: bool)
    ensures
        yes == is_roon_command_spec(name@),
{
    str_eq(name, "status") || str_eq(name, "reconnect") || str_eq(name, "zones") || str_eq(
        name,
        "now-playing",
    ) || str_eq(name, "queue") || str_eq(name, "play") || str_eq(name, "pause") || str_eq(
        name,
        "stop",
    ) || str_eq(name, "mute")
}

/// The commands that completion offers: all of them with a connection to
/// the core, and without one those that do not need it.
pub open spec fn offered(names: Seq<Seq<char>>, include_roon: bool) -> Seq<Seq<char>>
    decreases names.len(),
{
    if names.len() == 0 {
        Seq::empty()
    } else if include_roon || !is_roon_command_spec(names.last()) {
        offered(names.drop_last(), include_roon).push(names.last())
    } else {
        offered(names.drop_last(), include_roon)
    }
}

/// The commands that completion offers.
pub fn completer_commands(names: &Vec<String>, include_roon: bool) -> (commands: Vec<String>)
    ensures
        commands.deep_view() == offered(names.deep_view(), include_roon),
{
    let mut commands: Vec<String> = Vec::new();
    let mut i: usize = 0;
    assert(names.deep_view().take(0) =~= Seq::<Seq<char>>::empty());
    assert(commands.deep_view() =~= Seq::<Seq<char>>::empty());
    while i < names.len()
        invariant
            i <= names.len(),
            commands.deep_view() == offered(names.deep_view().take(i as int), include_roon),
        decreases names.len() - i,
    {
        proof {
            let upto = names.deep_view().take(i + 1);
            assert(upto.drop_last() =~= names.deep_view().take(i as int));
            assert(upto.last() == names[i as int]@);
        }
        if include_roon || !is_roon_command(names[i].as_str()) {
            let ghost so_far = commands.deep_view();
            let name = names[i].clone();
            commands.push(name);
            assert(commands.deep_view() =~= so_far.push(name@));
        }
        i += 1;
    }
    assert(names.deep_view().take(names.len() as int) =~= names.deep_view());
    commands
}

/// The place after the last space before `end`, or 0 when there is none.
pub open spec fn word_start(line: Seq<u8>, end: int) -> int
    decreases end,
{
    if end <= 0 || end > line.len() {
        0
    } else if line[end - 1] == 0x20 {
        end
    } else {
        word_start(line, end - 1)
    }
}

/// Does `text` begin with the bytes of `line` from `start` to `end`?
pub open spec fn continues(text: Seq<u8>, line: Seq<u8>, start: int, end: int) -> bool {
    end - start <= text.len() && text.subrange(0, end - start) == line.subrange(start, end)
}

/// The commands that begin with the bytes of `line` from `start` to
/// `end`, in their order.
pub open spec fn completions(commands: Seq<Seq<char>>, line: Seq<u8>, start: int, end: int)
    -> Seq<Seq<char>>
    decreases commands.len(),
{
    if commands.len() == 0 {
        Seq::empty()
    } else if continues(encode_utf8(commands.last()), line, start, end) {
        completions(commands.drop_last(), line, start, end).push(commands.last())
    } else {
        completions(commands.drop_last(), line, start, end)
    }
}

fn begins_with(text: &[u8], line: &[u8], start: usize, end: usize) -> (yes: bool)
    requires
        start <= end <= line@.len(),
    ensures
        yes == continues(text@, line@, start as int, end as int),
{
    let length: usize = end - start;
    if length > text.len() {
        return false;
    }
    let mut i: usize = 0;
    while i < length
        invariant
            i <= length,
            length == end - start,
            length <= text@.len(),
            start <= end <= line@.len(),
            forall|k: int| 0 <= k < i ==> text@[k] == line@[start + k],
        decreases length - i,
    {
        if text[i] != line[start + i] {
            assert(text@.subrange(0, length as int)[i as int] != line@.subrange(
                start as int,
                end as int,
            )[i as int]);
            return false;
        }
        i += 1;
    }
    assert(text@.subrange(0, length as int) =~= line@.subrange(start as int, end as int));
    true
}

/// Completes the word before the cursor: finds where the word starts
/// (after the last space before the cursor, which stands at byte `pos`)
/// and the commands that begin with the word.
pub fn complete_line(commands: &Vec<String>, line: &str, pos: usize) -> (found: (usize, Vec<String>))
    requires
        pos <= line.spec_bytes().len(),
    ensures
        found.0 == word_start(line.spec_bytes(), pos as int),
        found.0 <= pos,
        found.1.deep_view() == completions(
            commands.deep_view(),
            line.spec_bytes(),
            found.0 as int,
            pos as int,
        ),
{
    let bytes = line.as_bytes();
    let mut start: usize = pos;
    while start > 0 && bytes[start - 1] != 0x20
        invariant
            start <= pos <= bytes@.len(),
            word_start(bytes@, pos as int) == word_start(bytes@, start as int),
        decreases start,
    {
        start -= 1;
    }
    let mut matches: Vec<String> = Vec::new();
    let mut i: usize = 0;
    assert(commands.deep_view().take(0) =~= Seq::<Seq<char>>::empty());
    assert(matches.deep_view() =~= Seq::<Seq<char>>::empty());
    while i < commands.len()
        invariant
            i <= commands.len(),
            start <= pos <= bytes@.len(),
            matches.deep_view() == completions(
                commands.deep_view().take(i as int),
                bytes@,
                start as int,
                pos as int,
            ),
        decreases commands.len() - i,
    {
        proof {
            let upto = commands.deep_view().take(i + 1);
            assert(upto.drop_last() =~= commands.deep_view().take(i as int));
            assert(upto.last() == commands[i as int]@);
        }
        if begins_with(commands[i].as_str().as_bytes(), bytes, start, pos) {
            let ghost so_far = matches.deep_view();
            let command = commands[i].clone();
            matches.push(command);
            assert(matches.deep_view() =~= so_far.push(command@));
        }
        i += 1;
    }
    assert(commands.deep_view().take(commands.len() as int) =~= commands.deep_view());
    (start, matches)
}

/// What a line of the shell asks for.
#[derive(Clone, Copy, Debug, PartialEq, Eq, Structural)]
pub enum QueryKind {
    /// An empty line.
    Nothing,
    Status,
    Zones,
    NowPlaying,
    /// The queue of the zone whose name the argument is part of, or of
    /// the first zone that plays when there is no argument.
    Queue,
    UpnpDiscover,
    UpnpRenderers,
    Verbose,
    Version,
    Help,
    /// The argument is the device address.
    UpnpInfo,
    UpnpXml,
    UpnpPosition,
    UpnpState,
    UpnpPlaying,
    /// The arguments are the device address and the service type.
    UpnpService,
    /// The argument is the host.
    DcsPlaying,
    DcsFormat,
    DcsSettings,
    DcsUpsampler,
    DcsInputs,
    DcsPlaymode,
    /// The arguments are the host and the menu path.
    DcsMenu,
    /// The argument is the host.
    DcsSetBrightness(i32),
    /// The argument is the host; `true` turns the display off.
    DcsSetDisplay(bool),
    /// The argument is the zone.
    Control(Control),
    /// The argument is the zone.
    Mute,
}

/// A query with its arguments.
#[derive(Debug, PartialEq, Eq)]
pub struct Query {
    pub kind: QueryKind,
    pub args: Vec<String>,
}

/// Why a line is no query.
#[derive(Clone, Copy, Debug, PartialEq, Eq, Structural)]
pub enum QueryErrorKind {
    UpnpServiceUsage,
    /// The detail is the address.
    InvalidDeviceUrl,
    DcsMenuUsage,
    BrightnessUsage,
    /// The detail is the value.
    InvalidBrightness,
    DisplayUsage,
    /// The detail is the state.
    InvalidDisplayState,
    /// The detail is the command that lacks its zone.
    ZoneRequired,
    /// The detail is the line.
    UnknownCommand,
}

/// Why a line is no query, with the text that the reason speaks of.
#[derive(Debug, PartialEq, Eq)]
pub struct QueryError {
    pub kind: QueryErrorKind,
    pub detail: String,
}

/// The text of an error, as the shell shows it.
pub open spec fn query_error_text(kind: QueryErrorKind, detail: Seq<char>) -> Seq<char> {
    match kind {
        QueryErrorKind::UpnpServiceUsage =>
            "Usage: upnp-service <device_url> <service_type>\n\nExample: upnp-service http://192.168.1.100:9000/description.xml AVTransport:2\n\nFirst run 'upnp-renderers' to get the device URL, then use that URL with the service name from 'upnp-info'."@,
        QueryErrorKind::InvalidDeviceUrl => "Invalid device URL: '"@ + detail
            + "'\n\nThe device URL must be an HTTP URL (e.g., http://192.168.1.100:9000/description.xml).\nRun 'upnp-renderers' to see available device URLs."@,
        QueryErrorKind::DcsMenuUsage =>
            "Usage: dcs-menu [host] <path>\n\nExamples:\n  dcs-menu dcsUiMenu:/ui/settings/audio\n  dcs-menu dcs-vivaldi.local dcsUiMenu:/ui/settings/audio\n  dcs-menu 192.168.50.31 dcsUiMenu:/ui/settings/frontPanel"@,
        QueryErrorKind::BrightnessUsage =>
            "Usage: dcs-set-brightness [host] <0-15>\n\nExamples:\n  dcs-set-brightness 10\n  dcs-set-brightness dcs-vivaldi.local 10\n  dcs-set-brightness 192.168.50.31 5"@,
        QueryErrorKind::InvalidBrightness => "Invalid brightness value '"@ + detail
            + "'. Must be a number between 0 and 15."@,
        QueryErrorKind::DisplayUsage =>
            "Usage: dcs-set-display [host] <on|off>\n\nExamples:\n  dcs-set-display off\n  dcs-set-display dcs-vivaldi.local off\n  dcs-set-display 192.168.50.31 on"@,
        QueryErrorKind::InvalidDisplayState => "Invalid display state '"@ + detail
            + "'. Must be 'on' or 'off'."@,
        QueryErrorKind::ZoneRequired => "Usage: "@ + detail
            + " <zone_id>\nUse 'zones' to see available zone IDs."@,
        QueryErrorKind::UnknownCommand => "Unknown command: "@ + detail
            + "\nType 'help' for available commands."@,
    }
}

impl QueryError {
    /// The text of the error, as the shell shows it.
    pub fn message(&self) -> (text: String)
        ensures
            text@ == query_error_text(self.kind, self.detail@),
    {
        let detail = self.detail.as_str();
        match self.kind {
            QueryErrorKind::UpnpServiceUsage => String::from_str(
                "Usage: upnp-service <device_url> <service_type>\n\nExample: upnp-service http://192.168.1.100:9000/description.xml AVTransport:2\n\nFirst run 'upnp-renderers' to get the device URL, then use that URL with the service name from 'upnp-info'.",
            ),
            QueryErrorKind::InvalidDeviceUrl => String::from_str("Invalid device URL: '").concat(
                detail,
            ).concat(
                "'\n\nThe device URL must be an HTTP URL (e.g., http://192.168.1.100:9000/description.xml).\nRun 'upnp-renderers' to see available device URLs.",
            ),
            QueryErrorKind::DcsMenuUsage => String::from_str(
                "Usage: dcs-menu [host] <path>\n\nExamples:\n  dcs-menu dcsUiMenu:/ui/settings/audio\n  dcs-menu dcs-vivaldi.local dcsUiMenu:/ui/settings/audio\n  dcs-menu 192.168.50.31 dcsUiMenu:/ui/settings/frontPanel",
            ),
            QueryErrorKind::BrightnessUsage => String::from_str(
                "Usage: dcs-set-brightness [host] <0-15>\n\nExamples:\n  dcs-set-brightness 10\n  dcs-set-brightness dcs-vivaldi.local 10\n  dcs-set-brightness 192.168.50.31 5",
            ),
            QueryErrorKind::InvalidBrightness => String::from_str(
                "Invalid brightness value '",
            ).concat(detail).concat("'. Must be a number between 0 and 15."),
            QueryErrorKind::DisplayUsage => String::from_str(
                "Usage: dcs-set-display [host] <on|off>\n\nExamples:\n  dcs-set-display off\n  dcs-set-display dcs-vivaldi.local off\n  dcs-set-display 192.168.50.31 on",
            ),
            QueryErrorKind::InvalidDisplayState => String::from_str(
                "Invalid display state '",
            ).concat(detail).concat("'. Must be 'on' or 'off'."),
            QueryErrorKind::ZoneRequired => String::from_str("Usage: ").concat(detail).concat(
                " <zone_id>\nUse 'zones' to see available zone IDs.",
            ),
            QueryErrorKind::UnknownCommand => String::from_str("Unknown command: ").concat(
                detail,
            ).concat("\nType 'help' for available commands."),
        }
    }
}

/// A query or the reason why there is none, by their views.
pub type Planned = Result<(QueryKind, Seq<Seq<char>>), (QueryErrorKind, Seq<char>)>;

/// The view of a query or of the error in its place.
pub open spec fn plan_view(plan: Result<Query, QueryError>) -> Planned {
    match plan {
        Ok(query) => Ok((query.kind, query.args.deep_view())),
        Err(error) => Err((error.kind, error.detail@)),
    }
}

/// The value of a decimal digit; nothing for any other character.
pub open spec fn digit_value(c: char) -> Option<int> {
    if '0' <= c && c <= '9' {
        Some(c as int - '0' as int)
    } else {
        None
    }
}

/// The number that the digits before `end` write; nothing when one of
/// them is no digit, or when there is none.
pub open spec fn digits_value(text: Seq<char>, start: int, end: int) -> Option<int>
    decreases end - start,
{
    if end <= start || end > text.len() || start < 0 {
        None
    } else {
        match digit_value(text[end - 1]) {
            None => None,
            Some(digit) => if end - 1 == start {
                Some(digit)
            } else {
                match digits_value(text, start, end - 1) {
                    Some(value) => Some(value * 10 + digit),
                    None => None,
                }
            },
        }
    }
}

/// The number that a text writes: an optional sign, then decimal digits
/// and nothing else, and a value that fits 32 bits.
pub open spec fn parsed_i32(text: Seq<char>) -> Option<i32> {
    let signed = text.len() > 0 && (text[0] == '-' || text[0] == '+');
    let negative = text.len() > 0 && text[0] == '-';
    match digits_value(text, if signed { 1 } else { 0 }, text.len() as int) {
        None => None,
        Some(value) => {
            let number = if negative {
                -value
            } else {
                value
            };
            if i32::MIN <= number <= i32::MAX {
                Some(number as i32)
            } else {
                None
            }
        },
    }
}

/// The number that digits write is not negative, and another digit makes
/// it no smaller.
pub proof fn lemma_digits_value_grows(text: Seq<char>, start: int, end: int)
    ensures
        digits_value(text, start, end) is Some ==> digits_value(text, start, end)->0 >= 0,
    decreases end - start,
{
    if !(end <= start || end > text.len() || start < 0) && end - 1 > start {
        lemma_digits_value_grows(text, start, end - 1);
    }
}

/// Reads a number: an optional sign, then decimal digits.
pub fn parse_i32(text: &str) -> (number: Option<i32>)
    ensures
        number == parsed_i32(text@),
{
    let length = text.unicode_len();
    if length == 0 {
        return None;
    }
    let first = text.get_char(0);
    let negative = first == '-';
    let start: usize = if negative || first == '+' {
        1
    } else {
        0
    };
    if start >= length {
        return None;
    }
    // The value of the digits so far, or a bound that it has passed.
    let limit: i64 = 2147483648;
    let mut value: i64 = 0;
    let mut beyond = false;
    let mut i: usize = start;
    while i < length
        invariant
            start <= i <= length,
            length == text@.len(),
            limit == 2147483648,
            start == (if text@[0] == '-' || text@[0] == '+' {
                1int
            } else {
                0int
            }),
            0 <= value <= limit,
            i > start ==> digits_value(text@, start as int, i as int) is Some,
            i > start && !beyond ==> digits_value(text@, start as int, i as int) == Some(
                value as int,
            ),
            i > start && beyond ==> digits_value(text@, start as int, i as int)->0 > limit,
            i == start ==> value == 0 && !beyond,
        decreases length - i,
    {
        let c = text.get_char(i);
        if !('0' <= c && c <= '9') {
            proof {
                lemma_invalid_digit(text@, start as int, i as int, length as int);
            }
            return None;
        }
        let digit: i64 = (c as u32 - '0' as u32) as i64;
        proof {
            lemma_digits_value_grows(text@, start as int, i as int);
        }
        if !beyond {
            let next: i64 = value * 10 + digit;
            if next > limit {
                beyond = true;
            } else {
                value = next;
            }
        }
        i += 1;
    }
    if beyond {
        None
    } else if negative {
        Some((0 - value) as i32)
    } else if value == limit {
        None
    } else {
        Some(value as i32)
    }
}

/// A character that is no digit spoils the number, however many digits
/// follow it.
pub proof fn lemma_invalid_digit(text: Seq<char>, start: int, at: int, end: int)
    requires
        0 <= start <= at < end <= text.len(),
        digit_value(text[at]) is None,
    ensures
        digits_value(text, start, end) is None,
    decreases end - at,
{
    if end - 1 > at {
        lemma_invalid_digit(text, start, at, end - 1);
    }
}

/// The place of the first space at or after `from`, or the length of the
/// text.
pub open spec fn first_space_from(text: Seq<char>, from: int) -> int
    decreases text.len() - from,
{
    if from < 0 || from >= text.len() {
        text.len() as int
    } else if text[from] == ' ' {
        from
    } else {
        first_space_from(text, from + 1)
    }
}

/// The text cut at its first two spaces: one, two or three pieces, the
/// last of which holds whatever is left.
pub open spec fn space_parts(text: Seq<char>) -> Seq<Seq<char>> {
    let first = first_space_from(text, 0);
    if first >= text.len() {
        seq![text]
    } else {
        let second = first_space_from(text, first + 1);
        if second >= text.len() {
            seq![text.subrange(0, first), text.subrange(first + 1, text.len() as int)]
        } else {
            seq![
                text.subrange(0, first),
                text.subrange(first + 1, second),
                text.subrange(second + 1, text.len() as int),
            ]
        }
    }
}

fn space_from(text: &str, from: usize, length: usize) -> (at: usize)
    requires
        from <= length,
        length == text@.len(),
    ensures
        at == first_space_from(text@, from as int),
        from <= at <= length,
{
    let mut i: usize = from;
    while i < length
        invariant
            from <= i <= length,
            length == text@.len(),
            first_space_from(text@, from as int) == first_space_from(text@, i as int),
        decreases length - i,
    {
        if text.get_char(i) == ' ' {
            return i;
        }
        i += 1;
    }
    length
}

/// Cuts a text at its first two spaces.
pub fn split_at_spaces(text: &str) -> (parts: Vec<String>)
    ensures
        parts.deep_view() == space_parts(text@),
{
    let length = text.unicode_len();
    let mut parts: Vec<String> = Vec::new();
    let first = space_from(text, 0, length);
    if first >= length {
        parts.push(text.to_owned());
        assert(parts.deep_view() =~= seq![text@]);
        return parts;
    }
    let second = space_from(text, first + 1, length);
    parts.push(text.substring_char(0, first).to_owned());
    if second >= length {
        parts.push(text.substring_char(first + 1, length).to_owned());
        assert(parts.deep_view() =~= seq![
            text@.subrange(0, first as int),
            text@.subrange(first + 1, length as int),
        ]);
    } else {
        parts.push(text.substring_char(first + 1, second).to_owned());
        parts.push(text.substring_char(second + 1, length).to_owned());
        assert(parts.deep_view() =~= seq![
            text@.subrange(0, first as int),
            text@.subrange(first + 1, second as int),
            text@.subrange(second + 1, length as int),
        ]);
    }
    parts
}

/// The host that the words of a device command name: the second word, or
/// the usual host when there is none.
pub open spec fn host_of(parts: Seq<Seq<char>>) -> Seq<char> {
    if parts.len() >= 2 {
        parts[1]
    } else {
        DEFAULT_DCS_HOST@
    }
}

/// The host and the value of a command that sets something: with three
/// words the second and the third, with two the usual host and the
/// second.
pub open spec fn host_and_value(parts: Seq<Seq<char>>) -> (Seq<char>, Seq<char>) {
    if parts.len() >= 3 {
        (parts[1], parts[2])
    } else {
        (DEFAULT_DCS_HOST@, parts[1])
    }
}

/// The query that sets the display brightness of `host`, given the value
/// as written and the number it was read as.
pub fn brightness_query(host: String, value: String, number: Option<i32>) -> (plan: Result<
    Query,
    QueryError,
>)
    ensures
        plan_view(plan) == (match number {
            Some(number) => Ok((QueryKind::DcsSetBrightness(number), seq![host@])),
            None => Err((QueryErrorKind::InvalidBrightness, value@)),
        }),
{
    match number {
        Some(number) => {
            let mut args: Vec<String> = Vec::new();
            args.push(host);
            assert(args.deep_view() =~= seq![host@]);
            Ok(Query { kind: QueryKind::DcsSetBrightness(number), args })
        },
        None => Err(QueryError { kind: QueryErrorKind::InvalidBrightness, detail: value }),
    }
}

/// The query that turns the display of `host` on or off, given the state
/// as written in lower case.
pub fn display_query(host: String, state: String) -> (plan: Result<Query, QueryError>)
    ensures
        plan_view(plan) == (if state@ == "off"@ {
            Ok::<(QueryKind, Seq<Seq<char>>), (QueryErrorKind, Seq<char>)>(
                (QueryKind::DcsSetDisplay(true), seq![host@]),
            )
        } else if state@ == "on"@ {
            Ok((QueryKind::DcsSetDisplay(false), seq![host@]))
        } else {
            Err((QueryErrorKind::InvalidDisplayState, state@))
        }),
{
    let off = str_eq(state.as_str(), "off");
    if off || str_eq(state.as_str(), "on") {
        let mut args: Vec<String> = Vec::new();
        args.push(host);
        assert(args.deep_view() =~= seq![host@]);
        Ok(Query { kind: QueryKind::DcsSetDisplay(off), args })
    } else {
        Err(QueryError { kind: QueryErrorKind::InvalidDisplayState, detail: state })
    }
}

/// The kind of a line that is a query by itself, without arguments.
pub open spec fn bare_kind(line: Seq<char>) -> Option<QueryKind> {
    if line == "status"@ {
        Some(QueryKind::Status)
    } else if line == "zones"@ {
        Some(QueryKind::Zones)
    } else if line == "now-playing"@ {
        Some(QueryKind::NowPlaying)
    } else if "queue"@.is_prefix_of(line) {
        Some(QueryKind::Queue)
    } else if line == "upnp-discover"@ {
        Some(QueryKind::UpnpDiscover)
    } else if line == "upnp-renderers"@ {
        Some(QueryKind::UpnpRenderers)
    } else if line == "verbose"@ {
        Some(QueryKind::Verbose)
    } else if line == "version"@ {
        Some(QueryKind::Version)
    } else if line == "help"@ {
        Some(QueryKind::Help)
    } else if line == ""@ {
        Some(QueryKind::Nothing)
    } else {
        None
    }
}

/// The kind of a device command that takes one address or one host.
pub open spec fn device_kind(command: Seq<char>) -> Option<QueryKind> {
    if command == "upnp-info"@ {
        Some(QueryKind::UpnpInfo)
    } else if command == "upnp-xml"@ {
        Some(QueryKind::UpnpXml)
    } else if command == "upnp-position"@ {
        Some(QueryKind::UpnpPosition)
    } else if command == "upnp-state"@ {
        Some(QueryKind::UpnpState)
    } else if command == "upnp-playing"@ {
        Some(QueryKind::UpnpPlaying)
    } else if command == "dcs-playing"@ {
        Some(QueryKind::DcsPlaying)
    } else if command == "dcs-format"@ {
        Some(QueryKind::DcsFormat)
    } else if command == "dcs-settings"@ {
        Some(QueryKind::DcsSettings)
    } else if command == "dcs-upsampler"@ {
        Some(QueryKind::DcsUpsampler)
    } else if command == "dcs-inputs"@ {
        Some(QueryKind::DcsInputs)
    } else if command == "dcs-playmode"@ {
        Some(QueryKind::DcsPlaymode)
    } else {
        None
    }
}

/// Does the command begin with `upnp-`, so that its argument is the rest
/// of the line and not a host?
pub open spec fn takes_address(kind: QueryKind) -> bool {
    kind == QueryKind::UpnpInfo || kind == QueryKind::UpnpXml || kind == QueryKind::UpnpPosition
        || kind == QueryKind::UpnpState || kind == QueryKind::UpnpPlaying
}

/// The kind of a command that acts on a zone.
pub open spec fn zone_kind(command: Seq<char>) -> Option<QueryKind> {
    if command == "play"@ {
        Some(QueryKind::Control(Control::Play))
    } else if command == "pause"@ {
        Some(QueryKind::Control(Control::Pause))
    } else if command == "stop"@ {
        Some(QueryKind::Control(Control::Stop))
    } else if command == "mute"@ {
        Some(QueryKind::Mute)
    } else {
        None
    }
}

/// What a line asks for, when it is a command that acts on a zone or no
/// command at all.
pub open spec fn zone_plan(line: Seq<char>, parts: Seq<Seq<char>>) -> Planned {
    if parts.len() == 2 {
        match zone_kind(parts[0]) {
            Some(kind) => Ok((kind, seq![parts[1]])),
            None => Err((QueryErrorKind::UnknownCommand, line)),
        }
    } else if parts.len() == 1 && zone_kind(parts[0]) is Some {
        Err((QueryErrorKind::ZoneRequired, parts[0]))
    } else {
        Err((QueryErrorKind::UnknownCommand, line))
    }
}

/// What a line that is no query by itself asks for.
pub open spec fn worded_plan(line: Seq<char>) -> Planned {
    let parts = words(line);
    if parts.len() == 0 {
        zone_plan(line, parts)
    } else {
        let command = parts[0];
        match device_kind(command) {
            Some(kind) => if takes_address(kind) {
                Ok((kind, seq![joined(rest_from(parts, 1))]))
            } else {
                Ok((kind, seq![host_of(parts)]))
            },
            None => if command == "upnp-service"@ {
                if parts.len() < 3 {
                    Err((QueryErrorKind::UpnpServiceUsage, Seq::empty()))
                } else if !is_http_url(parts[1]) {
                    Err((QueryErrorKind::InvalidDeviceUrl, parts[1]))
                } else {
                    Ok((QueryKind::UpnpService, seq![parts[1], parts[2]]))
                }
            } else if command == "dcs-menu"@ {
                let pieces = space_parts(line);
                if pieces.len() < 2 {
                    Err((QueryErrorKind::DcsMenuUsage, Seq::empty()))
                } else {
                    Ok(
                        (
                            QueryKind::DcsMenu,
                            seq![host_and_value(pieces).0, host_and_value(pieces).1],
                        ),
                    )
                }
            } else if command == "dcs-set-brightness"@ {
                if parts.len() < 2 {
                    Err((QueryErrorKind::BrightnessUsage, Seq::empty()))
                } else {
                    match parsed_i32(host_and_value(parts).1) {
                        Some(number) => Ok(
                            (QueryKind::DcsSetBrightness(number), seq![host_and_value(parts).0]),
                        ),
                        None => Err((QueryErrorKind::InvalidBrightness, host_and_value(parts).1)),
                    }
                }
            } else if command == "dcs-set-display"@ {
                if parts.len() < 2 {
                    Err((QueryErrorKind::DisplayUsage, Seq::empty()))
                } else {
                    let state = lowercased(host_and_value(parts).1);
                    if state == "off"@ {
                        Ok((QueryKind::DcsSetDisplay(true), seq![host_and_value(parts).0]))
                    } else if state == "on"@ {
                        Ok((QueryKind::DcsSetDisplay(false), seq![host_and_value(parts).0]))
                    } else {
                        Err((QueryErrorKind::InvalidDisplayState, state))
                    }
                }
            } else {
                zone_plan(line, parts)
            },
        }
    }
}

/// What a line of the shell asks for.
pub open spec fn planned(line: Seq<char>) -> Planned {
    match bare_kind(line) {
        Some(kind) => if kind == QueryKind::Queue && words(line).len() > 1 {
            Ok((kind, seq![joined(rest_from(words(line), 1))]))
        } else {
            Ok((kind, Seq::empty()))
        },
        None => worded_plan(line),
    }
}

fn bare(line: &str) -> (kind: Option<QueryKind>)
    ensures
        kind == bare_kind(line@),
{
    if str_eq(line, "status") {
        Some(QueryKind::Status)
    } else if str_eq(line, "zones") {
        Some(QueryKind::Zones)
    } else if str_eq(line, "now-playing") {
        Some(QueryKind::NowPlaying)
    } else if starts_with(line, "queue") {
        Some(QueryKind::Queue)
    } else if str_eq(line, "upnp-discover") {
        Some(QueryKind::UpnpDiscover)
    } else if str_eq(line, "upnp-renderers") {
        Some(QueryKind::UpnpRenderers)
    } else if str_eq(line, "verbose") {
        Some(QueryKind::Verbose)
    } else if str_eq(line, "version") {
        Some(QueryKind::Version)
    } else if str_eq(line, "help") {
        Some(QueryKind::Help)
    } else if str_eq(line, "") {
        Some(QueryKind::Nothing)
    } else {
        None
    }
}

fn device(command: &str) -> (kind: Option<QueryKind>)
    ensures
        kind == device_kind(command@),
{
    if str_eq(command, "upnp-info") {
        Some(QueryKind::UpnpInfo)
    } else if str_eq(command, "upnp-xml") {
        Some(QueryKind::UpnpXml)
    } else if str_eq(command, "upnp-position") {
        Some(QueryKind::UpnpPosition)
    } else if str_eq(command, "upnp-state") {
        Some(QueryKind::UpnpState)
    } else if str_eq(command, "upnp-playing") {
        Some(QueryKind::UpnpPlaying)
    } else if str_eq(command, "dcs-playing") {
        Some(QueryKind::DcsPlaying)
    } else if str_eq(command, "dcs-format") {
        Some(QueryKind::DcsFormat)
    } else if str_eq(command, "dcs-settings") {
        Some(QueryKind::DcsSettings)
    } else if str_eq(command, "dcs-upsampler") {
        Some(QueryKind::DcsUpsampler)
    } else if str_eq(command, "dcs-inputs") {
        Some(QueryKind::DcsInputs)
    } else if str_eq(command, "dcs-playmode") {
        Some(QueryKind::DcsPlaymode)
    } else {
        None
    }
}

fn zone_command(command: &str) -> (kind: Option<QueryKind>)
    ensures
        kind == zone_kind(command@),
{
    if str_eq(command, "play") {
        Some(QueryKind::Control(Control::Play))
    } else if str_eq(command, "pause") {
        Some(QueryKind::Control(Control::Pause))
    } else if str_eq(command, "stop") {
        Some(QueryKind::Control(Control::Stop))
    } else if str_eq(command, "mute") {
        Some(QueryKind::Mute)
    } else {
        None
    }
}

fn one_arg(kind: QueryKind, arg: String) -> (plan: Result<Query, QueryError>)
    ensures
        plan_view(plan) == Ok::<(QueryKind, Seq<Seq<char>>), (QueryErrorKind, Seq<char>)>(
            (kind, seq![arg@]),
        ),
{
    let mut args: Vec<String> = Vec::new();
    args.push(arg);
    assert(args.deep_view() =~= seq![arg@]);
    Ok(Query { kind, args })
}

fn two_args(kind: QueryKind, first: String, second: String) -> (plan: Result<Query, QueryError>)
    ensures
        plan_view(plan) == Ok::<(QueryKind, Seq<Seq<char>>), (QueryErrorKind, Seq<char>)>(
            (kind, seq![first@, second@]),
        ),
{
    let mut args: Vec<String> = Vec::new();
    args.push(first);
    args.push(second);
    assert(args.deep_view() =~= seq![first@, second@]);
    Ok(Query { kind, args })
}

fn no_args(kind: QueryKind) -> (plan: Result<Query, QueryError>)
    ensures
        plan_view(plan) == Ok::<(QueryKind, Seq<Seq<char>>), (QueryErrorKind, Seq<char>)>(
            (kind, Seq::empty()),
        ),
{
    let args: Vec<String> = Vec::new();
    assert(args.deep_view() =~= Seq::<Seq<char>>::empty());
    Ok(Query { kind, args })
}

fn failure(kind: QueryErrorKind, detail: String) -> (plan: Result<Query, QueryError>)
    ensures
        plan_view(plan) == Err::<(QueryKind, Seq<Seq<char>>), (QueryErrorKind, Seq<char>)>(
            (kind, detail@),
        ),
{
    Err(QueryError { kind, detail })
}

fn host_value(parts: &Vec<String>) -> (found: (String, String))
    requires
        parts.len() >= 2,
    ensures
        (found.0@, found.1@) == host_and_value(parts.deep_view()),
{
    if parts.len() >= 3 {
        (parts[1].clone(), parts[2].clone())
    } else {
        (String::from_str(DEFAULT_DCS_HOST), parts[1].clone())
    }
}

fn plan_zone(line: &str, parts: &Vec<String>) -> (plan: Result<Query, QueryError>)
    ensures
        plan_view(plan) == zone_plan(line@, parts.deep_view()),
{
    if parts.len() == 2 {
        match zone_command(parts[0].as_str()) {
            Some(kind) => one_arg(kind, parts[1].clone()),
            None => failure(QueryErrorKind::UnknownCommand, line.to_owned()),
        }
    } else if parts.len() == 1 && zone_command(parts[0].as_str()).is_some() {
        failure(QueryErrorKind::ZoneRequired, parts[0].clone())
    } else {
        failure(QueryErrorKind::UnknownCommand, line.to_owned())
    }
}

/// Decides what a line of the shell asks for.
pub fn plan_query(line: &str) -> (plan: Result<Query, QueryError>)
    ensures
        plan_view(plan) == planned(line@),
{
    match bare(line) {
        Some(kind) => {
            let is_queue = match kind {
                QueryKind::Queue => true,
                _ => false,
            };
            if is_queue {
                let parts = split_whitespace(line);
                if parts.len() > 1 {
                    return one_arg(kind, join_from(&parts, 1));
                }
            }
            return no_args(kind);
        },
        None => {},
    }
    let parts = split_whitespace(line);
    if parts.len() == 0 {
        return plan_zone(line, &parts);
    }
    let command = parts[0].as_str();
    match device(command) {
        Some(kind) => {
            let address = match kind {
                QueryKind::UpnpInfo => true,
                QueryKind::UpnpXml => true,
                QueryKind::UpnpPosition => true,
                QueryKind::UpnpState => true,
                QueryKind::UpnpPlaying => true,
                _ => false,
            };
            if address {
                return one_arg(kind, join_from(&parts, 1));
            } else if parts.len() >= 2 {
                return one_arg(kind, parts[1].clone());
            } else {
                return one_arg(kind, String::from_str(DEFAULT_DCS_HOST));
            }
        },
        None => {},
    }
    if str_eq(command, "upnp-service") {
        if parts.len() < 3 {
            failure(QueryErrorKind::UpnpServiceUsage, String::new())
        } else if !(starts_with(parts[1].as_str(), "http://") || starts_with(
            parts[1].as_str(),
            "https://",
        )) {
            failure(QueryErrorKind::InvalidDeviceUrl, parts[1].clone())
        } else {
            two_args(QueryKind::UpnpService, parts[1].clone(), parts[2].clone())
        }
    } else if str_eq(command, "dcs-menu") {
        let pieces = split_at_spaces(line);
        if pieces.len() < 2 {
            failure(QueryErrorKind::DcsMenuUsage, String::new())
        } else {
            let found = host_value(&pieces);
            two_args(QueryKind::DcsMenu, found.0, found.1)
        }
    } else if str_eq(command, "dcs-set-brightness") {
        if parts.len() < 2 {
            failure(QueryErrorKind::BrightnessUsage, String::new())
        } else {
            let found = host_value(&parts);
            let number = parse_i32(found.1.as_str());
            brightness_query(found.0, found.1, number)
        }
    } else if str_eq(command, "dcs-set-display") {
        if parts.len() < 2 {
            failure(QueryErrorKind::DisplayUsage, String::new())
        } else {
            let found = host_value(&parts);
            display_query(found.0, to_lowercase(found.1.as_str()))
        }
    } else {
        plan_zone(line, &parts)
    }
}

/// Is the zone the one that a queue query means? With a name, the zone
/// whose display name holds the name, whatever the case; without one, a
/// zone that plays something.
pub open spec fn is_queue_target(zone: ZoneView, name: Option<Seq<char>>) -> bool {
    match name {
        Some(name) => occurs_in(lowercased(name), lowercased(zone.display_name)),
        None => zone.now_playing is Some,
    }
}

/// The place of the first zone at or after `from` that a queue query
/// means, or the number of zones.
pub open spec fn queue_target_from(zones: Seq<ZoneView>, name: Option<Seq<char>>, from: int) -> int
    decreases zones.len() - from,
{
    if from < 0 || from >= zones.len() {
        zones.len() as int
    } else if is_queue_target(zones[from], name) {
        from
    } else {
        queue_target_from(zones, name, from + 1)
    }
}

/// Is a zone with this display name in lower case meant by a queue query
/// for `name` in lower case?
pub fn name_matches(display_name: &str, name: &str) -> (yes: bool)
    ensures
        yes == occurs_in(name@, display_name@),
{
    contains(display_name, name)
}

/// Finds the zone whose queue a query asks for: the first zone whose
/// display name holds `name`, or the first zone that plays something
/// when no name is given.
pub fn queue_target(zones: &Vec<Zone>, name: &Option<String>) -> (found: Option<usize>)
    ensures
        match found {
            Some(at) => at < zones.len() && at == queue_target_from(
                zones.deep_view(),
                name.deep_view(),
                0,
            ),
            None => queue_target_from(zones.deep_view(), name.deep_view(), 0) == zones.len(),
        },
{
    let wanted = match name {
        Some(name) => Some(to_lowercase(name.as_str())),
        None => None,
    };
    let mut i: usize = 0;
    while i < zones.len()
        invariant
            i <= zones.len(),
            wanted.deep_view() == (match name.deep_view() {
                Some(name) => Some(lowercased(name)),
                None => None,
            }),
            queue_target_from(zones.deep_view(), name.deep_view(), 0) == queue_target_from(
                zones.deep_view(),
                name.deep_view(),
                i as int,
            ),
        decreases zones.len() - i,
    {
        let meant = match &wanted {
            Some(wanted) => name_matches(
                to_lowercase(zones[i].display_name.as_str()).as_str(),
                wanted.as_str(),
            ),
            None => zones[i].now_playing.is_some(),
        };
        assert(zones.deep_view()[i as int] == zones[i as int]@);
        if meant {
            return Some(i);
        }
        i += 1;
    }
    None
}

/// What the shell does with a line before any query is planned.
#[derive(Clone, Copy, Debug, PartialEq, Eq, Structural)]
pub enum ShellAction {
    /// An empty line: nothing, and no entry in the history.
    Skip,
    /// Leave the shell.
    Quit,
    /// Change the log level.
    Verbose(VerboseRequest),
    /// Connect to the core anew.
    Reconnect,
    /// Empty the output window.
    Clear,
    /// Write the test lines.
    Test,
    /// Plan the line as a query and run it.
    Run,
}

/// What the interactive shell does with a line: it is trimmed first; an
/// empty line is skipped, `quit` and `exit` leave, a line that begins
/// with `verbose` sets the log level, `reconnect` reconnects, and
/// anything else is a query.
pub open spec fn shell_action_spec(line: Seq<char>) -> ShellAction {
    let command = trimmed(line);
    if command.len() == 0 {
        ShellAction::Skip
    } else if command == "quit"@ || command == "exit"@ {
        ShellAction::Quit
    } else if "verbose"@.is_prefix_of(command) {
        ShellAction::Verbose(verbose_request_spec(words(command)))
    } else if command == "reconnect"@ {
        ShellAction::Reconnect
    } else {
        ShellAction::Run
    }
}

/// What the interactive shell does with a line.
pub fn shell_action(line: &str) -> (action: ShellAction)
    ensures
        action == shell_action_spec(line@),
{
    let command = trim(line);
    if command.is_empty() {
        ShellAction::Skip
    } else if str_eq(command, "quit") || str_eq(command, "exit") {
        ShellAction::Quit
    } else if starts_with(command, "verbose") {
        ShellAction::Verbose(verbose_request(command))
    } else if str_eq(command, "reconnect") {
        ShellAction::Reconnect
    } else {
        ShellAction::Run
    }
}

/// What the terminal UI does with a submitted line: a line that begins
/// with `verbose` sets the log level; otherwise the line is trimmed, and
/// `clear`, `test`, `quit`, `exit` and `reconnect` are the UI's own
/// commands; anything else is a query.
pub open spec fn tui_action_spec(line: Seq<char>) -> ShellAction {
    let command = trimmed(line);
    if "verbose"@.is_prefix_of(line) {
        ShellAction::Verbose(verbose_request_spec(words(line)))
    } else if command == "clear"@ {
        ShellAction::Clear
    } else if command == "test"@ {
        ShellAction::Test
    } else if command == "quit"@ || command == "exit"@ {
        ShellAction::Quit
    } else if command == "reconnect"@ {
        ShellAction::Reconnect
    } else {
        ShellAction::Run
    }
}

/// What the terminal UI does with a submitted line.
pub fn tui_action(line: &str) -> (action: ShellAction)
    ensures
        action == tui_action_spec(line@),
{
    let command = trim(line);
    if starts_with(line, "verbose") {
        ShellAction::Verbose(verbose_request(line))
    } else if str_eq(command, "clear") {
        ShellAction::Clear
    } else if str_eq(command, "test") {
        ShellAction::Test
    } else if str_eq(command, "quit") || str_eq(command, "exit") {
        ShellAction::Quit
    } else if str_eq(command, "reconnect") {
        ShellAction::Reconnect
    } else {
        ShellAction::Run
    }
}

/// How the program was started.
#[derive(Clone, Copy, Debug, PartialEq, Eq, Structural)]
pub enum Mode {
    Query,
    Server,
    Interactive,
    Tui,
}

/// The level at which the terminal logger starts. The shells let
/// everything through and set what shows as they go; the terminal UI
/// brings its own logger and starts none; the server logs at `Info`, or
/// at `Debug` when asked to be verbose.
pub fn startup_level(mode: Mode, verbose: bool) -> (level: LogLevel)
    ensures
        level == (match mode {
            Mode::Query => LogLevel::Trace,
            Mode::Interactive => LogLevel::Trace,
            Mode::Tui => LogLevel::Off,
            Mode::Server => if verbose {
                LogLevel::Debug
            } else {
                LogLevel::Info
            },
        }),
{
    match mode {
        Mode::Query => LogLevel::Trace,
        Mode::Interactive => LogLevel::Trace,
        Mode::Tui => LogLevel::Off,
        Mode::Server => if verbose {
            LogLevel::Debug
        } else {
            LogLevel::Info
        },
    }
}

/// The rank of a level: the higher, the more is logged.
pub open spec fn level_rank(level: LogLevel) -> int {
    match level {
        LogLevel::Off => 0,
        LogLevel::Error => 1,
        LogLevel::Warn => 2,
        LogLevel::Info => 3,
        LogLevel::Debug => 4,
        LogLevel::Trace => 5,
    }
}

fn rank(level: LogLevel) -> (rank: u8)
    ensures
        rank == level_rank(level),
{
    match level {
        LogLevel::Off => 0,
        LogLevel::Error => 1,
        LogLevel::Warn => 2,
        LogLevel::Info => 3,
        LogLevel::Debug => 4,
        LogLevel::Trace => 5,
    }
}

/// Is a message of level `message` logged while the level is `current`?
pub fn level_enabled(message: LogLevel, current: LogLevel) -> (yes: bool)
    ensures
        yes == (level_rank(message) <= level_rank(current)),
{
    rank(message) <= rank(current)
}

/// The tag of a level in a log line, five characters wide.
pub open spec fn level_tag(level: LogLevel) -> Seq<char> {
    match level {
        LogLevel::Off => "OFF  "@,
        LogLevel::Error => "ERROR"@,
        LogLevel::Warn => "WARN "@,
        LogLevel::Info => "INFO "@,
        LogLevel::Debug => "DEBUG"@,
        LogLevel::Trace => "TRACE"@,
    }
}

/// A log line as the terminal UI shows it: the level in brackets, then
/// the message.
pub fn log_line(level: LogLevel, message: &str) -> (line: String)
    ensures
        line@ == "["@ + level_tag(level) + "] "@ + message@,
{
    let tag = match level {
        LogLevel::Off => "OFF  ",
        LogLevel::Error => "ERROR",
        LogLevel::Warn => "WARN ",
        LogLevel::Info => "INFO ",
        LogLevel::Debug => "DEBUG",
        LogLevel::Trace => "TRACE",
    };
    String::from_str("[").concat(tag).concat("] ").concat(message)
}

} // verus!
