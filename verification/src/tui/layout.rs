//! Where the terminal UI puts its windows and which lines they show.

use vstd::prelude::*;
use vstd::string::*;
use vstd::utf8::*;

use crate::text::decimal;
use crate::text::repeated;
use crate::text::spaces;
use crate::text::u64_to_string;
use crate::tui::app::MaximizedWindow;
use crate::tui::format_time;
use crate::tui::time_text;

verus! {

/// How much of the screen's height a window takes.
#[derive(Clone, Copy, Debug, PartialEq, Eq, Structural)]
pub enum PaneSize {
    /// At least this many rows, and whatever is left over.
    Min(u16),
    /// Exactly this many rows.
    Length(u16),
    /// This share of the height, in percent.
    Percentage(u16),
}

/// The windows from top to bottom, by their heights. A maximized window
/// shares the screen with the input line alone; otherwise the zones take
/// five rows, the events a quarter of the screen beside the zones and
/// three tenths without them, the output what is left, and the input
/// line three rows.
pub open spec fn layout_spec(maximized: MaximizedWindow, has_zones: bool, has_events: bool) -> Seq<
    PaneSize,
> {
    if maximized != MaximizedWindow::Normal {
        seq![PaneSize::Min(1), PaneSize::Length(3)]
    } else if has_zones && has_events {
        seq![PaneSize::Length(5), PaneSize::Percentage(25), PaneSize::Min(1), PaneSize::Length(3)]
    } else if has_zones {
        seq![PaneSize::Length(5), PaneSize::Min(1), PaneSize::Length(3)]
    } else if has_events {
        seq![PaneSize::Percentage(30), PaneSize::Min(1), PaneSize::Length(3)]
    } else {
        seq![PaneSize::Min(1), PaneSize::Length(3)]
    }
}

/// The windows from top to bottom, by their heights.
pub fn layout(maximized: MaximizedWindow, has_zones: bool, has_events: bool) -> (panes: Vec<
    PaneSize,
>)
    ensures
        panes@ == layout_spec(maximized, has_zones, has_events),
{
    let mut panes: Vec<PaneSize> = Vec::new();
    let normal = match maximized {
        MaximizedWindow::Normal => true,
        _ => false,
    };
    if normal && has_zones {
        panes.push(PaneSize::Length(5));
    }
    if normal && has_events {
        if has_zones {
            panes.push(PaneSize::Percentage(25));
        } else {
            panes.push(PaneSize::Percentage(30));
        }
    }
    panes.push(PaneSize::Min(1));
    panes.push(PaneSize::Length(3));
    assert(panes@ =~= layout_spec(maximized, has_zones, has_events));
    panes
}

/// Which pane of the layout each window is drawn in; a window that is
/// hidden has none.
#[derive(Clone, Copy, Debug, PartialEq, Eq, Structural)]
pub struct Panes {
    pub zones: Option<usize>,
    pub events: Option<usize>,
    pub output: Option<usize>,
    pub input: usize,
}

/// Which pane each window is drawn in. The zones window is hidden while
/// the events or the output fill the screen, the events window while the
/// output or the zones do, the output while the events or the zones do.
pub open spec fn panes_spec(maximized: MaximizedWindow, has_zones: bool, has_events: bool)
    -> Panes {
    let normal = maximized == MaximizedWindow::Normal;
    Panes {
        zones: if has_zones && (normal || maximized == MaximizedWindow::Zones) {
            Some(0)
        } else {
            None
        },
        events: if has_events && maximized == MaximizedWindow::Events {
            Some(0)
        } else if has_events && normal {
            if has_zones {
                Some(1)
            } else {
                Some(0)
            }
        } else {
            None
        },
        output: if maximized == MaximizedWindow::Output {
            Some(0)
        } else if normal {
            Some(((if has_zones { 1int } else { 0int }) + (if has_events { 1int } else { 0int }))
                as usize)
        } else {
            None
        },
        input: if normal {
            ((if has_zones { 1int } else { 0int }) + (if has_events { 1int } else { 0int }) + 1)
                as usize
        } else {
            1
        },
    }
}

/// Every window that is drawn is drawn in a pane of the layout.
pub proof fn law_windows_have_panes(maximized: MaximizedWindow, has_zones: bool, has_events: bool)
    ensures
        ({
            let panes = panes_spec(maximized, has_zones, has_events);
            let count = layout_spec(maximized, has_zones, has_events).len();
            &&& panes.input < count
            &&& panes.zones is Some ==> panes.zones->0 < count
            &&& panes.events is Some ==> panes.events->0 < count
            &&& panes.output is Some ==> panes.output->0 < count
        }),
{
}

/// Which pane each window is drawn in.
pub fn panes(maximized: MaximizedWindow, has_zones: bool, has_events: bool) -> (found: Panes)
    ensures
        found == panes_spec(maximized, has_zones, has_events),
{
    let above_output: usize = if has_zones {
        if has_events {
            2
        } else {
            1
        }
    } else if has_events {
        1
    } else {
        0
    };
    match maximized {
        MaximizedWindow::Normal => Panes {
            zones: if has_zones {
                Some(0)
            } else {
                None
            },
            events: if has_events {
                if has_zones {
                    Some(1)
                } else {
                    Some(0)
                }
            } else {
                None
            },
            output: Some(above_output),
            input: above_output + 1,
        },
        MaximizedWindow::Zones => Panes {
            zones: if has_zones {
                Some(0)
            } else {
                None
            },
            events: None,
            output: None,
            input: 1,
        },
        MaximizedWindow::Events => Panes {
            zones: None,
            events: if has_events {
                Some(0)
            } else {
                None
            },
            output: None,
            input: 1,
        },
        MaximizedWindow::Output => Panes { zones: None, events: None, output: Some(0), input: 1 },
    }
}

/// The lines on show and the place of the scroll bar.
#[derive(Clone, Copy, Debug, PartialEq, Eq, Structural)]
pub struct Window {
    /// The first line on show.
    pub start: usize,
    /// The line after the last line on show.
    pub end: usize,
    /// The line at which the scroll bar stands.
    pub position: usize,
}

/// `a - b`, or 0 when `b` is the larger.
pub open spec fn minus(a: usize, b: usize) -> usize {
    if a >= b {
        (a - b) as usize
    } else {
        0
    }
}

/// The lines on show of `total` lines in a window `height` rows high,
/// scrolled up by `offset` lines from the end.
pub open spec fn window_spec(total: usize, offset: usize, height: usize) -> Window {
    if total == 0 {
        Window { start: 0, end: 0, position: 0 }
    } else {
        let end = minus(total, offset);
        Window { start: minus(end, height), end, position: minus(end, 1) }
    }
}

/// The lines on show of `total` lines in a window `height` rows high,
/// scrolled up by `offset` lines from the end.
pub fn visible_window(total: usize, offset: usize, height: usize) -> (window: Window)
    ensures
        window == window_spec(total, offset, height),
        window.start <= window.end <= total,
        window.end - window.start <= height,
        total > 0 ==> window.position < total,
{
    if total == 0 {
        return Window { start: 0, end: 0, position: 0 };
    }
    let end: usize = if total >= offset {
        total - offset
    } else {
        0
    };
    let start: usize = if end >= height {
        end - height
    } else {
        0
    };
    let position: usize = if end >= 1 {
        end - 1
    } else {
        0
    };
    Window { start, end, position }
}

/// The number of bytes that a text takes in a string.
pub open spec fn byte_len(text: Seq<char>) -> usize {
    encode_utf8(text).len() as usize
}

/// The head of a zone's title line: the zone's name, and its state
/// centred on the middle of the window where there is room for that.
pub open spec fn title_head(zone_name: Seq<char>, state: Seq<char>, width: usize) -> Seq<char> {
    let title = "Zone: "@ + zone_name;
    let window_middle = width as int / 2;
    let state_middle = byte_len(state) as int / 2;
    let state_start = if window_middle >= state_middle {
        window_middle - state_middle
    } else {
        0
    };
    if state_start > byte_len(title) {
        title + repeated(" "@, (state_start - byte_len(title)) as nat) + state
    } else {
        title + "  "@ + state
    }
}

/// A zone's title line in a window `width` columns wide: the head, and
/// the position flush right where there is room for it, one space after
/// the head where there is room only for that, and left out otherwise.
pub open spec fn title_line(
    zone_name: Seq<char>,
    state: Seq<char>,
    position: Seq<char>,
    width: usize,
) -> Seq<char> {
    if width == 0 {
        "Zone: "@ + zone_name
    } else {
        let head = title_head(zone_name, state, width);
        if position.len() == 0 {
            head
        } else if byte_len(head) + 2 + byte_len(position) <= width {
            head + repeated(" "@, (width - byte_len(head) - byte_len(position)) as nat) + position
        } else if byte_len(head) + byte_len(position) + 1 <= width {
            head + " "@ + position
        } else {
            head
        }
    }
}

/// A zone's title line in a window `width` columns wide.
pub fn zone_title_line(zone_name: &str, state: &str, position: &str, width: usize) -> (line: String)
    ensures
        line@ == title_line(zone_name@, state@, position@, width),
{
    let title = String::from_str("Zone: ").concat(zone_name);
    if width == 0 {
        return title;
    }
    let window_middle: usize = width / 2;
    let state_middle: usize = state.len() / 2;
    let state_start: usize = if window_middle >= state_middle {
        window_middle - state_middle
    } else {
        0
    };
    let title_len: usize = title.as_str().len();
    assert(title_len == byte_len(title@));
    assert(state.len() == byte_len(state@));
    let head = if state_start > title_len {
        title.concat(spaces(state_start - title_len).as_str()).concat(state)
    } else {
        title.concat("  ").concat(state)
    };
    assert(head@ == title_head(zone_name@, state@, width));
    if position.is_empty() {
        return head;
    }
    let head_len: usize = head.as_str().len();
    let position_len: usize = position.len();
    assert(head_len == byte_len(head@));
    assert(position_len == byte_len(position@));
    if head_len <= width && position_len <= width - head_len && 2 <= width - head_len
        - position_len {
        head.concat(spaces(width - head_len - position_len).as_str()).concat(position)
    } else if head_len <= width && position_len <= width - head_len && 1 <= width - head_len
        - position_len {
        head.concat(" ").concat(position)
    } else {
        head
    }
}

/// The position of a zone as its title line shows it: position and
/// length as times, or nothing unless both are known.
pub open spec fn position_text(position: Option<i64>, length: Option<u32>) -> Seq<char> {
    match (position, length) {
        (Some(position), Some(length)) => time_text(position) + " / "@ + time_text(length as i64),
        _ => Seq::empty(),
    }
}

/// The position of a zone as its title line shows it.
pub fn zone_position_text(position: Option<i64>, length: Option<u32>) -> (text: String)
    ensures
        text@ == position_text(position, length),
{
    match (position, length) {
        (Some(position), Some(length)) => format_time(position).concat(" / ").concat(
            format_time(length as i64).as_str(),
        ),
        _ => String::new(),
    }
}

/// The text, or a dash in its place.
pub open spec fn or_dash(text: Option<Seq<char>>) -> Seq<char> {
    match text {
        Some(text) => text,
        None => "-"@,
    }
}

/// A zone's detail line: track, artist, album and format, a dash for
/// each that is not known.
pub open spec fn detail_line(
    track: Option<Seq<char>>,
    artist: Option<Seq<char>>,
    album: Option<Seq<char>>,
    format: Option<Seq<char>>,
) -> Seq<char> {
    "  Track: "@ + or_dash(track) + "  |  Artist: "@ + or_dash(artist) + "  |  Album: "@ + or_dash(
        album,
    ) + "  |  Format: "@ + or_dash(format)
}

fn text_or_dash(text: &Option<String>) -> (shown: String)
    ensures
        shown@ == or_dash(text.deep_view()),
{
    match text {
        Some(text) => text.clone(),
        None => String::from_str("-"),
    }
}

/// A zone's detail line.
pub fn zone_detail_line(
    track: &Option<String>,
    artist: &Option<String>,
    album: &Option<String>,
    format: &Option<String>,
) -> (line: String)
    ensures
        line@ == detail_line(
            track.deep_view(),
            artist.deep_view(),
            album.deep_view(),
            format.deep_view(),
        ),
{
    String::from_str("  Track: ").concat(text_or_dash(track).as_str()).concat(
        "  |  Artist: ",
    ).concat(text_or_dash(artist).as_str()).concat("  |  Album: ").concat(
        text_or_dash(album).as_str(),
    ).concat("  |  Format: ").concat(text_or_dash(format).as_str())
}

/// The title of the output window: it says how far the output is
/// scrolled up, when it is.
pub open spec fn output_title_spec(offset: usize) -> Seq<char> {
    if offset > 0 {
        "Output (\u{2191}"@ + decimal(offset as nat) + " lines)"@
    } else {
        "Output"@
    }
}

/// The title of the output window.
pub fn output_title(offset: usize) -> (title: String)
    ensures
        title@ == output_title_spec(offset),
{
    if offset > 0 {
        String::from_str("Output (\u{2191}").concat(u64_to_string(offset as u64).as_str()).concat(
            " lines)",
        )
    } else {
        String::from_str("Output")
    }
}

/// The title of the events window: it says how far the events are
/// scrolled up, when they are, and how to scroll them.
pub open spec fn events_title_spec(offset: usize) -> Seq<char> {
    if offset > 0 {
        "Roon Events (\u{2191}"@ + decimal(offset as nat)
            + " lines, Alt+\u{2191}/\u{2193} to scroll)"@
    } else {
        "Roon Events (Alt+\u{2191}/\u{2193} to scroll)"@
    }
}

/// The title of the events window.
pub fn events_title(offset: usize) -> (title: String)
    ensures
        title@ == events_title_spec(offset),
{
    if offset > 0 {
        String::from_str("Roon Events (\u{2191}").concat(
            u64_to_string(offset as u64).as_str(),
        ).concat(" lines, Alt+\u{2191}/\u{2193} to scroll)")
    } else {
        String::from_str("Roon Events (Alt+\u{2191}/\u{2193} to scroll)")
    }
}

/// The column of the cursor in the input window: after the window's
/// border, the prompt and the input before the cursor; the last column
/// there is when that lies beyond it.
pub open spec fn cursor_column_spec(x: u16, prompt_len: usize, cursor: usize) -> u16 {
    let column = x as int + prompt_len as int + cursor as int + 1;
    if column > u16::MAX {
        u16::MAX
    } else {
        column as u16
    }
}

/// The column of the cursor in the input window.
pub fn cursor_column(x: u16, prompt_len: usize, cursor: usize) -> (column: u16)
    ensures
        column == cursor_column_spec(x, prompt_len, cursor),
{
    let wide: u128 = x as u128 + prompt_len as u128 + cursor as u128 + 1;
    if wide > 65535 {
        u16::MAX
    } else {
        wide as u16
    }
}

} // verus!
