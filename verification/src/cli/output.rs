//! The lines that the shell writes about the core and its zones.

use vstd::prelude::*;
use vstd::string::*;

use crate::cli::duration_text;
use crate::cli::format_duration;
use crate::roon::queue::QueueItem;
use crate::roon::queue::QueueItemView;
use crate::roon::zone::Output;
use crate::roon::zone::OutputView;
use crate::roon::zone::State;
use crate::roon::zone::Zone;
use crate::roon::zone::ZoneView;
use crate::text::decimal;
use crate::text::repeated;
use crate::text::spaces;
use crate::text::str_eq;
use crate::text::u64_to_string;

verus! {

/// The rule under a heading.
pub open spec fn rule() -> Seq<char> {
    "  \u{2500}\u{2500}\u{2500}\u{2500}\u{2500}\u{2500}\u{2500}\u{2500}\u{2500}\u{2500}\u{2500}\u{2500}\u{2500}\u{2500}\u{2500}\u{2500}\u{2500}\u{2500}\u{2500}\u{2500}\u{2500}\u{2500}\u{2500}\u{2500}\u{2500}\u{2500}\u{2500}\u{2500}\u{2500}\u{2500}\u{2500}\u{2500}\u{2500}\u{2500}\u{2500}\u{2500}\u{2500}"@
}

fn rule_line() -> (line: String)
    ensures
        line@ == rule(),
{
    String::from_str(
        "  \u{2500}\u{2500}\u{2500}\u{2500}\u{2500}\u{2500}\u{2500}\u{2500}\u{2500}\u{2500}\u{2500}\u{2500}\u{2500}\u{2500}\u{2500}\u{2500}\u{2500}\u{2500}\u{2500}\u{2500}\u{2500}\u{2500}\u{2500}\u{2500}\u{2500}\u{2500}\u{2500}\u{2500}\u{2500}\u{2500}\u{2500}\u{2500}\u{2500}\u{2500}\u{2500}\u{2500}\u{2500}",
    )
}

/// A state in lower case, as the shell names it.
pub open spec fn state_word_spec(state: State) -> Seq<char> {
    match state {
        State::Playing => "playing"@,
        State::Paused => "paused"@,
        State::Loading => "loading"@,
        State::Stopped => "stopped"@,
    }
}

/// A state in lower case, as the shell names it.
pub fn state_word(state: State) -> (word: &'static str)
    ensures
        word@ == state_word_spec(state),
{
    match state {
        State::Playing => "playing",
        State::Paused => "paused",
        State::Loading => "loading",
        State::Stopped => "stopped",
    }
}

/// The lines of the connection status.
pub open spec fn status_lines_spec(connected: bool, core_name: Option<Seq<char>>) -> Seq<
    Seq<char>,
> {
    if connected {
        match core_name {
            Some(name) => seq![""@, "  Status: Connected"@, "  Core:   "@ + name, ""@],
            None => seq![""@, "  Status: Connected"@, ""@],
        }
    } else {
        seq![
            ""@,
            "  Status: Not connected"@,
            ""@,
            "  Authorize the extension in Roon Settings > Extensions"@,
            ""@,
        ]
    }
}

/// The lines of the connection status.
pub fn status_lines(connected: bool, core_name: &Option<String>) -> (lines: Vec<String>)
    ensures
        lines.deep_view() == status_lines_spec(connected, core_name.deep_view()),
{
    let mut lines: Vec<String> = Vec::new();
    lines.push(String::from_str(""));
    if connected {
        lines.push(String::from_str("  Status: Connected"));
        match core_name {
            Some(name) => {
                lines.push(String::from_str("  Core:   ").concat(name.as_str()));
            },
            None => {},
        }
    } else {
        lines.push(String::from_str("  Status: Not connected"));
        lines.push(String::from_str(""));
        lines.push(String::from_str("  Authorize the extension in Roon Settings > Extensions"));
    }
    lines.push(String::from_str(""));
    assert(lines.deep_view() =~= status_lines_spec(connected, core_name.deep_view()));
    lines
}

/// The lines that say that there are no zones, and why: the core is not
/// connected, or, where `explain` asks for it, it is but has no zones.
pub open spec fn no_zones_lines_spec(connected: bool, explain: bool) -> Seq<Seq<char>> {
    if !connected {
        seq![
            ""@,
            "  No zones found."@,
            "  Not connected to Roon Core. Please authorize the extension."@,
            ""@,
        ]
    } else if explain {
        seq![""@, "  No zones found."@, "  Connected but no active zones."@, ""@]
    } else {
        seq![""@, "  No zones found."@, ""@]
    }
}

/// The lines that say that there are no zones, and why.
pub fn no_zones_lines(connected: bool, explain: bool) -> (lines: Vec<String>)
    ensures
        lines.deep_view() == no_zones_lines_spec(connected, explain),
{
    let mut lines: Vec<String> = Vec::new();
    lines.push(String::from_str(""));
    lines.push(String::from_str("  No zones found."));
    if !connected {
        lines.push(
            String::from_str("  Not connected to Roon Core. Please authorize the extension."),
        );
    } else if explain {
        lines.push(String::from_str("  Connected but no active zones."));
    }
    lines.push(String::from_str(""));
    assert(lines.deep_view() =~= no_zones_lines_spec(connected, explain));
    lines
}

/// The heading of a zone: its name, and its state in parentheses.
pub open spec fn zone_heading(zone: ZoneView) -> Seq<char> {
    "  "@ + zone.display_name + " ("@ + state_word_spec(zone.state) + ")"@
}

fn heading(zone: &Zone) -> (line: String)
    ensures
        line@ == zone_heading(zone@),
{
    String::from_str("  ").concat(zone.display_name.as_str()).concat(" (").concat(
        state_word(zone.state),
    ).concat(")")
}

/// The lines of the outputs of a zone: one for each output that is not
/// named like the zone itself.
pub open spec fn output_lines(outputs: Seq<OutputView>, zone_name: Seq<char>) -> Seq<Seq<char>>
    decreases outputs.len(),
{
    if outputs.len() == 0 {
        Seq::empty()
    } else if outputs.last().display_name != zone_name {
        output_lines(outputs.drop_last(), zone_name).push(
            "    \u{2514}\u{2500} "@ + outputs.last().display_name,
        )
    } else {
        output_lines(outputs.drop_last(), zone_name)
    }
}

/// The lines of one zone in the list of zones: heading, identifier, and
/// outputs.
pub open spec fn zone_entry(zone: ZoneView) -> Seq<Seq<char>> {
    seq![zone_heading(zone), "    ID: "@ + zone.zone_id] + output_lines(
        zone.outputs,
        zone.display_name,
    )
}

/// The lines of the zones, one entry after the other.
pub open spec fn zone_entries(zones: Seq<ZoneView>) -> Seq<Seq<char>>
    decreases zones.len(),
{
    if zones.len() == 0 {
        Seq::empty()
    } else {
        zone_entries(zones.drop_last()) + zone_entry(zones.last())
    }
}

/// The list of zones as the shell writes it, between two empty lines.
pub open spec fn zone_lines_spec(zones: Seq<ZoneView>) -> Seq<Seq<char>> {
    seq![""@] + zone_entries(zones) + seq![""@]
}

fn push_outputs(lines: &mut Vec<String>, outputs: &Vec<Output>, zone_name: &str)
    ensures
        final(lines).deep_view() == old(lines).deep_view() + output_lines(
            outputs.deep_view(),
            zone_name@,
        ),
{
    let ghost before = lines.deep_view();
    let mut i: usize = 0;
    assert(outputs.deep_view().take(0) =~= Seq::<OutputView>::empty());
    assert(lines.deep_view() =~= before + output_lines(outputs.deep_view().take(0), zone_name@));
    while i < outputs.len()
        invariant
            i <= outputs.len(),
            lines.deep_view() == before + output_lines(
                outputs.deep_view().take(i as int),
                zone_name@,
            ),
        decreases outputs.len() - i,
    {
        proof {
            let upto = outputs.deep_view().take(i + 1);
            assert(upto.drop_last() =~= outputs.deep_view().take(i as int));
            assert(upto.last() == outputs[i as int]@);
        }
        if !str_eq(outputs[i].display_name.as_str(), zone_name) {
            let ghost so_far = lines.deep_view();
            let line = String::from_str("    \u{2514}\u{2500} ").concat(
                outputs[i].display_name.as_str(),
            );
            lines.push(line);
            assert(lines.deep_view() =~= so_far.push(line@));
            assert(lines.deep_view() =~= before + output_lines(
                outputs.deep_view().take(i + 1),
                zone_name@,
            ));
        }
        i += 1;
    }
    assert(outputs.deep_view().take(outputs.len() as int) =~= outputs.deep_view());
}

/// The list of zones as the shell writes it.
pub fn zone_lines(zones: &Vec<Zone>) -> (lines: Vec<String>)
    ensures
        lines.deep_view() == zone_lines_spec(zones.deep_view()),
{
    let mut lines: Vec<String> = Vec::new();
    lines.push(String::from_str(""));
    let mut i: usize = 0;
    assert(zones.deep_view().take(0) =~= Seq::<ZoneView>::empty());
    assert(lines.deep_view() =~= seq![""@] + zone_entries(zones.deep_view().take(0)));
    while i < zones.len()
        invariant
            i <= zones.len(),
            lines.deep_view() == seq![""@] + zone_entries(zones.deep_view().take(i as int)),
        decreases zones.len() - i,
    {
        proof {
            let upto = zones.deep_view().take(i + 1);
            assert(upto.drop_last() =~= zones.deep_view().take(i as int));
            assert(upto.last() == zones[i as int]@);
        }
        let ghost so_far = lines.deep_view();
        let zone = &zones[i];
        let first = heading(zone);
        let second = String::from_str("    ID: ").concat(zone.zone_id.as_str());
        lines.push(first);
        lines.push(second);
        push_outputs(&mut lines, &zone.outputs, zone.display_name.as_str());
        assert(lines.deep_view() =~= so_far + zone_entry(zone@));
        assert(lines.deep_view() =~= seq![""@] + zone_entries(zones.deep_view().take(i + 1)));
        i += 1;
    }
    assert(zones.deep_view().take(zones.len() as int) =~= zones.deep_view());
    let ghost listed = lines.deep_view();
    lines.push(String::from_str(""));
    assert(lines.deep_view() =~= listed + seq![""@]);
    lines
}

/// The lines of what a zone plays: heading, rule, and the lines of the
/// track that are not empty, the first always. A zone that plays nothing
/// has none.
pub open spec fn track_lines_spec(zone: ZoneView) -> Seq<Seq<char>> {
    match zone.now_playing {
        None => Seq::empty(),
        Some(playing) => {
            let first = seq![zone_heading(zone), rule(), "    "@ + playing.line1];
            let second = if playing.line2.len() > 0 {
                first.push("    "@ + playing.line2)
            } else {
                first
            };
            if playing.line3.len() > 0 {
                second.push("    "@ + playing.line3)
            } else {
                second
            }
        },
    }
}

/// The lines of what a zone plays.
pub fn track_lines(zone: &Zone) -> (lines: Vec<String>)
    ensures
        lines.deep_view() == track_lines_spec(zone@),
{
    let mut lines: Vec<String> = Vec::new();
    match &zone.now_playing {
        None => {
            assert(lines.deep_view() =~= Seq::<Seq<char>>::empty());
        },
        Some(playing) => {
            lines.push(heading(zone));
            lines.push(rule_line());
            lines.push(String::from_str("    ").concat(playing.line1.as_str()));
            if !playing.line2.as_str().is_empty() {
                lines.push(String::from_str("    ").concat(playing.line2.as_str()));
            }
            if !playing.line3.as_str().is_empty() {
                lines.push(String::from_str("    ").concat(playing.line3.as_str()));
            }
            assert(lines.deep_view() =~= track_lines_spec(zone@));
        },
    }
    lines
}

/// The position within a track that the shell shows: the position that
/// the zone reports, cut to 32 bits as a number without sign, or the
/// start when it reports none.
pub open spec fn shown_position(seek_position: Option<i64>) -> u32 {
    match seek_position {
        Some(position) => ((position + 0x8000_0000_0000_0000) % 0x1_0000_0000) as u32,
        None => 0,
    }
}

/// The position within a track that the shell shows.
pub fn track_position(seek_position: Option<i64>) -> (position: u32)
    ensures
        position == shown_position(seek_position),
{
    match seek_position {
        Some(position) => {
            let shifted: i128 = position as i128 + 0x8000_0000_0000_0000;
            (shifted % 0x1_0000_0000) as u32
        },
        None => 0,
    }
}

/// The line of the progress of a track: the bar, then position and
/// length as durations.
pub fn progress_line(bar: &str, position: u32, length: u32) -> (line: String)
    ensures
        line@ == "    "@ + bar@ + " "@ + duration_text(position) + " / "@ + duration_text(length),
{
    String::from_str("    ").concat(bar).concat(" ").concat(
        format_duration(position).as_str(),
    ).concat(" / ").concat(format_duration(length).as_str())
}

/// A number flush right in three places, with a full stop after it.
pub open spec fn item_number(number: usize) -> Seq<char> {
    let numeral = decimal(number as nat);
    let pad: nat = if numeral.len() < 3 {
        (3 - numeral.len()) as nat
    } else {
        0
    };
    repeated(" "@, pad) + numeral + "."@
}

/// The lines of one item of a queue: its number and first line, its
/// second line if it has one, its duration if it has one, and an empty
/// line.
pub open spec fn queue_item_lines(number: usize, item: QueueItemView) -> Seq<Seq<char>> {
    let first = seq!["  "@ + item_number(number) + " "@ + item.two_line_1];
    let second = if item.two_line_2.len() > 0 {
        first.push("       "@ + item.two_line_2)
    } else {
        first
    };
    let third = if item.length > 0 {
        second.push("       Duration: "@ + duration_text(item.length))
    } else {
        second
    };
    third.push(""@)
}

/// The lines of the items of a queue, numbered from one.
pub open spec fn queue_items_lines(items: Seq<QueueItemView>) -> Seq<Seq<char>>
    decreases items.len(),
{
    if items.len() == 0 {
        Seq::empty()
    } else {
        queue_items_lines(items.drop_last()) + queue_item_lines(
            items.len() as usize,
            items.last(),
        )
    }
}

/// The line of the number of tracks in a queue.
pub open spec fn total_line(count: usize) -> Seq<char> {
    "  Total: "@ + decimal(count as nat) + (if count == 1 {
        " track"@
    } else {
        " tracks"@
    })
}

/// The lines of the queue of a zone: a heading with the zone's name,
/// then the items and their number, or a line that says that the queue
/// is empty or could not be had.
pub open spec fn queue_lines_spec(zone_name: Seq<char>, queue: Option<Seq<QueueItemView>>) -> Seq<
    Seq<char>,
> {
    let head = seq![""@, "  Queue for: "@ + zone_name, rule(), ""@];
    match queue {
        None => head + seq!["  Could not retrieve queue."@, ""@],
        Some(items) => if items.len() == 0 {
            head + seq!["  Queue is empty."@, ""@]
        } else {
            head + queue_items_lines(items) + seq![total_line(items.len() as usize), ""@]
        },
    }
}

fn number_text(number: usize) -> (text: String)
    ensures
        text@ == item_number(number),
{
    let numeral = u64_to_string(number as u64);
    let length = numeral.as_str().unicode_len();
    let pad: usize = if length < 3 {
        3 - length
    } else {
        0
    };
    spaces(pad).concat(numeral.as_str()).concat(".")
}

fn push_item(lines: &mut Vec<String>, number: usize, item: &QueueItem)
    ensures
        final(lines).deep_view() == old(lines).deep_view() + queue_item_lines(number, item@),
{
    let ghost before = lines.deep_view();
    lines.push(
        String::from_str("  ").concat(number_text(number).as_str()).concat(" ").concat(
            item.two_line_1.as_str(),
        ),
    );
    if !item.two_line_2.as_str().is_empty() {
        lines.push(String::from_str("       ").concat(item.two_line_2.as_str()));
    }
    if item.length > 0 {
        lines.push(
            String::from_str("       Duration: ").concat(format_duration(item.length).as_str()),
        );
    }
    lines.push(String::from_str(""));
    assert(lines.deep_view() =~= before + queue_item_lines(number, item@));
}

/// The lines of the queue of a zone.
pub fn queue_lines(zone_name: &str, queue: &Option<Vec<QueueItem>>) -> (lines: Vec<String>)
    ensures
        lines.deep_view() == queue_lines_spec(zone_name@, queue.deep_view()),
{
    let mut lines: Vec<String> = Vec::new();
    lines.push(String::from_str(""));
    lines.push(String::from_str("  Queue for: ").concat(zone_name));
    lines.push(rule_line());
    lines.push(String::from_str(""));
    let ghost head = lines.deep_view();
    assert(head =~= seq![""@, "  Queue for: "@ + zone_name@, rule(), ""@]);
    match queue {
        None => {
            lines.push(String::from_str("  Could not retrieve queue."));
            lines.push(String::from_str(""));
            assert(lines.deep_view() =~= head + seq!["  Could not retrieve queue."@, ""@]);
        },
        Some(items) => {
            if items.len() == 0 {
                lines.push(String::from_str("  Queue is empty."));
                lines.push(String::from_str(""));
                assert(lines.deep_view() =~= head + seq!["  Queue is empty."@, ""@]);
            } else {
                let mut i: usize = 0;
                assert(items.deep_view().take(0) =~= Seq::<QueueItemView>::empty());
                assert(lines.deep_view() =~= head + queue_items_lines(items.deep_view().take(0)));
                while i < items.len()
                    invariant
                        i <= items.len(),
                        lines.deep_view() == head + queue_items_lines(
                            items.deep_view().take(i as int),
                        ),
                    decreases items.len() - i,
                {
                    proof {
                        let upto = items.deep_view().take(i + 1);
                        assert(upto.drop_last() =~= items.deep_view().take(i as int));
                        assert(upto.last() == items[i as int]@);
                        assert(upto.len() == i + 1);
                    }
                    let ghost so_far = lines.deep_view();
                    push_item(&mut lines, i + 1, &items[i]);
                    assert(lines.deep_view() =~= head + queue_items_lines(
                        items.deep_view().take(i + 1),
                    ));
                    i += 1;
                }
                assert(items.deep_view().take(items.len() as int) =~= items.deep_view());
                let ghost listed = lines.deep_view();
                let count = items.len();
                let total = String::from_str("  Total: ").concat(
                    u64_to_string(count as u64).as_str(),
                ).concat(
                    if count == 1 {
                        " track"
                    } else {
                        " tracks"
                    },
                );
                lines.push(total);
                lines.push(String::from_str(""));
                assert(lines.deep_view() =~= listed + seq![total_line(count), ""@]);
            }
        },
    }
    lines
}

} // verus!
