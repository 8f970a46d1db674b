//! The terminal UI's input line: editing, history, completion, scrolling
//! and the maximized window, as a state machine over key presses.

use vstd::prelude::*;
use vstd::string::*;

use crate::text::char_to_string;
use crate::text::sort_texts;
use crate::text::sorted_texts;
use crate::text::starts_with;
use crate::text::trim_start;
use crate::text::trimmed_start;

verus! {

/// A key.
#[derive(Clone, Copy, Debug, PartialEq, Eq, Structural)]
pub enum KeyCode {
    Esc,
    Enter,
    Tab,
    Backspace,
    Delete,
    Left,
    Right,
    Home,
    End,
    Up,
    Down,
    PageUp,
    PageDown,
    Char(char),
    Other,
}

/// The modifier keys held with a key: none (plain), exactly one of shift, control
/// and alt, or any other combination.
#[derive(Clone, Copy, Debug, PartialEq, Eq, Structural)]
pub enum Modifiers {
    Plain,
    Shift,
    Control,
    Alt,
    Other,
}

/// A key press.
#[derive(Clone, Copy, Debug, PartialEq, Eq, Structural)]
pub struct KeyEvent {
    pub code: KeyCode,
    pub modifiers: Modifiers,
}

/// Which window fills the screen; none does in the normal layout.
#[derive(Clone, Copy, Debug, PartialEq, Eq, Structural)]
pub enum MaximizedWindow {
    Normal,
    Zones,
    Events,
    Output,
}

/// A rectangle of the screen.
#[derive(Clone, Copy, Debug, PartialEq, Eq, Structural)]
pub struct Rect {
    pub x: u16,
    pub y: u16,
    pub width: u16,
    pub height: u16,
}

/// The state of the input line and of what is scrolled and maximized.
#[derive(Debug)]
pub struct App {
    input: String,
    cursor_position: usize,
    history: Vec<String>,
    history_position: Option<usize>,
    should_exit: bool,
    scroll_offset: usize,
    event_scroll_offset: usize,
    commands: Vec<String>,
    completion_candidates: Vec<String>,
    completion_index: Option<usize>,
    maximized_window: MaximizedWindow,
}

pub struct AppView {
    pub input: Seq<char>,
    pub cursor_position: usize,
    pub history: Seq<Seq<char>>,
    pub history_position: Option<usize>,
    pub should_exit: bool,
    pub scroll_offset: usize,
    pub event_scroll_offset: usize,
    pub commands: Seq<Seq<char>>,
    pub completion_candidates: Seq<Seq<char>>,
    pub completion_index: Option<usize>,
    pub maximized_window: MaximizedWindow,
}

impl View for App {
    type V = AppView;

    closed spec fn view(&self) -> AppView {
        AppView {
            input: self.input@,
            cursor_position: self.cursor_position,
            history: self.history.deep_view(),
            history_position: self.history_position,
            should_exit: self.should_exit,
            scroll_offset: self.scroll_offset,
            event_scroll_offset: self.event_scroll_offset,
            commands: self.commands.deep_view(),
            completion_candidates: self.completion_candidates.deep_view(),
            completion_index: self.completion_index,
            maximized_window: self.maximized_window,
        }
    }
}

impl AppView {
    /// The cursor lies within the input, history is browsed at an entry
    /// that exists, and completion stands at a candidate that exists.
    pub open spec fn wf(self) -> bool {
        &&& self.cursor_position <= self.input.len()
        &&& self.input.len() <= usize::MAX
        &&& match self.history_position {
            Some(at) => at < self.history.len(),
            None => true,
        }
        &&& match self.completion_index {
            Some(at) => at < self.completion_candidates.len(),
            None => true,
        }
    }
}

/// The commands that begin with `prefix`, in their order.
pub open spec fn matching(commands: Seq<Seq<char>>, prefix: Seq<char>) -> Seq<Seq<char>>
    decreases commands.len(),
{
    if commands.len() == 0 {
        Seq::empty()
    } else if prefix.is_prefix_of(commands.last()) {
        matching(commands.drop_last(), prefix).push(commands.last())
    } else {
        matching(commands.drop_last(), prefix)
    }
}

/// The state without a completion under way.
pub open spec fn reset_completion(app: AppView) -> AppView {
    AppView { completion_candidates: Seq::empty(), completion_index: None, ..app }
}

/// The state with `text` in the input line and the cursor at its end.
pub open spec fn with_input(app: AppView, text: Seq<char>) -> AppView {
    AppView { input: text, cursor_position: text.len() as usize, ..app }
}

/// One step back in the history.
pub open spec fn history_previous(app: AppView) -> AppView {
    if app.history.len() == 0 {
        app
    } else {
        let at: usize = match app.history_position {
            None => (app.history.len() - 1) as usize,
            Some(at) => if at == 0 {
                0
            } else {
                (at - 1) as usize
            },
        };
        AppView { history_position: Some(at), ..with_input(app, app.history[at as int]) }
    }
}

/// One step forward in the history; past its end the input is empty.
pub open spec fn history_next(app: AppView) -> AppView {
    match app.history_position {
        None => app,
        Some(at) => if at + 1 < app.history.len() {
            AppView {
                history_position: Some((at + 1) as usize),
                ..with_input(app, app.history[at + 1])
            }
        } else {
            AppView { history_position: None, ..with_input(app, Seq::empty()) }
        },
    }
}

/// The state after the input has been submitted.
pub open spec fn submitted(app: AppView) -> AppView {
    let history = if app.input.len() > 0 {
        app.history.push(app.input)
    } else {
        app.history
    };
    reset_completion(
        AppView { history, history_position: None, ..with_input(app, Seq::empty()) },
    )
}

/// The state after a completion step: the first step finds and sorts the
/// candidates and takes the first, each further step takes the next, and
/// after the last the first again.
pub open spec fn completed(app: AppView) -> AppView {
    match app.completion_index {
        None => {
            let prefix = trimmed_start(app.input);
            let found = if prefix.len() == 0 {
                app.commands
            } else {
                matching(app.commands, prefix)
            };
            let candidates = sorted_texts(found);
            if candidates.len() == 0 {
                AppView { completion_candidates: candidates, ..app }
            } else {
                AppView {
                    completion_candidates: candidates,
                    completion_index: Some(0),
                    ..with_input(app, candidates[0])
                }
            }
        },
        Some(at) => {
            let next = ((at + 1) % (app.completion_candidates.len() as int)) as usize;
            AppView {
                completion_index: Some(next),
                ..with_input(app, app.completion_candidates[next as int])
            }
        },
    }
}

/// The largest offset to which a list of `total` lines scrolls.
pub open spec fn last_offset(total: usize) -> usize {
    if total == 0 {
        0
    } else {
        (total - 1) as usize
    }
}

/// The state after the output has scrolled up by a page of ten lines.
pub open spec fn paged_up(app: AppView, total: usize) -> AppView {
    let wanted = if app.scroll_offset > usize::MAX - 10 {
        usize::MAX
    } else {
        (app.scroll_offset + 10) as usize
    };
    AppView {
        scroll_offset: if wanted < last_offset(total) {
            wanted
        } else {
            last_offset(total)
        },
        ..app
    }
}

/// What a key press makes of the state. `total_messages` is the number of
/// output lines, `total_event_lines` the number of event lines when the
/// events window exists.
pub open spec fn after_key(
    app: AppView,
    key: KeyEvent,
    total_messages: usize,
    total_event_lines: Option<usize>,
) -> AppView {
    let control = key.modifiers == Modifiers::Control;
    let alt = key.modifiers == Modifiers::Alt;
    match key.code {
        KeyCode::Esc => reset_completion(AppView { maximized_window: MaximizedWindow::Normal, ..app }),
        KeyCode::Enter => submitted(app),
        KeyCode::Tab => completed(app),
        KeyCode::Backspace => reset_completion(
            if app.cursor_position > 0 {
                AppView {
                    input: app.input.remove(app.cursor_position - 1),
                    cursor_position: (app.cursor_position - 1) as usize,
                    ..app
                }
            } else {
                app
            },
        ),
        KeyCode::Delete => reset_completion(
            if app.cursor_position < app.input.len() {
                AppView { input: app.input.remove(app.cursor_position as int), ..app }
            } else {
                app
            },
        ),
        KeyCode::Left => reset_completion(
            if app.cursor_position > 0 {
                AppView { cursor_position: (app.cursor_position - 1) as usize, ..app }
            } else {
                app
            },
        ),
        KeyCode::Right => reset_completion(
            if app.cursor_position < app.input.len() {
                AppView { cursor_position: (app.cursor_position + 1) as usize, ..app }
            } else {
                app
            },
        ),
        KeyCode::Home => if control {
            if total_messages > 0 {
                AppView { scroll_offset: last_offset(total_messages), ..app }
            } else {
                app
            }
        } else {
            AppView { cursor_position: 0, ..app }
        },
        KeyCode::End => if control {
            AppView { scroll_offset: 0, ..app }
        } else {
            AppView { cursor_position: app.input.len() as usize, ..app }
        },
        KeyCode::Up => if control {
            reset_completion(history_previous(app))
        } else if alt {
            match total_event_lines {
                Some(lines) => if app.event_scroll_offset < last_offset(lines) {
                    AppView {
                        event_scroll_offset: (app.event_scroll_offset + 1) as usize,
                        ..app
                    }
                } else {
                    app
                },
                None => app,
            }
        } else if app.scroll_offset < last_offset(total_messages) {
            AppView { scroll_offset: (app.scroll_offset + 1) as usize, ..app }
        } else {
            app
        },
        KeyCode::Down => if control {
            reset_completion(history_next(app))
        } else if alt {
            if app.event_scroll_offset > 0 {
                AppView { event_scroll_offset: (app.event_scroll_offset - 1) as usize, ..app }
            } else {
                app
            }
        } else if app.scroll_offset > 0 {
            AppView { scroll_offset: (app.scroll_offset - 1) as usize, ..app }
        } else {
            app
        },
        KeyCode::PageUp => paged_up(app, total_messages),
        KeyCode::PageDown => AppView {
            scroll_offset: if app.scroll_offset >= 10 {
                (app.scroll_offset - 10) as usize
            } else {
                0
            },
            ..app
        },
        KeyCode::Char(c) => if control && (c == 'c' || c == 'd') {
            reset_completion(AppView { should_exit: true, ..app })
        } else if control && c == 'p' {
            reset_completion(history_previous(app))
        } else if control && c == 'n' {
            reset_completion(history_next(app))
        } else if (key.modifiers == Modifiers::Plain || key.modifiers == Modifiers::Shift)
            && app.input.len() < usize::MAX {
            reset_completion(
                AppView {
                    input: app.input.insert(app.cursor_position as int, c),
                    cursor_position: (app.cursor_position + 1) as usize,
                    ..app
                },
            )
        } else {
            app
        },
        KeyCode::Other => app,
    }
}

/// The command that a key press submits: the input line, on Enter.
pub open spec fn command_of(app: AppView, key: KeyEvent) -> Option<Seq<char>> {
    if key.code == KeyCode::Enter {
        Some(app.input)
    } else {
        None
    }
}

/// Does the click at (`row`, `column`) fall on the title bar of `area`,
/// which is its top row?
pub open spec fn on_title(area: Option<Rect>, row: u16, column: u16) -> bool {
    match area {
        Some(rect) => row == rect.y && rect.x <= column && column < rect.x + rect.width,
        None => false,
    }
}

/// The window that fills the screen after a click on the title of
/// `window`: that window, or none if it filled the screen already.
pub open spec fn toggled(current: MaximizedWindow, window: MaximizedWindow) -> MaximizedWindow {
    if current == window {
        MaximizedWindow::Normal
    } else {
        window
    }
}

/// The window that fills the screen after a mouse event. Only a press of
/// the left button on a title bar changes it; the zones window is looked
/// at first, then the events window, then the output window.
pub open spec fn after_click(
    current: MaximizedWindow,
    left_down: bool,
    row: u16,
    column: u16,
    zone_area: Option<Rect>,
    event_area: Option<Rect>,
    output_area: Option<Rect>,
) -> MaximizedWindow {
    if !left_down {
        current
    } else if on_title(zone_area, row, column) {
        toggled(current, MaximizedWindow::Zones)
    } else if on_title(event_area, row, column) {
        toggled(current, MaximizedWindow::Events)
    } else if on_title(output_area, row, column) {
        toggled(current, MaximizedWindow::Output)
    } else {
        current
    }
}

fn title_hit(area: Option<Rect>, row: u16, column: u16) -> (hit: bool)
    ensures
        hit == on_title(area, row, column),
{
    match area {
        Some(rect) => {
            let right: u32 = rect.x as u32 + rect.width as u32;
            row == rect.y && rect.x <= column && (column as u32) < right
        },
        None => false,
    }
}

impl App {
    /// The state's invariant.
    pub open spec fn wf(&self) -> bool {
        self@.wf()
    }

    /// A fresh input line with the given history and the commands that
    /// completion knows.
    pub fn new(history: Vec<String>, commands: Vec<String>) -> (app: Self)
        ensures
            app.wf(),
            app@ == (AppView {
                input: Seq::empty(),
                cursor_position: 0,
                history: history.deep_view(),
                history_position: None,
                should_exit: false,
                scroll_offset: 0,
                event_scroll_offset: 0,
                commands: commands.deep_view(),
                completion_candidates: Seq::empty(),
                completion_index: None,
                maximized_window: MaximizedWindow::Normal,
            }),
    {
        let app = App {
            input: String::new(),
            cursor_position: 0,
            history,
            history_position: None,
            should_exit: false,
            scroll_offset: 0,
            event_scroll_offset: 0,
            commands,
            completion_candidates: Vec::new(),
            completion_index: None,
            maximized_window: MaximizedWindow::Normal,
        };
        assert(app.completion_candidates.deep_view() =~= Seq::<Seq<char>>::empty());
        app
    }

    /// Has the user asked to leave?
    pub fn should_exit(&self) -> (exit: bool)
        ensures
            exit == self@.should_exit,
    {
        self.should_exit
    }

    /// The input line.
    pub fn input(&self) -> (text: &String)
        ensures
            text@ == self@.input,
    {
        &self.input
    }

    /// The place of the cursor in the input line, in characters.
    pub fn cursor_position(&self) -> (at: usize)
        ensures
            at == self@.cursor_position,
    {
        self.cursor_position
    }

    /// The command history, the oldest entry first.
    pub fn history(&self) -> (history: &Vec<String>)
        ensures
            history.deep_view() == self@.history,
    {
        &self.history
    }

    /// How far the output is scrolled up from its end.
    pub fn scroll_offset(&self) -> (offset: usize)
        ensures
            offset == self@.scroll_offset,
    {
        self.scroll_offset
    }

    /// How far the events are scrolled up from their end.
    pub fn event_scroll_offset(&self) -> (offset: usize)
        ensures
            offset == self@.event_scroll_offset,
    {
        self.event_scroll_offset
    }

    /// The window that fills the screen.
    pub fn maximized_window(&self) -> (window: MaximizedWindow)
        ensures
            window == self@.maximized_window,
    {
        self.maximized_window
    }

    fn clear_completion(&mut self)
        ensures
            final(self)@ == reset_completion(old(self)@),
    {
        self.completion_candidates = Vec::new();
        self.completion_index = None;
        assert(self.completion_candidates.deep_view() =~= Seq::<Seq<char>>::empty());
    }

    fn set_input(&mut self, text: String)
        ensures
            final(self)@ == with_input(old(self)@, text@),
            text@.len() <= usize::MAX,
    {
        self.cursor_position = text.as_str().unicode_len();
        self.input = text;
    }

    fn go_back_in_history(&mut self)
        requires
            old(self).wf(),
        ensures
            final(self)@ == history_previous(old(self)@),
            final(self).wf(),
    {
        if self.history.len() > 0 {
            let at: usize = match self.history_position {
                None => self.history.len() - 1,
                Some(at) => if at == 0 {
                    0
                } else {
                    at - 1
                },
            };
            let entry = self.history[at].clone();
            assert(entry@ == self@.history[at as int]);
            self.set_input(entry);
            self.history_position = Some(at);
        }
    }

    fn go_forward_in_history(&mut self)
        requires
            old(self).wf(),
        ensures
            final(self)@ == history_next(old(self)@),
            final(self).wf(),
    {
        match self.history_position {
            None => {},
            Some(at) => {
                assert(self@.history.len() == self.history.len());
                if at + 1 < self.history.len() {
                    let entry = self.history[at + 1].clone();
                    assert(entry@ == self@.history[at + 1]);
                    self.set_input(entry);
                    self.history_position = Some(at + 1);
                } else {
                    self.set_input(String::new());
                    self.history_position = None;
                }
            },
        }
    }

    fn submit(&mut self) -> (command: String)
        requires
            old(self).wf(),
        ensures
            final(self)@ == submitted(old(self)@),
            final(self).wf(),
            command@ == old(self)@.input,
    {
        let command = self.input.clone();
        if !command.as_str().is_empty() {
            let ghost before = self.history.deep_view();
            self.history.push(command.clone());
            assert(self.history.deep_view() =~= before.push(command@));
        }
        self.set_input(String::new());
        self.history_position = None;
        self.clear_completion();
        command
    }

    /// Takes a completion step.
    fn complete(&mut self)
        requires
            old(self).wf(),
        ensures
            final(self)@ == completed(old(self)@),
            final(self).wf(),
    {
        match self.completion_index {
            None => {
                let mut found: Vec<String> = Vec::new();
                let prefix = trim_start(self.input.as_str());
                if prefix.is_empty() {
                    found = self.commands.clone();
                    assert(found.deep_view() =~= self.commands.deep_view());
                } else {
                    let mut i: usize = 0;
                    assert(self.commands.deep_view().take(0) =~= Seq::<Seq<char>>::empty());
                    assert(found.deep_view() =~= Seq::<Seq<char>>::empty());
                    while i < self.commands.len()
                        invariant
                            i <= self.commands.len(),
                            found.deep_view() == matching(
                                self.commands.deep_view().take(i as int),
                                prefix@,
                            ),
                        decreases self.commands.len() - i,
                    {
                        proof {
                            let upto = self.commands.deep_view().take(i + 1);
                            assert(upto.drop_last() =~= self.commands.deep_view().take(i as int));
                            assert(upto.last() == self.commands[i as int]@);
                        }
                        if starts_with(self.commands[i].as_str(), prefix) {
                            let ghost so_far = found.deep_view();
                            let command = self.commands[i].clone();
                            found.push(command);
                            assert(found.deep_view() =~= so_far.push(command@));
                        }
                        i += 1;
                    }
                    assert(self.commands.deep_view().take(self.commands.len() as int)
                        =~= self.commands.deep_view());
                }
                let found = sort_texts(&found);
                if found.len() == 0 {
                    self.completion_candidates = found;
                } else {
                    let first = found[0].clone();
                    assert(first@ == found.deep_view()[0]);
                    self.completion_candidates = found;
                    self.completion_index = Some(0);
                    let length = first.as_str().unicode_len();
                    self.cursor_position = length;
                    self.input = first;
                }
            },
            Some(at) => {
                assert(self@.completion_candidates.len() == self.completion_candidates.len());
                let next: usize = (at + 1) % self.completion_candidates.len();
                let candidate = self.completion_candidates[next].clone();
                assert(candidate@ == self@.completion_candidates[next as int]);
                self.completion_index = Some(next);
                self.set_input(candidate);
            },
        }
    }

    fn remove_char(&mut self, at: usize)
        requires
            old(self).wf(),
            at < old(self)@.input.len(),
        ensures
            final(self)@ == (AppView { input: old(self)@.input.remove(at as int), ..old(self)@ }),
            final(self)@.input.len() <= usize::MAX,
    {
        let length = self.input.as_str().unicode_len();
        let head = self.input.as_str().substring_char(0, at).to_owned();
        let rest = head.concat(self.input.as_str().substring_char(at + 1, length));
        assert(rest@ =~= self.input@.remove(at as int));
        let _ = rest.as_str().unicode_len();
        self.input = rest;
    }

    fn insert_char(&mut self, at: usize, c: char)
        requires
            old(self).wf(),
            at <= old(self)@.input.len(),
        ensures
            final(self)@ == (AppView { input: old(self)@.input.insert(at as int, c), ..old(self)@ }),
            final(self)@.input.len() <= usize::MAX,
    {
        let length = self.input.as_str().unicode_len();
        let head = self.input.as_str().substring_char(0, at).to_owned();
        let rest = head.concat(char_to_string(c).as_str()).concat(
            self.input.as_str().substring_char(at, length),
        );
        assert(rest@ =~= self.input@.insert(at as int, c));
        let _ = rest.as_str().unicode_len();
        self.input = rest;
    }

    /// Handles a key press. Returns the command to run when the key
    /// submits one. `total_messages` is the number of output lines,
    /// `total_event_lines` the number of event lines when the events
    /// window exists.
    pub fn handle_key(
        &mut self,
        key: KeyEvent,
        total_messages: usize,
        total_event_lines: Option<usize>,
    ) -> (command: Option<String>)
        requires
            old(self).wf(),
        ensures
            final(self).wf(),
            final(self)@ == after_key(old(self)@, key, total_messages, total_event_lines),
            command.deep_view() == command_of(old(self)@, key),
    {
        let control = match key.modifiers {
            Modifiers::Control => true,
            _ => false,
        };
        let alt = match key.modifiers {
            Modifiers::Alt => true,
            _ => false,
        };
        let plain = match key.modifiers {
            Modifiers::Plain => true,
            Modifiers::Shift => true,
            _ => false,
        };
        match key.code {
            KeyCode::Esc => {
                self.maximized_window = MaximizedWindow::Normal;
                self.clear_completion();
                None
            },
            KeyCode::Enter => Some(self.submit()),
            KeyCode::Tab => {
                self.complete();
                None
            },
            KeyCode::Backspace => {
                if self.cursor_position > 0 {
                    self.remove_char(self.cursor_position - 1);
                    self.cursor_position = self.cursor_position - 1;
                }
                self.clear_completion();
                None
            },
            KeyCode::Delete => {
                if self.cursor_position < self.input.as_str().unicode_len() {
                    self.remove_char(self.cursor_position);
                }
                self.clear_completion();
                None
            },
            KeyCode::Left => {
                if self.cursor_position > 0 {
                    self.cursor_position = self.cursor_position - 1;
                }
                self.clear_completion();
                None
            },
            KeyCode::Right => {
                if self.cursor_position < self.input.as_str().unicode_len() {
                    self.cursor_position = self.cursor_position + 1;
                }
                self.clear_completion();
                None
            },
            KeyCode::Home => {
                if control {
                    if total_messages > 0 {
                        self.scroll_offset = total_messages - 1;
                    }
                } else {
                    self.cursor_position = 0;
                }
                None
            },
            KeyCode::End => {
                if control {
                    self.scroll_offset = 0;
                } else {
                    self.cursor_position = self.input.as_str().unicode_len();
                }
                None
            },
            KeyCode::Up => {
                if control {
                    self.go_back_in_history();
                    self.clear_completion();
                } else if alt {
                    match total_event_lines {
                        Some(lines) => {
                            let last: usize = if lines == 0 {
                                0
                            } else {
                                lines - 1
                            };
                            if self.event_scroll_offset < last {
                                self.event_scroll_offset = self.event_scroll_offset + 1;
                            }
                        },
                        None => {},
                    }
                } else {
                    let last: usize = if total_messages == 0 {
                        0
                    } else {
                        total_messages - 1
                    };
                    if self.scroll_offset < last {
                        self.scroll_offset = self.scroll_offset + 1;
                    }
                }
                None
            },
            KeyCode::Down => {
                if control {
                    self.go_forward_in_history();
                    self.clear_completion();
                } else if alt {
                    if self.event_scroll_offset > 0 {
                        self.event_scroll_offset = self.event_scroll_offset - 1;
                    }
                } else if self.scroll_offset > 0 {
                    self.scroll_offset = self.scroll_offset - 1;
                }
                None
            },
            KeyCode::PageUp => {
                let last: usize = if total_messages == 0 {
                    0
                } else {
                    total_messages - 1
                };
                let wanted: usize = if self.scroll_offset > usize::MAX - 10 {
                    usize::MAX
                } else {
                    self.scroll_offset + 10
                };
                self.scroll_offset = if wanted < last {
                    wanted
                } else {
                    last
                };
                None
            },
            KeyCode::PageDown => {
                self.scroll_offset = if self.scroll_offset >= 10 {
                    self.scroll_offset - 10
                } else {
                    0
                };
                None
            },
            KeyCode::Char(c) => {
                if control && (c == 'c' || c == 'd') {
                    self.should_exit = true;
                    self.clear_completion();
                } else if control && c == 'p' {
                    self.go_back_in_history();
                    self.clear_completion();
                } else if control && c == 'n' {
                    self.go_forward_in_history();
                    self.clear_completion();
                } else if plain && self.input.as_str().unicode_len() < usize::MAX {
                    self.insert_char(self.cursor_position, c);
                    self.cursor_position = self.cursor_position + 1;
                    self.clear_completion();
                }
                None
            },
            KeyCode::Other => None,
        }
    }

    /// Handles a mouse event: a press of the left button on the title bar
    /// of a window maximizes it, or restores the layout if it is maximized.
    pub fn handle_mouse(
        &mut self,
        left_down: bool,
        row: u16,
        column: u16,
        zone_area: Option<Rect>,
        event_area: Option<Rect>,
        output_area: Option<Rect>,
    )
        ensures
            old(self).wf() ==> final(self).wf(),
            final(self)@ == (AppView {
                maximized_window: after_click(
                    old(self)@.maximized_window,
                    left_down,
                    row,
                    column,
                    zone_area,
                    event_area,
                    output_area,
                ),
                ..old(self)@
            }),
    {
        if !left_down {
            return;
        }
        let clicked = if title_hit(zone_area, row, column) {
            Some(MaximizedWindow::Zones)
        } else if title_hit(event_area, row, column) {
            Some(MaximizedWindow::Events)
        } else if title_hit(output_area, row, column) {
            Some(MaximizedWindow::Output)
        } else {
            None
        };
        match clicked {
            Some(window) => {
                self.maximized_window = if self.maximized_window == window {
                    MaximizedWindow::Normal
                } else {
                    window
                };
            },
            None => {},
        }
    }
}

} // verus!
