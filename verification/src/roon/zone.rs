//! Zones as the upstream source reports them, and their mathematical views.

use vstd::prelude::*;
use vstd::string::*;

verus! {

/// Lifecycle state of a zone.
#[derive(Clone, Copy, Debug, PartialEq, Eq, Structural)]
pub enum State {
    Playing,
    Paused,
    Loading,
    Stopped,
}

impl View for State {
    type V = State;

    open spec fn view(&self) -> State {
        *self
    }
}

impl DeepView for State {
    type V = State;

    open spec fn deep_view(&self) -> State {
        *self
    }
}

/// The name of a state as it appears in published view-models.
pub open spec fn state_name_spec(state: State) -> Seq<char> {
    match state {
        State::Playing => "Playing"@,
        State::Paused => "Paused"@,
        State::Loading => "Loading"@,
        State::Stopped => "Stopped"@,
    }
}

/// Different states have different names.
pub proof fn lemma_state_names_differ(a: State, b: State)
    ensures
        state_name_spec(a) == state_name_spec(b) <==> a == b,
{
    reveal_strlit("Playing");
    reveal_strlit("Paused");
    reveal_strlit("Loading");
    reveal_strlit("Stopped");
    assert("Playing"@[1] == 'l');
    assert("Loading"@[1] == 'o');
    assert("Stopped"@[1] == 't');
    assert("Paused"@.len() == 6);
}

/// The name of a state as it appears in published view-models.
pub fn state_name(state: State) -> (name: String)
    ensures
        name@ == state_name_spec(state),
{
    match state {
        State::Playing => String::from_str("Playing"),
        State::Paused => String::from_str("Paused"),
        State::Loading => String::from_str("Loading"),
        State::Stopped => String::from_str("Stopped"),
    }
}

/// What a zone is playing: three display lines, position and length in
/// seconds, and the key of its cover image.
#[derive(Debug, PartialEq, Eq)]
pub struct NowPlaying {
    pub line1: String,
    pub line2: String,
    pub line3: String,
    pub seek_position: Option<i64>,
    pub length: Option<u32>,
    pub image_key: Option<String>,
}

pub struct NowPlayingView {
    pub line1: Seq<char>,
    pub line2: Seq<char>,
    pub line3: Seq<char>,
    pub seek_position: Option<i64>,
    pub length: Option<u32>,
    pub image_key: Option<Seq<char>>,
}

impl View for NowPlaying {
    type V = NowPlayingView;

    open spec fn view(&self) -> NowPlayingView {
        NowPlayingView {
            line1: self.line1@,
            line2: self.line2@,
            line3: self.line3@,
            seek_position: self.seek_position,
            length: self.length,
            image_key: self.image_key.deep_view(),
        }
    }
}

impl DeepView for NowPlaying {
    type V = NowPlayingView;

    open spec fn deep_view(&self) -> NowPlayingView {
        self@
    }
}

impl Clone for NowPlaying {
    fn clone(&self) -> (copy: Self)
        ensures
            copy@ == self@,
    {
        NowPlaying {
            line1: self.line1.clone(),
            line2: self.line2.clone(),
            line3: self.line3.clone(),
            seek_position: self.seek_position,
            length: self.length,
            image_key: self.image_key.clone(),
        }
    }
}

/// A selectable source of an output, with its "selected" marker.
#[derive(Debug, PartialEq, Eq)]
pub struct SourceControl {
    pub display_name: String,
    pub selected: bool,
}

pub struct SourceControlView {
    pub display_name: Seq<char>,
    pub selected: bool,
}

impl View for SourceControl {
    type V = SourceControlView;

    open spec fn view(&self) -> SourceControlView {
        SourceControlView { display_name: self.display_name@, selected: self.selected }
    }
}

impl DeepView for SourceControl {
    type V = SourceControlView;

    open spec fn deep_view(&self) -> SourceControlView {
        self@
    }
}

impl Clone for SourceControl {
    fn clone(&self) -> (copy: Self)
        ensures
            copy@ == self@,
    {
        SourceControl { display_name: self.display_name.clone(), selected: self.selected }
    }
}

/// A member output of a zone.
#[derive(Debug, PartialEq, Eq)]
pub struct Output {
    pub output_id: String,
    pub display_name: String,
    pub is_muted: Option<bool>,
    pub source_controls: Option<Vec<SourceControl>>,
}

pub struct OutputView {
    pub output_id: Seq<char>,
    pub display_name: Seq<char>,
    pub is_muted: Option<bool>,
    pub source_controls: Option<Seq<SourceControlView>>,
}

impl View for Output {
    type V = OutputView;

    open spec fn view(&self) -> OutputView {
        OutputView {
            output_id: self.output_id@,
            display_name: self.display_name@,
            is_muted: self.is_muted,
            source_controls: self.source_controls.deep_view(),
        }
    }
}

impl DeepView for Output {
    type V = OutputView;

    open spec fn deep_view(&self) -> OutputView {
        self@
    }
}

impl Clone for Output {
    fn clone(&self) -> (copy: Self)
        ensures
            copy@ == self@,
    {
        let source_controls = match &self.source_controls {
            Some(controls) => {
                let copied = controls.clone();
                assert(copied.deep_view() =~= controls.deep_view());
                Some(copied)
            },
            None => None,
        };
        Output {
            output_id: self.output_id.clone(),
            display_name: self.display_name.clone(),
            is_muted: self.is_muted,
            source_controls,
        }
    }
}

/// One playback group.
#[derive(Debug, PartialEq, Eq)]
pub struct Zone {
    pub zone_id: String,
    pub display_name: String,
    pub state: State,
    pub now_playing: Option<NowPlaying>,
    pub outputs: Vec<Output>,
}

pub struct ZoneView {
    pub zone_id: Seq<char>,
    pub display_name: Seq<char>,
    pub state: State,
    pub now_playing: Option<NowPlayingView>,
    pub outputs: Seq<OutputView>,
}

impl View for Zone {
    type V = ZoneView;

    open spec fn view(&self) -> ZoneView {
        ZoneView {
            zone_id: self.zone_id@,
            display_name: self.display_name@,
            state: self.state,
            now_playing: self.now_playing.deep_view(),
            outputs: self.outputs.deep_view(),
        }
    }
}

impl DeepView for Zone {
    type V = ZoneView;

    open spec fn deep_view(&self) -> ZoneView {
        self@
    }
}

impl Clone for Zone {
    fn clone(&self) -> (copy: Self)
        ensures
            copy@ == self@,
    {
        let outputs = self.outputs.clone();
        assert(outputs.deep_view() =~= self.outputs.deep_view());
        Zone {
            zone_id: self.zone_id.clone(),
            display_name: self.display_name.clone(),
            state: self.state,
            now_playing: self.now_playing.clone(),
            outputs,
        }
    }
}

} // verus!
