//! The recording overlay's modes and how they are written down.

use crate::text::same_text;
use vstd::prelude::*;

verus! {

/// What the overlay shows.
#[derive(Debug, Clone, Copy, PartialEq, Eq, Structural)]
pub enum IndicatorMode {
    Recording,
    Processing,
}

/// The overlay state as it stands in the state file.
pub open spec fn state_text(mode: Option<IndicatorMode>) -> Seq<char> {
    match mode {
        Some(IndicatorMode::Recording) => "recording"@,
        Some(IndicatorMode::Processing) => "processing"@,
        None => "hidden"@,
    }
}

impl IndicatorMode {
    /// The mode a command-line value names, if any.
    pub open spec fn spec_from_cli(value: Seq<char>) -> Option<IndicatorMode> {
        if value == "recording"@ {
            Some(IndicatorMode::Recording)
        } else if value == "processing"@ {
            Some(IndicatorMode::Processing)
        } else {
            None
        }
    }

    /// The mode named by a command-line value: "recording" or
    /// "processing"; anything else names none.
    pub fn from_cli(value: &str) -> (mode: Option<Self>)
        ensures
            mode == Self::spec_from_cli(value@),
    {
        if same_text(value, "recording") {
            Some(IndicatorMode::Recording)
        } else if same_text(value, "processing") {
            Some(IndicatorMode::Processing)
        } else {
            None
        }
    }

    /// The command-line value that names the mode.
    pub fn as_cli(self) -> (value: &'static str)
        ensures
            value@ == state_text(Some(self)),
    {
        match self {
            IndicatorMode::Recording => "recording",
            IndicatorMode::Processing => "processing",
        }
    }

    /// The caption the overlay shows.
    pub fn label(self) -> (caption: &'static str)
        ensures
            caption@ == match self {
                IndicatorMode::Recording => "RECORDING"@,
                IndicatorMode::Processing => "PROCESSING"@,
            },
    {
        match self {
            IndicatorMode::Recording => "RECORDING",
            IndicatorMode::Processing => "PROCESSING",
        }
    }
}

/// What is written to the state file for an overlay state.
pub fn indicator_state_text(mode: Option<IndicatorMode>) -> (text: &'static str)
    ensures
        text@ == state_text(mode),
{
    match mode {
        Some(IndicatorMode::Recording) => "recording",
        Some(IndicatorMode::Processing) => "processing",
        None => "hidden",
    }
}

/// The overlay state a state file's trimmed content stands for: `None`
/// where the content is none of the three words.
pub fn parse_indicator_state(value: &str) -> (state: Option<Option<IndicatorMode>>)
    ensures
        state == if value@ == "recording"@ {
            Some(Some(IndicatorMode::Recording))
        } else if value@ == "processing"@ {
            Some(Some(IndicatorMode::Processing))
        } else if value@ == "hidden"@ {
            Some(None::<IndicatorMode>)
        } else {
            None
        },
{
    if same_text(value, "recording") {
        Some(Some(IndicatorMode::Recording))
    } else if same_text(value, "processing") {
        Some(Some(IndicatorMode::Processing))
    } else if same_text(value, "hidden") {
        Some(None)
    } else {
        None
    }
}

/// What the indicator asks the program to do.
#[derive(Debug, Clone, Copy, PartialEq, Eq, Structural)]
pub enum IndicatorAction {
    /// Write this overlay state to the state file.
    WriteState(Option<IndicatorMode>),
    /// Stop the overlay process and wait for it.
    StopChild,
    /// Start an overlay process in this mode.
    SpawnChild(IndicatorMode),
}

/// What the program knows of the overlay process.
#[derive(Debug, Clone, Copy, PartialEq, Eq, Structural)]
pub enum ChildState {
    /// There is none.
    Absent,
    /// It runs.
    Alive,
    /// It has exited, or cannot be asked.
    Gone,
}

/// Controls the overlay, which is a process of its own that follows the
/// state file.
#[derive(Debug, Clone, Copy)]
pub struct RecordingIndicator {
    enabled: bool,
}

impl RecordingIndicator {
    /// Whether the indicator does anything.
    pub closed spec fn enabled(&self) -> bool {
        self.enabled
    }

    /// What showing a mode takes: the state is written; a running
    /// overlay picks it up; else an overlay that has exited is cleared
    /// away and a new one started.
    pub open spec fn shows(self, mode: IndicatorMode, child: ChildState) -> Seq<IndicatorAction> {
        if !self.enabled() {
            Seq::empty()
        } else {
            match child {
                ChildState::Alive => seq![IndicatorAction::WriteState(Some(mode))],
                ChildState::Gone => seq![
                    IndicatorAction::WriteState(Some(mode)),
                    IndicatorAction::StopChild,
                    IndicatorAction::SpawnChild(mode),
                ],
                ChildState::Absent => seq![
                    IndicatorAction::WriteState(Some(mode)),
                    IndicatorAction::SpawnChild(mode),
                ],
            }
        }
    }

    /// An indicator that is enabled where the settings ask for the
    /// overlay and the program was built with it.
    pub fn new(enabled: bool, overlay_built: bool) -> (indicator: Self)
        ensures
            indicator.enabled() == (enabled && overlay_built),
    {
        RecordingIndicator { enabled: enabled && overlay_built }
    }

    /// Shows that recording is under way.
    pub fn recording(&self, child: ChildState) -> (actions: Vec<IndicatorAction>)
        ensures
            actions@ == self.shows(IndicatorMode::Recording, child),
    {
        self.show(IndicatorMode::Recording, child)
    }

    /// Shows that audio is being processed.
    pub fn processing(&self, child: ChildState) -> (actions: Vec<IndicatorAction>)
        ensures
            actions@ == self.shows(IndicatorMode::Processing, child),
    {
        self.show(IndicatorMode::Processing, child)
    }

    /// Takes the overlay away: the state is written as hidden and the
    /// overlay process is stopped.
    pub fn hide_overlay(&self) -> (actions: Vec<IndicatorAction>)
        ensures
            actions@ == if self.enabled() {
                seq![IndicatorAction::WriteState(None), IndicatorAction::StopChild]
            } else {
                Seq::<IndicatorAction>::empty()
            },
    {
        let mut actions: Vec<IndicatorAction> = Vec::new();
        if self.enabled {
            actions.push(IndicatorAction::WriteState(None));
            actions.push(IndicatorAction::StopChild);
        }
        actions
    }

    /// Shows a mode.
    pub fn show(&self, mode: IndicatorMode, child: ChildState) -> (actions: Vec<IndicatorAction>)
        ensures
            actions@ == self.shows(mode, child),
    {
        let mut actions: Vec<IndicatorAction> = Vec::new();
        if !self.enabled {
            return actions;
        }
        actions.push(IndicatorAction::WriteState(Some(mode)));
        match child {
            ChildState::Alive => {},
            ChildState::Gone => {
                actions.push(IndicatorAction::StopChild);
                actions.push(IndicatorAction::SpawnChild(mode));
            },
            ChildState::Absent => {
                actions.push(IndicatorAction::SpawnChild(mode));
            },
        }
        assert(actions@ =~= self.shows(mode, child));
        actions
    }
}

} // verus!
