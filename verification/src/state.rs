//! The recording state and the hotkey mode.
use vstd::prelude::*;

verus! {

/// Where the dictation flow stands.
#[derive(Debug, Clone, Copy, PartialEq, Eq, Structural)]
pub enum RecordingState {
    Idle,
    Recording,
    Processing,
}

/// How the hotkey starts and stops recording.
#[derive(Debug, Clone, Copy, PartialEq, Eq, Structural)]
pub enum HotkeyMode {
    PushToTalk,
    Toggle,
}

impl HotkeyMode {
    /// The mode's name as it is recorded in the history.
    pub fn name(&self) -> (r: String)
        ensures
            r@ == match self {
                HotkeyMode::PushToTalk => "PushToTalk"@,
                HotkeyMode::Toggle => "Toggle"@,
            },
    {
        match self {
            HotkeyMode::PushToTalk => String::from_str("PushToTalk"),
            HotkeyMode::Toggle => String::from_str("Toggle"),
        }
    }
}

} // verus!
