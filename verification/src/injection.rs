//! Text injection into the focused application: the text goes to the
//! clipboard, then a paste shortcut is sent after a short delay. When the
//! clipboard is to be preserved, what it held is saved first and put back
//! once the paste has had time to read the text.
//!
//! The library decides the steps; carrying them out (the clipboard, the
//! delay, the key events) is left to the caller.
use vstd::prelude::*;
use crate::text::{chars_of, trim_chars, trim_ws};

verus! {

/// How text reaches the focused application.
#[derive(Debug, Clone, Copy, PartialEq, Eq, Structural)]
pub enum InjectionStrategy {
    ClipboardPaste,
    KeyboardSimulation,
}

/// Injection settings.
#[derive(Debug, Clone, Copy, PartialEq, Eq, Structural)]
pub struct InjectionConfig {
    pub strategy: InjectionStrategy,
    pub preserve_clipboard: bool,
    pub paste_delay_ms: u64,
    pub restore_delay_ms: u64,
}

impl Default for InjectionConfig {
    fn default() -> (r: Self)
        ensures
            r == (InjectionConfig {
                strategy: InjectionStrategy::ClipboardPaste,
                preserve_clipboard: false,
                paste_delay_ms: 50,
                restore_delay_ms: 500,
            }),
    {
        InjectionConfig {
            strategy: InjectionStrategy::ClipboardPaste,
            preserve_clipboard: false,
            paste_delay_ms: 50,
            restore_delay_ms: 500,
        }
    }
}

/// One thing to do to inject text.
#[derive(Debug, Clone)]
pub enum InjectionStep {
    /// Remember what the clipboard holds.
    SaveClipboard,
    /// Put this text on the clipboard.
    SetClipboard(String),
    /// Wait this many milliseconds.
    Wait(u64),
    /// Send the paste shortcut to the focused application.
    Paste,
    /// Put back on the clipboard what `SaveClipboard` remembered.
    RestoreClipboard,
}

/// Injects text into the focused application.
pub struct TextInjector {
    config: InjectionConfig,
}

/// Whether a step list is: put `text` on the clipboard, wait `delay_ms`,
/// then paste.
pub open spec fn is_paste_steps(steps: Seq<InjectionStep>, text: Seq<char>, delay_ms: u64) -> bool {
    &&& steps.len() == 3
    &&& steps[0] matches InjectionStep::SetClipboard(t) && t@ == text
    &&& steps[1] == InjectionStep::Wait(delay_ms)
    &&& steps[2] is Paste
}

/// Whether a step list injects `text` as `config` says: the paste steps;
/// when the clipboard is preserved, they are preceded by saving the
/// clipboard and followed by waiting the restore delay and restoring it.
pub open spec fn is_paste_plan(steps: Seq<InjectionStep>, text: Seq<char>, config: InjectionConfig) -> bool {
    if config.preserve_clipboard {
        &&& steps.len() == 6
        &&& steps[0] is SaveClipboard
        &&& is_paste_steps(steps.subrange(1, 4), text, config.paste_delay_ms)
        &&& steps[4] == InjectionStep::Wait(config.restore_delay_ms)
        &&& steps[5] is RestoreClipboard
    } else {
        is_paste_steps(steps, text, config.paste_delay_ms)
    }
}

impl TextInjector {
    /// An injector with the given settings.
    pub fn new(config: InjectionConfig) -> (r: Self)
        ensures
            r.config() == config,
    {
        TextInjector { config }
    }

    /// The injector's settings.
    pub closed spec fn config(&self) -> InjectionConfig {
        self.config
    }

    /// The injector's settings.
    pub fn settings(&self) -> (r: InjectionConfig)
        ensures
            r == self.config(),
    {
        self.config
    }

    /// The steps that inject `text`: it is put on the clipboard, then, after
    /// the configured paste delay, the paste shortcut is sent. When the
    /// clipboard is preserved, its contents are saved first and restored
    /// after the restore delay that follows the paste. The steps are carried
    /// out in order and stop at the first that fails.
    pub fn inject(&self, text: &str) -> (r: Vec<InjectionStep>)
        ensures
            is_paste_plan(r@, text@, self.config()),
    {
        let mut steps: Vec<InjectionStep> = Vec::new();
        if self.config.preserve_clipboard {
            steps.push(InjectionStep::SaveClipboard);
        }
        steps.push(InjectionStep::SetClipboard(String::from_str(text)));
        steps.push(InjectionStep::Wait(self.config.paste_delay_ms));
        steps.push(InjectionStep::Paste);
        if self.config.preserve_clipboard {
            steps.push(InjectionStep::Wait(self.config.restore_delay_ms));
            steps.push(InjectionStep::RestoreClipboard);
            assert(steps@.subrange(1, 4) =~= seq![steps@[1], steps@[2], steps@[3]]);
        }
        steps
    }

    /// The name of the focused application, from what the system reported:
    /// the report trimmed, or nothing when it is blank.
    pub fn focused_app_from_output(output: &str) -> (r: Option<String>)
        ensures
            trim_ws(output@).len() == 0 ==> r is None,
            trim_ws(output@).len() > 0 ==> (r matches Some(name) && name@ == trim_ws(output@)),
    {
        let cs = chars_of(output);
        let name = trim_chars(cs.as_slice());
        if name.as_str().is_empty() {
            None
        } else {
            Some(name)
        }
    }
}

} // verus!
