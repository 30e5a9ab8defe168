//! Transcription history records and usage statistics rows.
use vstd::prelude::*;
use crate::state::HotkeyMode;
use crate::text::{count_words, word_count};

verus! {

/// A transcription kept in the history.
#[derive(Debug, Clone)]
pub struct TranscriptionRecord {
    pub id: String,
    pub text: String,
    pub timestamp: String,
    pub duration_ms: u64,
    pub word_count: u32,
    pub mode: String,
    pub provider: String,
    pub model_name: Option<String>,
    pub language: Option<String>,
    pub target_app: Option<String>,
    pub is_favorite: bool,
}

/// One day of usage statistics.
#[derive(Debug, Clone)]
pub struct DailyStats {
    pub date: String,
    pub total_words: u64,
    pub total_duration_ms: u64,
    pub session_count: u64,
    pub transcription_count: u64,
}

/// The text of an optional text.
pub open spec fn opt_text(o: Option<String>) -> Option<Seq<char>> {
    match o {
        Some(s) => Some(s@),
        None => None,
    }
}

/// The history search pattern for a query: any text that contains it.
pub fn search_pattern(query: &str) -> (r: String)
    ensures
        r@ == "%"@ + query@ + "%"@,
{
    let mut p = String::from_str("%");
    p.append(query);
    p.append("%");
    p
}

impl TranscriptionRecord {
    /// The record of a dictation done with the local model: its words counted,
    /// the hotkey mode named, not a favorite.
    pub fn for_dictation(
        id: String,
        text: String,
        timestamp: String,
        duration_ms: u64,
        mode: HotkeyMode,
        language: Option<String>,
        target_app: Option<String>,
    ) -> (r: Self)
        ensures
            r.id@ == id@,
            r.text@ == text@,
            r.timestamp@ == timestamp@,
            r.duration_ms == duration_ms,
            r.word_count == word_count(text@) as u32,
            r.mode@ == match mode {
                HotkeyMode::PushToTalk => "PushToTalk"@,
                HotkeyMode::Toggle => "Toggle"@,
            },
            r.provider@ == "local"@,
            r.model_name is None,
            opt_text(r.language) == opt_text(language),
            opt_text(r.target_app) == opt_text(target_app),
            !r.is_favorite,
    {
        let words = count_words(text.as_str());
        TranscriptionRecord {
            id,
            text,
            timestamp,
            duration_ms,
            word_count: words as u32,
            mode: mode.name(),
            provider: String::from_str("local"),
            model_name: None,
            language,
            target_app,
            is_favorite: false,
        }
    }
}

} // verus!
