use voxforge::dictation::{
    check_recording, check_transcript, finish_transcript, needs_resampling, DictationError,
    TranscribeError, WHISPER_SAMPLE_RATE,
};
use voxforge::dictionary::{apply_replacements, developer_dictionary, developer_entry, DictionaryEntry};
use voxforge::history::{search_pattern, TranscriptionRecord};
use voxforge::hotkey::{FnKeyEvent, FnKeyMonitor, FN_KEY_FLAG};
use voxforge::injection::{InjectionConfig, InjectionStep, InjectionStrategy, TextInjector};
use voxforge::postprocess::PostProcessingRule;
use voxforge::state::{HotkeyMode, RecordingState};
use voxforge::transcription::{
    assemble_transcript, cloud_transcript, whisper_language, CloudProviderConfig,
    TranscriptionProvider, TranscriptionSegment,
};

fn pair(a: &str, b: &str) -> (String, String) {
    (a.to_string(), b.to_string())
}

#[test]
fn dictionary_replaces_whole_words_case_insensitively() {
    let reps = vec![pair("next js", "Next.js"), pair("api", "API")];
    assert_eq!(
        apply_replacements("I built a NEXT JS app with an api. rapid apis", &reps),
        "I built a Next.js app with an API. rapid apis"
    );
}

#[test]
fn dictionary_escapes_special_characters() {
    let reps = vec![pair("c++", "C plus plus"), pair("a.b", "dot")];
    assert_eq!(apply_replacements("axb and a.b", &reps), "axb and dot");
    // `c++` followed by a space has no word boundary after it, so it stays
    assert_eq!(apply_replacements("c++ code", &reps[..1]), "c++ code");
}

#[test]
fn dictionary_applies_in_order() {
    let reps = vec![pair("one", "two"), pair("two", "three")];
    assert_eq!(apply_replacements("one", &reps), "three");
    assert_eq!(apply_replacements("unchanged", &[]), "unchanged");
}

#[test]
fn developer_dictionary_contents() {
    let d = developer_dictionary();
    assert_eq!(d.len(), 53);
    assert_eq!(d[0], pair("javascript", "JavaScript"));
    assert_eq!(d[28], pair("c i c d", "CI/CD"));
    assert_eq!(d[52], pair("kebab case", "kebab-case"));
    let e = developer_entry("id-1".to_string(), "git hub", "GitHub");
    assert_eq!(e.category.as_deref(), Some("developer"));
    assert!(e.enabled);
    assert_eq!(e.use_count, 0);
    assert_eq!(apply_replacements("push to git hub", &d), "push to GitHub");
    // every phrase is seeded once
    let mut phrases: Vec<&str> = d.iter().map(|p| p.0.as_str()).collect();
    phrases.sort();
    phrases.dedup();
    assert_eq!(phrases.len(), 53);
}

#[test]
fn new_dictionary_entry_is_enabled() {
    let e = DictionaryEntry::new_entry("i".to_string(), "vs code".to_string(), "VS Code".to_string(), None);
    assert!(e.enabled);
    assert_eq!(e.use_count, 0);
    assert_eq!(e.spoken_phrase, "vs code");
    assert!(e.category.is_none());
}

#[test]
fn fn_key_edges() {
    let mut m = FnKeyMonitor::new();
    assert_eq!(m.on_flags_changed(0), None);
    assert_eq!(m.on_flags_changed(FN_KEY_FLAG | 0x100), Some(FnKeyEvent::Down));
    assert_eq!(m.on_flags_changed(FN_KEY_FLAG), None);
    assert_eq!(m.on_flags_changed(0x100), Some(FnKeyEvent::Up));
    assert_eq!(m.on_flags_changed(0), None);
    assert_eq!(m.on_flags_changed(0x00800000), Some(FnKeyEvent::Down));
    assert_eq!(FnKeyEvent::Down.event_name(), "fn-key-down");
    assert_eq!(FnKeyEvent::Up.event_name(), "fn-key-up");
}

#[test]
fn fn_key_events_alternate() {
    let mut m = FnKeyMonitor::new();
    let reports = [0u64, FN_KEY_FLAG, FN_KEY_FLAG, 1, FN_KEY_FLAG, 0, 0, FN_KEY_FLAG | 2];
    let events: Vec<FnKeyEvent> = reports.iter().filter_map(|f| m.on_flags_changed(*f)).collect();
    assert_eq!(events[0], FnKeyEvent::Down);
    for w in events.windows(2) {
        assert_ne!(w[0], w[1]);
    }
    assert_eq!(events.len(), 5);
}

#[test]
fn injection_plan() {
    let cfg = InjectionConfig::default();
    assert_eq!(cfg.strategy, InjectionStrategy::ClipboardPaste);
    assert!(!cfg.preserve_clipboard);
    assert_eq!(cfg.paste_delay_ms, 50);
    assert_eq!(cfg.restore_delay_ms, 500);
    let inj = TextInjector::new(cfg);
    let steps = inj.inject("hello");
    assert_eq!(steps.len(), 3);
    assert!(matches!(&steps[0], InjectionStep::SetClipboard(t) if t == "hello"));
    assert!(matches!(steps[1], InjectionStep::Wait(50)));
    assert!(matches!(steps[2], InjectionStep::Paste));
    assert_eq!(inj.settings(), cfg);
}

#[test]
fn injection_plan_preserving_the_clipboard() {
    let cfg = InjectionConfig { preserve_clipboard: true, ..InjectionConfig::default() };
    let steps = TextInjector::new(cfg).inject("hi");
    assert_eq!(steps.len(), 6);
    assert!(matches!(steps[0], InjectionStep::SaveClipboard));
    assert!(matches!(&steps[1], InjectionStep::SetClipboard(t) if t == "hi"));
    assert!(matches!(steps[2], InjectionStep::Wait(50)));
    assert!(matches!(steps[3], InjectionStep::Paste));
    assert!(matches!(steps[4], InjectionStep::Wait(500)));
    assert!(matches!(steps[5], InjectionStep::RestoreClipboard));
}

#[test]
fn focused_app_name() {
    assert_eq!(TextInjector::focused_app_from_output("  Safari\n"), Some("Safari".to_string()));
    assert_eq!(TextInjector::focused_app_from_output(" \n"), None);
    assert_eq!(TextInjector::focused_app_from_output(""), None);
}

#[test]
fn history_record_for_dictation() {
    let r = TranscriptionRecord::for_dictation(
        "abc".to_string(),
        "hello  big\tworld\n".to_string(),
        "2024-01-01T00:00:00+00:00".to_string(),
        1500,
        HotkeyMode::Toggle,
        Some("en".to_string()),
        None,
    );
    assert_eq!(r.word_count, 3);
    assert_eq!(r.mode, "Toggle");
    assert_eq!(r.provider, "local");
    assert!(r.model_name.is_none());
    assert!(!r.is_favorite);
    assert_eq!(r.language.as_deref(), Some("en"));
    assert_eq!(HotkeyMode::PushToTalk.name(), "PushToTalk");
    let empty = TranscriptionRecord::for_dictation(
        String::new(),
        "   ".to_string(),
        String::new(),
        0,
        HotkeyMode::PushToTalk,
        None,
        Some("Notes".to_string()),
    );
    assert_eq!(empty.word_count, 0);
    assert_eq!(search_pattern("foo"), "%foo%");
}

#[test]
fn dictation_decisions() {
    assert!(matches!(check_recording(0), Err(DictationError::NoAudio)));
    assert!(check_recording(16000).is_ok());
    assert!(needs_resampling(44100));
    assert!(!needs_resampling(WHISPER_SAMPLE_RATE));
    assert!(matches!(check_transcript(""), Err(DictationError::NoSpeech)));
    assert!(check_transcript(" ").is_ok());
    assert_eq!(DictationError::NoAudio.state_after(), RecordingState::Idle);
    assert_eq!(DictationError::NoSpeech.state_after(), RecordingState::Idle);
    assert_eq!(DictationError::NoModel.state_after(), RecordingState::Processing);
    assert_eq!(
        DictationError::TranscriptionFailed("boom".to_string()).message(),
        "Transcription failed: boom"
    );
    assert_eq!(
        DictationError::NoAudio.message(),
        "No audio captured. Make sure your microphone is working."
    );
    assert_eq!(TranscribeError::NoAudio.message(), "No audio captured");
    assert_eq!(TranscribeError::Failed("x".to_string()).message(), "x");
    assert_eq!(
        TranscribeError::NoModel.message(),
        "No transcription model loaded. Please download a model in the Models tab first."
    );
}

#[test]
fn finish_transcript_dictionary_then_rules() {
    let rules = PostProcessingRule::defaults();
    let reps = Some(vec![pair("react", "React"), pair("type script", "TypeScript")]);
    assert_eq!(
        finish_transcript("  i like react and type script.  it works", &reps, &rules),
        "I like React and TypeScript. It works"
    );
    assert_eq!(finish_transcript("react", &None, &rules), "React");
    assert_eq!(finish_transcript("react", &None, &[]), "react");
}

#[test]
fn transcription_helpers() {
    let cfg = CloudProviderConfig::openai_compatible("SECRET-REDACTED".to_string(), "https://api.example.com".to_string());
    assert_eq!(cfg.name, "openai-compatible");
    assert_eq!(cfg.model.as_deref(), Some("whisper-1"));
    assert!(cfg.is_available());
    assert!(matches!(cfg.provider(), TranscriptionProvider::Cloud(n) if n == "openai-compatible"));
    let mut none = cfg.clone();
    none.api_key = String::new();
    none.model = None;
    assert!(!none.is_available());
    assert_eq!(none.request_model(), "whisper-1");
    assert_eq!(cfg.authorization(), "Bearer SECRET-REDACTED");
    assert_eq!(whisper_language(&None), None);
    assert_eq!(whisper_language(&Some("fr".to_string())), Some("fr".to_string()));
    let segs = vec![" Hello".to_string(), " world.".to_string(), " ".to_string()];
    assert_eq!(assemble_transcript(&segs), "Hello world.");
    assert_eq!(cloud_transcript("  hi there \n"), "hi there");
}

#[test]
fn segment_times_in_milliseconds() {
    let seg = TranscriptionSegment::from_centiseconds(0, 153, " Hello".to_string());
    assert_eq!(seg.start_ms, 0);
    assert_eq!(seg.end_ms, 1530);
    assert_eq!(seg.text, " Hello");
    let odd = TranscriptionSegment::from_centiseconds(-1, 2, String::new());
    assert_eq!(odd.start_ms, u64::MAX - 9);
    assert_eq!(odd.end_ms, 20);
}
