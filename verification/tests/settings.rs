use voxforge::decimal::{format_u64, parse_u64};
use voxforge::settings::AppSettings;

fn sample() -> AppSettings {
    let mut s = AppSettings::default();
    s.hotkey_mode = "toggle".to_string();
    s.push_to_talk_key = "F5".to_string();
    s.toggle_key = "F6".to_string();
    s.transcription_provider = "cloud".to_string();
    s.language = "fr".to_string();
    s.auto_detect_language = true;
    s.silence_timeout_ms = 12345;
    s.play_sounds = false;
    s.start_sound = false;
    s.stop_sound = false;
    s.injection_strategy = "keyboard".to_string();
    s.preserve_clipboard = false;
    s.appearance = "dark".to_string();
    s.compact_mode = true;
    s.translucency = false;
    s.reduced_motion = true;
    s.sound_cues = false;
    s.cloud_provider_url = "https://example.com/v1".to_string();
    s.cloud_provider_name = "example".to_string();
    s
}

#[test]
fn default_settings_values() {
    let d = AppSettings::default();
    assert_eq!(d.hotkey_mode, "push_to_talk");
    assert_eq!(d.push_to_talk_key, "CommandOrControl+Shift+Space");
    assert_eq!(d.toggle_key, "CommandOrControl+Shift+V");
    assert_eq!(d.transcription_provider, "local");
    assert_eq!(d.language, "en");
    assert!(!d.auto_detect_language);
    assert_eq!(d.silence_timeout_ms, 2000);
    assert!(d.play_sounds && d.start_sound && d.stop_sound);
    assert_eq!(d.injection_strategy, "clipboard_paste");
    assert!(d.preserve_clipboard);
    assert_eq!(d.appearance, "system");
    assert!(!d.compact_mode && d.translucency && !d.reduced_motion && d.sound_cues);
    assert_eq!(d.cloud_provider_url, "");
    assert_eq!(d.cloud_provider_name, "");
}

#[test]
fn entries_are_written_in_order() {
    let e = sample().to_entries();
    let keys: Vec<&str> = e.iter().map(|(k, _)| k.as_str()).collect();
    assert_eq!(
        keys,
        vec![
            "hotkey_mode",
            "push_to_talk_key",
            "toggle_key",
            "transcription_provider",
            "language",
            "auto_detect_language",
            "silence_timeout_ms",
            "play_sounds",
            "injection_strategy",
            "preserve_clipboard",
            "appearance",
            "compact_mode",
            "translucency",
            "reduced_motion",
            "sound_cues",
            "cloud_provider_url",
            "cloud_provider_name"
        ]
    );
    assert_eq!(e[5].1, "true");
    assert_eq!(e[6].1, "12345");
    assert_eq!(e[7].1, "false");
}

#[test]
fn settings_round_trip() {
    let s = sample();
    let back = AppSettings::from_stored(&s.to_entries());
    assert_eq!(back.hotkey_mode, s.hotkey_mode);
    assert_eq!(back.push_to_talk_key, s.push_to_talk_key);
    assert_eq!(back.toggle_key, s.toggle_key);
    assert_eq!(back.transcription_provider, s.transcription_provider);
    assert_eq!(back.language, s.language);
    assert_eq!(back.auto_detect_language, s.auto_detect_language);
    assert_eq!(back.silence_timeout_ms, s.silence_timeout_ms);
    assert_eq!(back.play_sounds, s.play_sounds);
    assert_eq!(back.injection_strategy, s.injection_strategy);
    assert_eq!(back.preserve_clipboard, s.preserve_clipboard);
    assert_eq!(back.appearance, s.appearance);
    assert_eq!(back.compact_mode, s.compact_mode);
    assert_eq!(back.translucency, s.translucency);
    assert_eq!(back.reduced_motion, s.reduced_motion);
    assert_eq!(back.sound_cues, s.sound_cues);
    assert_eq!(back.cloud_provider_url, s.cloud_provider_url);
    assert_eq!(back.cloud_provider_name, s.cloud_provider_name);
    // the two sound toggles are not stored and come back as defaults
    assert!(back.start_sound);
    assert!(back.stop_sound);
}

#[test]
fn stored_values_are_read_leniently() {
    let stored = vec![
        ("silence_timeout_ms".to_string(), "soon".to_string()),
        ("play_sounds".to_string(), "yes".to_string()),
        ("compact_mode".to_string(), "true".to_string()),
        ("unknown_key".to_string(), "x".to_string()),
        ("language".to_string(), "de".to_string()),
    ];
    let s = AppSettings::from_stored(&stored);
    assert_eq!(s.silence_timeout_ms, 2000);
    assert!(!s.play_sounds);
    assert!(s.compact_mode);
    assert_eq!(s.language, "de");
    assert_eq!(s.hotkey_mode, "push_to_talk");
}

#[test]
fn later_entries_win() {
    let stored = vec![
        ("silence_timeout_ms".to_string(), "100".to_string()),
        ("silence_timeout_ms".to_string(), "+300".to_string()),
    ];
    assert_eq!(AppSettings::from_stored(&stored).silence_timeout_ms, 300);
}

#[test]
fn apply_stored_single_key() {
    let mut s = AppSettings::default();
    s.apply_stored("appearance", "light");
    assert_eq!(s.appearance, "light");
    s.apply_stored("translucency", "false");
    assert!(!s.translucency);
    s.apply_stored("start_sound", "false");
    assert!(s.start_sound);
}

#[test]
fn decimal_format_and_parse() {
    assert_eq!(format_u64(0), "0");
    assert_eq!(format_u64(7), "7");
    assert_eq!(format_u64(2000), "2000");
    assert_eq!(format_u64(u64::MAX), "18446744073709551615");
    assert_eq!(parse_u64("18446744073709551615"), Some(u64::MAX));
    assert_eq!(parse_u64("18446744073709551616"), None);
    assert_eq!(parse_u64("99999999999999999999999"), None);
    assert_eq!(parse_u64("+42"), Some(42));
    assert_eq!(parse_u64("007"), Some(7));
    assert_eq!(parse_u64(""), None);
    assert_eq!(parse_u64("+"), None);
    assert_eq!(parse_u64("-1"), None);
    assert_eq!(parse_u64(" 1"), None);
    assert_eq!(parse_u64("1a"), None);
    for n in [0u64, 1, 9, 10, 99, 100, 65535, 1 << 40, u64::MAX - 1] {
        assert_eq!(parse_u64(&format_u64(n)), Some(n));
        assert_eq!(parse_u64(&n.to_string()), n.to_string().parse::<u64>().ok());
        assert_eq!(format_u64(n), n.to_string());
    }
}
