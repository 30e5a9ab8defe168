//! User settings and their key-value form in the settings store.
//!
//! Saving writes one text value per key; loading starts from the defaults and
//! takes every stored value over. Booleans are stored as `true`/`false`,
//! numbers in decimal.
use vstd::prelude::*;
use crate::decimal::{decimal, format_u64, law_decimal_round_trip, parse_u64, parse_u64_spec};
use crate::text::str_equal;

verus! {

/// The application settings.
#[derive(Debug, Clone)]
pub struct AppSettings {
    pub hotkey_mode: String,
    pub push_to_talk_key: String,
    pub toggle_key: String,
    pub transcription_provider: String,
    pub language: String,
    pub auto_detect_language: bool,
    pub silence_timeout_ms: u64,
    pub play_sounds: bool,
    pub start_sound: bool,
    pub stop_sound: bool,
    pub injection_strategy: String,
    pub preserve_clipboard: bool,
    pub appearance: String,
    pub compact_mode: bool,
    pub translucency: bool,
    pub reduced_motion: bool,
    pub sound_cues: bool,
    pub cloud_provider_url: String,
    pub cloud_provider_name: String,
}

/// The settings as values: texts as character sequences.
pub struct SettingsModel {
    pub hotkey_mode: Seq<char>,
    pub push_to_talk_key: Seq<char>,
    pub toggle_key: Seq<char>,
    pub transcription_provider: Seq<char>,
    pub language: Seq<char>,
    pub auto_detect_language: bool,
    pub silence_timeout_ms: u64,
    pub play_sounds: bool,
    pub start_sound: bool,
    pub stop_sound: bool,
    pub injection_strategy: Seq<char>,
    pub preserve_clipboard: bool,
    pub appearance: Seq<char>,
    pub compact_mode: bool,
    pub translucency: bool,
    pub reduced_motion: bool,
    pub sound_cues: bool,
    pub cloud_provider_url: Seq<char>,
    pub cloud_provider_name: Seq<char>,
}

impl View for AppSettings {
    type V = SettingsModel;

    open spec fn view(&self) -> SettingsModel {
        SettingsModel {
            hotkey_mode: self.hotkey_mode@,
            push_to_talk_key: self.push_to_talk_key@,
            toggle_key: self.toggle_key@,
            transcription_provider: self.transcription_provider@,
            language: self.language@,
            auto_detect_language: self.auto_detect_language,
            silence_timeout_ms: self.silence_timeout_ms,
            play_sounds: self.play_sounds,
            start_sound: self.start_sound,
            stop_sound: self.stop_sound,
            injection_strategy: self.injection_strategy@,
            preserve_clipboard: self.preserve_clipboard,
            appearance: self.appearance@,
            compact_mode: self.compact_mode,
            translucency: self.translucency,
            reduced_motion: self.reduced_motion,
            sound_cues: self.sound_cues,
            cloud_provider_url: self.cloud_provider_url@,
            cloud_provider_name: self.cloud_provider_name@,
        }
    }
}

/// The silence timeout used when none is stored or the stored one is not a number.
pub open spec fn default_silence_timeout() -> u64 {
    2000
}

/// The settings of a new installation.
pub open spec fn default_settings() -> SettingsModel {
    SettingsModel {
        hotkey_mode: "push_to_talk"@,
        push_to_talk_key: "CommandOrControl+Shift+Space"@,
        toggle_key: "CommandOrControl+Shift+V"@,
        transcription_provider: "local"@,
        language: "en"@,
        auto_detect_language: false,
        silence_timeout_ms: default_silence_timeout(),
        play_sounds: true,
        start_sound: true,
        stop_sound: true,
        injection_strategy: "clipboard_paste"@,
        preserve_clipboard: true,
        appearance: "system"@,
        compact_mode: false,
        translucency: true,
        reduced_motion: false,
        sound_cues: true,
        cloud_provider_url: Seq::empty(),
        cloud_provider_name: Seq::empty(),
    }
}

impl Default for AppSettings {
    fn default() -> (r: Self)
        ensures
            r@ == default_settings(),
    {
        AppSettings {
            hotkey_mode: String::from_str("push_to_talk"),
            push_to_talk_key: String::from_str("CommandOrControl+Shift+Space"),
            toggle_key: String::from_str("CommandOrControl+Shift+V"),
            transcription_provider: String::from_str("local"),
            language: String::from_str("en"),
            auto_detect_language: false,
            silence_timeout_ms: 2000,
            play_sounds: true,
            start_sound: true,
            stop_sound: true,
            injection_strategy: String::from_str("clipboard_paste"),
            preserve_clipboard: true,
            appearance: String::from_str("system"),
            compact_mode: false,
            translucency: true,
            reduced_motion: false,
            sound_cues: true,
            cloud_provider_url: String::new(),
            cloud_provider_name: String::new(),
        }
    }
}

/// How a boolean is stored.
pub open spec fn bool_text(b: bool) -> Seq<char> {
    if b {
        "true"@
    } else {
        "false"@
    }
}

/// How a stored text reads as a boolean: only `true` is true.
pub open spec fn text_bool(v: Seq<char>) -> bool {
    v == "true"@
}

/// How a stored text reads as the silence timeout.
pub open spec fn text_timeout(v: Seq<char>) -> u64 {
    match parse_u64_spec(v) {
        Some(n) => n,
        None => default_silence_timeout(),
    }
}

/// The key under which the `i`-th stored setting is kept (`0 <= i < 17`).
pub open spec fn setting_key(i: int) -> Seq<char> {
    if i == 0 {
        "hotkey_mode"@
    } else if i == 1 {
        "push_to_talk_key"@
    } else if i == 2 {
        "toggle_key"@
    } else if i == 3 {
        "transcription_provider"@
    } else if i == 4 {
        "language"@
    } else if i == 5 {
        "auto_detect_language"@
    } else if i == 6 {
        "silence_timeout_ms"@
    } else if i == 7 {
        "play_sounds"@
    } else if i == 8 {
        "injection_strategy"@
    } else if i == 9 {
        "preserve_clipboard"@
    } else if i == 10 {
        "appearance"@
    } else if i == 11 {
        "compact_mode"@
    } else if i == 12 {
        "translucency"@
    } else if i == 13 {
        "reduced_motion"@
    } else if i == 14 {
        "sound_cues"@
    } else if i == 15 {
        "cloud_provider_url"@
    } else {
        "cloud_provider_name"@
    }
}

/// The stored text of the `i`-th setting.
pub open spec fn stored_value(s: SettingsModel, i: int) -> Seq<char> {
    if i == 0 {
        s.hotkey_mode
    } else if i == 1 {
        s.push_to_talk_key
    } else if i == 2 {
        s.toggle_key
    } else if i == 3 {
        s.transcription_provider
    } else if i == 4 {
        s.language
    } else if i == 5 {
        bool_text(s.auto_detect_language)
    } else if i == 6 {
        decimal(s.silence_timeout_ms as nat)
    } else if i == 7 {
        bool_text(s.play_sounds)
    } else if i == 8 {
        s.injection_strategy
    } else if i == 9 {
        bool_text(s.preserve_clipboard)
    } else if i == 10 {
        s.appearance
    } else if i == 11 {
        bool_text(s.compact_mode)
    } else if i == 12 {
        bool_text(s.translucency)
    } else if i == 13 {
        bool_text(s.reduced_motion)
    } else if i == 14 {
        bool_text(s.sound_cues)
    } else if i == 15 {
        s.cloud_provider_url
    } else {
        s.cloud_provider_name
    }
}

/// The settings after the `i`-th setting is read from the stored text `v`;
/// a slot past the last leaves them as they are.
pub open spec fn set_slot(m: SettingsModel, i: int, v: Seq<char>) -> SettingsModel {
    if i == 0 {
        SettingsModel { hotkey_mode: v, ..m }
    } else if i == 1 {
        SettingsModel { push_to_talk_key: v, ..m }
    } else if i == 2 {
        SettingsModel { toggle_key: v, ..m }
    } else if i == 3 {
        SettingsModel { transcription_provider: v, ..m }
    } else if i == 4 {
        SettingsModel { language: v, ..m }
    } else if i == 5 {
        SettingsModel { auto_detect_language: text_bool(v), ..m }
    } else if i == 6 {
        SettingsModel { silence_timeout_ms: text_timeout(v), ..m }
    } else if i == 7 {
        SettingsModel { play_sounds: text_bool(v), ..m }
    } else if i == 8 {
        SettingsModel { injection_strategy: v, ..m }
    } else if i == 9 {
        SettingsModel { preserve_clipboard: text_bool(v), ..m }
    } else if i == 10 {
        SettingsModel { appearance: v, ..m }
    } else if i == 11 {
        SettingsModel { compact_mode: text_bool(v), ..m }
    } else if i == 12 {
        SettingsModel { translucency: text_bool(v), ..m }
    } else if i == 13 {
        SettingsModel { reduced_motion: text_bool(v), ..m }
    } else if i == 14 {
        SettingsModel { sound_cues: text_bool(v), ..m }
    } else if i == 15 {
        SettingsModel { cloud_provider_url: v, ..m }
    } else if i == 16 {
        SettingsModel { cloud_provider_name: v, ..m }
    } else {
        m
    }
}

/// The stored form of the settings: one `(key, value)` entry per saved
/// setting, in the order in which they are written. The two sound toggles
/// `start_sound` and `stop_sound` are not stored.
pub open spec fn settings_entries(s: SettingsModel) -> Seq<(Seq<char>, Seq<char>)> {
    Seq::new(17, |i: int| (setting_key(i), stored_value(s, i)))
}

/// The slot of `key` among the stored keys from `j` on, or `17` for a key
/// that names no setting.
pub open spec fn slot_from(key: Seq<char>, j: int) -> int
    decreases 17 - j,
{
    if j >= 17 || j < 0 {
        17
    } else if key == setting_key(j) {
        j
    } else {
        slot_from(key, j + 1)
    }
}

/// The slot of `key`, or `17` for a key that names no setting.
pub open spec fn key_slot(key: Seq<char>) -> int {
    slot_from(key, 0)
}

/// The settings after one stored value is taken over; an unknown key changes
/// nothing.
pub open spec fn apply_setting(m: SettingsModel, key: Seq<char>, v: Seq<char>) -> SettingsModel {
    set_slot(m, key_slot(key), v)
}

/// The settings after the stored entries are taken over, first to last.
pub open spec fn apply_settings(m: SettingsModel, entries: Seq<(Seq<char>, Seq<char>)>) -> SettingsModel
    decreases entries.len(),
{
    if entries.len() == 0 {
        m
    } else {
        let last = entries.last();
        apply_setting(apply_settings(m, entries.drop_last()), last.0, last.1)
    }
}

/// The values of stored entries.
pub open spec fn entries_view(entries: Seq<(String, String)>) -> Seq<(Seq<char>, Seq<char>)> {
    entries.map_values(|e: (String, String)| (e.0@, e.1@))
}

fn entry(key: &str, value: String) -> (r: (String, String))
    ensures
        r.0@ == key@,
        r.1@ == value@,
{
    (String::from_str(key), value)
}

fn bool_string(b: bool) -> (r: String)
    ensures
        r@ == bool_text(b),
{
    if b {
        String::from_str("true")
    } else {
        String::from_str("false")
    }
}

fn copy_string(s: &String) -> (r: String)
    ensures
        r@ == s@,
{
    String::from_str(s.as_str())
}

/// The key of the `i`-th stored setting.
fn key_str(i: usize) -> (r: &'static str)
    requires
        i < 17,
    ensures
        r@ == setting_key(i as int),
{
    if i == 0 {
        "hotkey_mode"
    } else if i == 1 {
        "push_to_talk_key"
    } else if i == 2 {
        "toggle_key"
    } else if i == 3 {
        "transcription_provider"
    } else if i == 4 {
        "language"
    } else if i == 5 {
        "auto_detect_language"
    } else if i == 6 {
        "silence_timeout_ms"
    } else if i == 7 {
        "play_sounds"
    } else if i == 8 {
        "injection_strategy"
    } else if i == 9 {
        "preserve_clipboard"
    } else if i == 10 {
        "appearance"
    } else if i == 11 {
        "compact_mode"
    } else if i == 12 {
        "translucency"
    } else if i == 13 {
        "reduced_motion"
    } else if i == 14 {
        "sound_cues"
    } else if i == 15 {
        "cloud_provider_url"
    } else {
        "cloud_provider_name"
    }
}

/// The slot of a key among the stored keys, `17` when it names none.
fn slot_of(key: &str) -> (i: usize)
    ensures
        i == key_slot(key@),
{
    let mut j: usize = 0;
    while j < 17
        invariant
            j <= 17,
            slot_from(key@, 0) == slot_from(key@, j as int),
        decreases 17 - j,
    {
        if str_equal(key, key_str(j)) {
            return j;
        }
        j = j + 1;
    }
    17
}

impl AppSettings {
    /// The entries that saving these settings writes, key by key.
    pub fn to_entries(&self) -> (r: Vec<(String, String)>)
        ensures
            entries_view(r@) == settings_entries(self@),
    {
        let mut v: Vec<(String, String)> = Vec::new();
        v.push(entry("hotkey_mode", copy_string(&self.hotkey_mode)));
        v.push(entry("push_to_talk_key", copy_string(&self.push_to_talk_key)));
        v.push(entry("toggle_key", copy_string(&self.toggle_key)));
        v.push(entry("transcription_provider", copy_string(&self.transcription_provider)));
        v.push(entry("language", copy_string(&self.language)));
        v.push(entry("auto_detect_language", bool_string(self.auto_detect_language)));
        v.push(entry("silence_timeout_ms", format_u64(self.silence_timeout_ms)));
        v.push(entry("play_sounds", bool_string(self.play_sounds)));
        v.push(entry("injection_strategy", copy_string(&self.injection_strategy)));
        v.push(entry("preserve_clipboard", bool_string(self.preserve_clipboard)));
        v.push(entry("appearance", copy_string(&self.appearance)));
        v.push(entry("compact_mode", bool_string(self.compact_mode)));
        v.push(entry("translucency", bool_string(self.translucency)));
        v.push(entry("reduced_motion", bool_string(self.reduced_motion)));
        v.push(entry("sound_cues", bool_string(self.sound_cues)));
        v.push(entry("cloud_provider_url", copy_string(&self.cloud_provider_url)));
        v.push(entry("cloud_provider_name", copy_string(&self.cloud_provider_name)));
        assert(entries_view(v@) =~= settings_entries(self@));
        v
    }

    /// Reads the `i`-th setting from its stored text.
    fn set_slot(&mut self, i: usize, value: &str)
        ensures
            final(self)@ == set_slot(old(self)@, i as int, value@),
    {
        if i == 0 {
            self.hotkey_mode = String::from_str(value);
        } else if i == 1 {
            self.push_to_talk_key = String::from_str(value);
        } else if i == 2 {
            self.toggle_key = String::from_str(value);
        } else if i == 3 {
            self.transcription_provider = String::from_str(value);
        } else if i == 4 {
            self.language = String::from_str(value);
        } else if i == 5 {
            self.auto_detect_language = str_equal(value, "true");
        } else if i == 6 {
            self.silence_timeout_ms = match parse_u64(value) {
            Some(n) => n,
            None => 2000,
        };
        } else if i == 7 {
            self.play_sounds = str_equal(value, "true");
        } else if i == 8 {
            self.injection_strategy = String::from_str(value);
        } else if i == 9 {
            self.preserve_clipboard = str_equal(value, "true");
        } else if i == 10 {
            self.appearance = String::from_str(value);
        } else if i == 11 {
            self.compact_mode = str_equal(value, "true");
        } else if i == 12 {
            self.translucency = str_equal(value, "true");
        } else if i == 13 {
            self.reduced_motion = str_equal(value, "true");
        } else if i == 14 {
            self.sound_cues = str_equal(value, "true");
        } else if i == 15 {
            self.cloud_provider_url = String::from_str(value);
        } else if i == 16 {
            self.cloud_provider_name = String::from_str(value);
        }
    }

    /// Takes one stored value over; a key that names no setting is ignored.
    pub fn apply_stored(&mut self, key: &str, value: &str)
        ensures
            final(self)@ == apply_setting(old(self)@, key@, value@),
    {
        let i = slot_of(key);
        self.set_slot(i, value);
    }

    /// The settings that loading gives: the defaults, with every stored entry
    /// taken over in turn.
    pub fn from_stored(stored: &[(String, String)]) -> (r: AppSettings)
        ensures
            r@ == apply_settings(default_settings(), entries_view(stored@)),
    {
        let mut s = AppSettings::default();
        let n = stored.len();
        let mut i: usize = 0;
        while i < n
            invariant
                n == stored@.len(),
                i <= n,
                s@ == apply_settings(default_settings(), entries_view(stored@.take(i as int))),
            decreases n - i,
        {
            let ghost before = entries_view(stored@.take(i as int));
            assert(entries_view(stored@.take(i + 1)).drop_last() =~= before);
            s.apply_stored(stored[i].0.as_str(), stored[i].1.as_str());
            i = i + 1;
        }
        assert(stored@.take(n as int) =~= stored@);
        s
    }
}

/// The settings once the first `k` stored settings are taken from `s` and
/// the others are still those of `d`.
pub open spec fn partly_loaded(s: SettingsModel, d: SettingsModel, k: int) -> SettingsModel {
    SettingsModel {
        hotkey_mode: if 0 < k { s.hotkey_mode } else { d.hotkey_mode },
        push_to_talk_key: if 1 < k { s.push_to_talk_key } else { d.push_to_talk_key },
        toggle_key: if 2 < k { s.toggle_key } else { d.toggle_key },
        transcription_provider: if 3 < k { s.transcription_provider } else { d.transcription_provider },
        language: if 4 < k { s.language } else { d.language },
        auto_detect_language: if 5 < k { s.auto_detect_language } else { d.auto_detect_language },
        silence_timeout_ms: if 6 < k { s.silence_timeout_ms } else { d.silence_timeout_ms },
        play_sounds: if 7 < k { s.play_sounds } else { d.play_sounds },
        injection_strategy: if 8 < k { s.injection_strategy } else { d.injection_strategy },
        preserve_clipboard: if 9 < k { s.preserve_clipboard } else { d.preserve_clipboard },
        appearance: if 10 < k { s.appearance } else { d.appearance },
        compact_mode: if 11 < k { s.compact_mode } else { d.compact_mode },
        translucency: if 12 < k { s.translucency } else { d.translucency },
        reduced_motion: if 13 < k { s.reduced_motion } else { d.reduced_motion },
        sound_cues: if 14 < k { s.sound_cues } else { d.sound_cues },
        cloud_provider_url: if 15 < k { s.cloud_provider_url } else { d.cloud_provider_url },
        cloud_provider_name: if 16 < k { s.cloud_provider_name } else { d.cloud_provider_name },
        start_sound: d.start_sound,
        stop_sound: d.stop_sound,
    }
}

/// The stored keys are distinct: each key finds its own slot.
proof fn lemma_key_slots()
    ensures
        forall|i: int| 0 <= i < 17 ==> #[trigger] key_slot(setting_key(i)) == i,
{
    reveal_strlit("hotkey_mode");
    reveal_strlit("push_to_talk_key");
    reveal_strlit("toggle_key");
    reveal_strlit("transcription_provider");
    reveal_strlit("language");
    reveal_strlit("auto_detect_language");
    reveal_strlit("silence_timeout_ms");
    reveal_strlit("play_sounds");
    reveal_strlit("injection_strategy");
    reveal_strlit("preserve_clipboard");
    reveal_strlit("appearance");
    reveal_strlit("compact_mode");
    reveal_strlit("translucency");
    reveal_strlit("reduced_motion");
    reveal_strlit("sound_cues");
    reveal_strlit("cloud_provider_url");
    reveal_strlit("cloud_provider_name");
    reveal_with_fuel(slot_from, 18);
    assert("hotkey_mode"@.len() == 11 && "hotkey_mode"@[0] == 'h');
    assert("push_to_talk_key"@.len() == 16 && "push_to_talk_key"@[0] == 'p');
    assert("toggle_key"@.len() == 10 && "toggle_key"@[0] == 't');
    assert("transcription_provider"@.len() == 22 && "transcription_provider"@[0] == 't');
    assert("language"@.len() == 8 && "language"@[0] == 'l');
    assert("auto_detect_language"@.len() == 20 && "auto_detect_language"@[0] == 'a');
    assert("silence_timeout_ms"@.len() == 18 && "silence_timeout_ms"@[0] == 's');
    assert("play_sounds"@.len() == 11 && "play_sounds"@[0] == 'p');
    assert("injection_strategy"@.len() == 18 && "injection_strategy"@[0] == 'i');
    assert("preserve_clipboard"@.len() == 18 && "preserve_clipboard"@[0] == 'p');
    assert("appearance"@.len() == 10 && "appearance"@[0] == 'a');
    assert("compact_mode"@.len() == 12 && "compact_mode"@[0] == 'c');
    assert("translucency"@.len() == 12 && "translucency"@[0] == 't');
    assert("reduced_motion"@.len() == 14 && "reduced_motion"@[0] == 'r');
    assert("sound_cues"@.len() == 10 && "sound_cues"@[0] == 's');
    assert("cloud_provider_url"@.len() == 18 && "cloud_provider_url"@[0] == 'c');
    assert("cloud_provider_name"@.len() == 19 && "cloud_provider_name"@[0] == 'c');
    assert(key_slot(setting_key(0)) == 0);
    assert(key_slot(setting_key(1)) == 1);
    assert(key_slot(setting_key(2)) == 2);
    assert(key_slot(setting_key(3)) == 3);
    assert(key_slot(setting_key(4)) == 4);
    assert(key_slot(setting_key(5)) == 5);
    assert(key_slot(setting_key(6)) == 6);
    assert(key_slot(setting_key(7)) == 7);
    assert(key_slot(setting_key(8)) == 8);
    assert(key_slot(setting_key(9)) == 9);
    assert(key_slot(setting_key(10)) == 10);
    assert(key_slot(setting_key(11)) == 11);
    assert(key_slot(setting_key(12)) == 12);
    assert(key_slot(setting_key(13)) == 13);
    assert(key_slot(setting_key(14)) == 14);
    assert(key_slot(setting_key(15)) == 15);
    assert(key_slot(setting_key(16)) == 16);
}

/// Reading back the stored text of a setting gives the setting.
proof fn lemma_slot_round_trip(s: SettingsModel, d: SettingsModel, k: int)
    requires
        0 <= k < 17,
    ensures
        set_slot(partly_loaded(s, d, k), k, stored_value(s, k)) == partly_loaded(s, d, k + 1),
{
    reveal_strlit("true");
    reveal_strlit("false");
    assert("false"@.len() != "true"@.len());
    law_decimal_round_trip(s.silence_timeout_ms);
    if k == 0 {
    } else if k == 1 {
    } else if k == 2 {
    } else if k == 3 {
    } else if k == 4 {
    } else if k == 5 {
    } else if k == 6 {
    } else if k == 7 {
    } else if k == 8 {
    } else if k == 9 {
    } else if k == 10 {
    } else if k == 11 {
    } else if k == 12 {
    } else if k == 13 {
    } else if k == 14 {
    } else if k == 15 {
    } else {
    }
}

/// Loading the first `k` stored entries of `s` over the defaults.
proof fn lemma_loaded_prefix(s: SettingsModel, k: int)
    requires
        0 <= k <= 17,
    ensures
        apply_settings(default_settings(), settings_entries(s).take(k)) == partly_loaded(
            s,
            default_settings(),
            k,
        ),
    decreases k,
{
    let d = default_settings();
    let e = settings_entries(s);
    if k == 0 {
        assert(e.take(0) =~= Seq::<(Seq<char>, Seq<char>)>::empty());
    } else {
        lemma_loaded_prefix(s, k - 1);
        lemma_key_slots();
        assert(e.take(k).drop_last() =~= e.take(k - 1));
        assert(e.take(k).last() == (setting_key(k - 1), stored_value(s, k - 1)));
        assert(key_slot(setting_key(k - 1)) == k - 1);
        lemma_slot_round_trip(s, d, k - 1);
    }
}

/// What a read gives back of a write: loading the entries that saving wrote
/// gives back every saved setting; the two sound toggles, which are not
/// saved, come back as their defaults.
pub proof fn law_settings_round_trip(s: SettingsModel)
    ensures
        apply_settings(default_settings(), settings_entries(s)) == (SettingsModel {
            start_sound: true,
            stop_sound: true,
            ..s
        }),
{
    lemma_loaded_prefix(s, 17);
    assert(settings_entries(s).take(17) =~= settings_entries(s));
}

} // verus!
