# voxforge

The back end of VoxForge, a voice-dictation desktop app: speech is recorded,
transcribed with a Whisper model, cleaned up, and pasted into the focused
application.

## Layout

- `src/` — the library, written in Verus and verified. Every public function
  carries a contract, and the properties that span functions are stated as
  proof functions whose names begin with `law_`.
  - `text` — characters, Unicode white space, trimming, word counts.
  - `pattern` — whole-word, case-insensitive replacement through `regex_lite`.
  - `postprocess` — the post-processing rules and the pipeline that runs them.
  - `dictionary` — the custom dictionary and the developer terms it is seeded with.
  - `decimal` — reading and writing unsigned decimal numbers.
  - `settings` — the application settings and their stored key/value form.
  - `models` — the Whisper model catalog, model paths, the active model, disk usage.
  - `injection` — the steps that paste text into the focused application.
  - `hotkey` — turning modifier-flag reports into fn-key presses and releases.
  - `audio` — choosing the input device.
  - `transcription` — providers, segments and transcripts.
  - `history` — history records and the search pattern.
  - `state` — the recording state and the hotkey mode.
  - `dictation` — the dictation flow as a state machine: each step takes what
    the outside work came to and says what to do next.
- `tests/` — tests of the library on concrete values.
- `app/` — the desktop side, in plain Rust: microphone capture and sample
  processing (floating point), the Whisper runtime, the cloud client, the
  SQLite store, clipboard and key events, permissions, and the commands the
  user interface calls. It carries out what the library decides.
