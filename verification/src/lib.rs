pub mod text;
pub mod pattern;
pub mod postprocess;
pub mod decimal;
pub mod settings;
pub mod models;
pub mod injection;
pub mod hotkey;
pub mod dictionary;
pub mod state;
pub mod transcription;
pub mod history;
pub mod dictation;
pub mod audio;
