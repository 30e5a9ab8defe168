//! The decisions of the dictation flow: stop recording, transcribe, clean up
//! the transcript, inject it, and record it.
//!
//! The caller does the work (audio, model, clipboard, storage) and asks here
//! what follows from each outcome.
use vstd::prelude::*;
use crate::dictionary::{apply_replacements, pairs_view, replacements_result};
use crate::postprocess::{apply_rules, rules_result, PostProcessingRule};
use crate::state::RecordingState;

verus! {

/// The sample rate the transcription model expects.
pub const WHISPER_SAMPLE_RATE: u32 = 16000;

/// Why a dictation stopped.
#[derive(Debug, Clone)]
pub enum DictationError {
    /// Nothing was recorded.
    NoAudio,
    /// No transcription model is loaded.
    NoModel,
    /// The model failed, with its message.
    TranscriptionFailed(String),
    /// The model heard no speech.
    NoSpeech,
    /// The text could not be injected, with the reason.
    InjectionFailed(String),
}

impl DictationError {
    /// The message shown for the error.
    pub fn message(&self) -> (r: String)
        ensures
            r@ == match self {
                DictationError::NoAudio => "No audio captured. Make sure your microphone is working."@,
                DictationError::NoModel => "No transcription model loaded. Go to Models tab and download one first."@,
                DictationError::TranscriptionFailed(m) => "Transcription failed: "@ + m@,
                DictationError::NoSpeech => "No speech detected. Try speaking louder or longer."@,
                DictationError::InjectionFailed(m) => "Text injection failed: "@ + m@,
            },
    {
        match self {
            DictationError::NoAudio => String::from_str(
                "No audio captured. Make sure your microphone is working.",
            ),
            DictationError::NoModel => String::from_str(
                "No transcription model loaded. Go to Models tab and download one first.",
            ),
            DictationError::TranscriptionFailed(m) => {
                let mut s = String::from_str("Transcription failed: ");
                s.append(m.as_str());
                s
            },
            DictationError::NoSpeech => String::from_str(
                "No speech detected. Try speaking louder or longer.",
            ),
            DictationError::InjectionFailed(m) => {
                let mut s = String::from_str("Text injection failed: ");
                s.append(m.as_str());
                s
            },
        }
    }

    /// The recording state the flow is left in: back to idle when nothing
    /// was recorded or nothing was said; still processing otherwise.
    pub fn state_after(&self) -> (r: RecordingState)
        ensures
            r == match self {
                DictationError::NoAudio | DictationError::NoSpeech => RecordingState::Idle,
                _ => RecordingState::Processing,
            },
    {
        match self {
            DictationError::NoAudio | DictationError::NoSpeech => RecordingState::Idle,
            _ => RecordingState::Processing,
        }
    }
}

/// Whether a recording at `sample_rate` has to be resampled for the model.
pub fn needs_resampling(sample_rate: u32) -> (r: bool)
    ensures
        r == (sample_rate != WHISPER_SAMPLE_RATE),
{
    sample_rate != WHISPER_SAMPLE_RATE
}

/// A recording goes on to transcription only when it holds samples.
pub fn check_recording(sample_count: usize) -> (r: Result<(), DictationError>)
    ensures
        r is Err <==> sample_count == 0,
        r matches Err(e) ==> e is NoAudio,
{
    if sample_count == 0 {
        Err(DictationError::NoAudio)
    } else {
        Ok(())
    }
}

/// A transcript goes on to injection only when it is not empty.
pub fn check_transcript(text: &str) -> (r: Result<(), DictationError>)
    ensures
        r is Err <==> text@.len() == 0,
        r matches Err(e) ==> e is NoSpeech,
{
    if text.is_empty() {
        Err(DictationError::NoSpeech)
    } else {
        Ok(())
    }
}

/// The text of a transcript after the dictionary's replacements, when there
/// are any.
pub open spec fn with_dictionary(text: Seq<char>, replacements: Option<Seq<(Seq<char>, Seq<char>)>>) -> Seq<char> {
    match replacements {
        Some(r) => replacements_result(text, r),
        None => text,
    }
}

/// The text that is injected: the transcript with the dictionary's
/// replacements (when the dictionary could be read), then the enabled
/// post-processing rules.
pub fn finish_transcript(
    text: &str,
    replacements: &Option<Vec<(String, String)>>,
    rules: &[PostProcessingRule],
) -> (r: String)
    ensures
        r@ == rules_result(
            with_dictionary(
                text@,
                match replacements {
                    Some(v) => Some(pairs_view(v@)),
                    None => None,
                },
            ),
            rules@,
        ),
{
    let replaced = match replacements {
        Some(reps) => apply_replacements(text, reps.as_slice()),
        None => String::from_str(text),
    };
    apply_rules(replaced.as_str(), rules)
}

/// Why a recording handed to the model directly could not be transcribed.
#[derive(Debug, Clone)]
pub enum TranscribeError {
    /// The recording, once at the model's rate, holds no samples.
    NoAudio,
    /// No transcription model is loaded.
    NoModel,
    /// The model failed, with its message.
    Failed(String),
}

/// Whether a recording handed to the model directly goes on to the model:
/// not when it holds no samples once at the model's rate, and otherwise not
/// when no model is loaded.
pub fn check_direct_transcription(sample_count: usize, model_loaded: bool) -> (r: Result<(), TranscribeError>)
    ensures
        sample_count == 0 ==> r matches Err(TranscribeError::NoAudio),
        sample_count > 0 && !model_loaded ==> r matches Err(TranscribeError::NoModel),
        sample_count > 0 && model_loaded ==> r is Ok,
{
    if sample_count == 0 {
        Err(TranscribeError::NoAudio)
    } else if !model_loaded {
        Err(TranscribeError::NoModel)
    } else {
        Ok(())
    }
}

impl TranscribeError {
    /// The message shown for the error.
    pub fn message(&self) -> (r: String)
        ensures
            r@ == match self {
                TranscribeError::NoAudio => "No audio captured"@,
                TranscribeError::NoModel => "No transcription model loaded. Please download a model in the Models tab first."@,
                TranscribeError::Failed(m) => m@,
            },
    {
        match self {
            TranscribeError::NoAudio => String::from_str("No audio captured"),
            TranscribeError::NoModel => String::from_str(
                "No transcription model loaded. Please download a model in the Models tab first.",
            ),
            TranscribeError::Failed(m) => String::from_str(m.as_str()),
        }
    }
}

/// Where a dictation stands while the caller does the outside work of one
/// step.
#[derive(Debug)]
pub enum DictationStage {
    /// The recorder is being stopped.
    Stopping,
    /// The model is transcribing the recording.
    Transcribing,
    /// The dictionary's replacements are being read for the transcript.
    ReadingDictionary { transcript: String },
    /// The finished text is being injected.
    Injecting { text: String },
    /// The record of the dictation is being saved.
    Saving { text: String },
    /// The dictation is over.
    Over,
}

/// What the outside work of a step came to.
#[derive(Debug)]
pub enum DictationEvent {
    /// The recorder stopped, holding this many samples at this rate.
    Stopped { sample_count: usize, sample_rate: u32 },
    /// No transcription model is loaded.
    NoModel,
    /// The model produced this transcript.
    Transcribed(String),
    /// The model failed, with its message.
    TranscriptionFailed(String),
    /// The dictionary's active replacements, or `None` when it could not be
    /// read.
    DictionaryRead(Option<Vec<(String, String)>>),
    /// The text was injected.
    Injected,
    /// The text could not be injected, with the reason.
    InjectionFailed(String),
    /// Saving the record is done (whether or not it was stored).
    Saved,
}

/// What the caller does next.
#[derive(Debug)]
pub enum DictationAction {
    /// Transcribe the recording, resampled to the model's rate first when
    /// `resample` holds.
    Transcribe { resample: bool },
    /// Read the dictionary's active replacements.
    ReadDictionary,
    /// Inject this text into the focused application.
    Inject(String),
    /// Save the record of this text.
    Save(String),
    /// The dictation succeeded with this text.
    Finish(String),
    /// The dictation stopped with this error.
    Fail(DictationError),
}

impl DictationAction {
    /// The recording state the caller leaves in place after the action:
    /// idle once the dictation succeeded, as the error says when it failed,
    /// and processing while it goes on.
    pub fn recording_state(&self) -> (r: RecordingState)
        ensures
            r == match self {
                DictationAction::Finish(_) => RecordingState::Idle,
                DictationAction::Fail(DictationError::NoAudio) => RecordingState::Idle,
                DictationAction::Fail(DictationError::NoSpeech) => RecordingState::Idle,
                _ => RecordingState::Processing,
            },
    {
        match self {
            DictationAction::Finish(_) => RecordingState::Idle,
            DictationAction::Fail(e) => e.state_after(),
            _ => RecordingState::Processing,
        }
    }
}

/// The dictionary's replacements as plain values, when there are any.
pub open spec fn replacements_view(reps: Option<Vec<(String, String)>>) -> Option<Seq<(Seq<char>, Seq<char>)>> {
    match reps {
        Some(v) => Some(pairs_view(v@)),
        None => None,
    }
}

/// One step of a dictation: from where it stands and what the outside work
/// came to, where it goes and what the caller does next. `None` when the
/// event does not belong to the stage.
///
/// A recording without samples stops the dictation with `NoAudio`; one at
/// another rate than the model's is resampled; a missing model, a failing
/// model and an empty transcript stop it; a transcript is cleaned up with
/// the dictionary (when it could be read) and the post-processing rules
/// before it is injected; a failed injection stops it; an injected text is
/// saved and then reported.
pub fn dictation_step(
    stage: DictationStage,
    event: DictationEvent,
    rules: &[PostProcessingRule],
) -> (r: Option<(DictationStage, DictationAction)>)
    ensures
        match (stage, event) {
            (DictationStage::Stopping, DictationEvent::Stopped { sample_count, sample_rate }) => if sample_count == 0 {
                r == Some((DictationStage::Over, DictationAction::Fail(DictationError::NoAudio)))
            } else {
                r == Some((
                    DictationStage::Transcribing,
                    DictationAction::Transcribe { resample: sample_rate != WHISPER_SAMPLE_RATE },
                ))
            },
            (DictationStage::Transcribing, DictationEvent::NoModel) => r == Some(
                (DictationStage::Over, DictationAction::Fail(DictationError::NoModel)),
            ),
            (DictationStage::Transcribing, DictationEvent::TranscriptionFailed(m)) => {
                &&& r matches Some((DictationStage::Over, DictationAction::Fail(DictationError::TranscriptionFailed(m2))))
                &&& m2@ == m@
            },
            (DictationStage::Transcribing, DictationEvent::Transcribed(t)) => if t@.len() == 0 {
                r == Some((DictationStage::Over, DictationAction::Fail(DictationError::NoSpeech)))
            } else {
                &&& r matches Some((DictationStage::ReadingDictionary { transcript }, DictationAction::ReadDictionary))
                &&& transcript@ == t@
            },
            (DictationStage::ReadingDictionary { transcript }, DictationEvent::DictionaryRead(reps)) => {
                &&& r matches Some((DictationStage::Injecting { text }, DictationAction::Inject(t2)))
                &&& text@ == t2@
                &&& text@ == rules_result(with_dictionary(transcript@, replacements_view(reps)), rules@)
            },
            (DictationStage::Injecting { text }, DictationEvent::Injected) => {
                &&& r matches Some((DictationStage::Saving { text: t2 }, DictationAction::Save(t3)))
                &&& t2@ == text@
                &&& t3@ == text@
            },
            (DictationStage::Injecting { .. }, DictationEvent::InjectionFailed(m)) => {
                &&& r matches Some((DictationStage::Over, DictationAction::Fail(DictationError::InjectionFailed(m2))))
                &&& m2@ == m@
            },
            (DictationStage::Saving { text }, DictationEvent::Saved) => {
                &&& r matches Some((DictationStage::Over, DictationAction::Finish(t2)))
                &&& t2@ == text@
            },
            _ => r is None,
        },
{
    match (stage, event) {
        (DictationStage::Stopping, DictationEvent::Stopped { sample_count, sample_rate }) => {
            match check_recording(sample_count) {
                Err(e) => Some((DictationStage::Over, DictationAction::Fail(e))),
                Ok(()) => Some((
                    DictationStage::Transcribing,
                    DictationAction::Transcribe { resample: needs_resampling(sample_rate) },
                )),
            }
        },
        (DictationStage::Transcribing, DictationEvent::NoModel) => Some(
            (DictationStage::Over, DictationAction::Fail(DictationError::NoModel)),
        ),
        (DictationStage::Transcribing, DictationEvent::TranscriptionFailed(m)) => Some(
            (DictationStage::Over, DictationAction::Fail(DictationError::TranscriptionFailed(m))),
        ),
        (DictationStage::Transcribing, DictationEvent::Transcribed(t)) => {
            match check_transcript(t.as_str()) {
                Err(e) => Some((DictationStage::Over, DictationAction::Fail(e))),
                Ok(()) => Some(
                    (DictationStage::ReadingDictionary { transcript: t }, DictationAction::ReadDictionary),
                ),
            }
        },
        (DictationStage::ReadingDictionary { transcript }, DictationEvent::DictionaryRead(reps)) => {
            let text = finish_transcript(transcript.as_str(), &reps, rules);
            let injected = text.clone();
            Some((DictationStage::Injecting { text }, DictationAction::Inject(injected)))
        },
        (DictationStage::Injecting { text }, DictationEvent::Injected) => {
            let saved = text.clone();
            Some((DictationStage::Saving { text }, DictationAction::Save(saved)))
        },
        (DictationStage::Injecting { .. }, DictationEvent::InjectionFailed(m)) => Some(
            (DictationStage::Over, DictationAction::Fail(DictationError::InjectionFailed(m))),
        ),
        (DictationStage::Saving { text }, DictationEvent::Saved) => Some(
            (DictationStage::Over, DictationAction::Finish(text)),
        ),
        _ => None,
    }
}

} // verus!
