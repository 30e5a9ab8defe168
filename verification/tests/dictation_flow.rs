use voxforge::dictation::{
    dictation_step, DictationAction, DictationError, DictationEvent, DictationStage,
};
use voxforge::postprocess::PostProcessingRule;
use voxforge::state::RecordingState;

fn step(
    stage: DictationStage,
    event: DictationEvent,
) -> (DictationStage, DictationAction) {
    dictation_step(stage, event, &PostProcessingRule::defaults()).expect("the event fits the stage")
}

#[test]
fn dictation_runs_to_the_end() {
    let (stage, action) = step(
        DictationStage::Stopping,
        DictationEvent::Stopped { sample_count: 48000, sample_rate: 48000 },
    );
    assert!(matches!(action, DictationAction::Transcribe { resample: true }));
    assert_eq!(action.recording_state(), RecordingState::Processing);

    let (stage, action) = step(stage, DictationEvent::Transcribed("hello   world. it works".to_string()));
    assert!(matches!(action, DictationAction::ReadDictionary));

    let reps = vec![("world".to_string(), "World".to_string())];
    let (stage, action) = step(stage, DictationEvent::DictionaryRead(Some(reps)));
    match &action {
        DictationAction::Inject(text) => assert_eq!(text, "Hello World. It works"),
        other => panic!("expected an injection, got {:?}", other),
    }

    let (stage, action) = step(stage, DictationEvent::Injected);
    match &action {
        DictationAction::Save(text) => assert_eq!(text, "Hello World. It works"),
        other => panic!("expected a save, got {:?}", other),
    }

    let (stage, action) = step(stage, DictationEvent::Saved);
    assert!(matches!(stage, DictationStage::Over));
    match &action {
        DictationAction::Finish(text) => assert_eq!(text, "Hello World. It works"),
        other => panic!("expected the end, got {:?}", other),
    }
    assert_eq!(action.recording_state(), RecordingState::Idle);
}

#[test]
fn dictation_at_the_model_rate_is_not_resampled() {
    let (_, action) = step(
        DictationStage::Stopping,
        DictationEvent::Stopped { sample_count: 10, sample_rate: 16000 },
    );
    assert!(matches!(action, DictationAction::Transcribe { resample: false }));
}

#[test]
fn dictation_without_audio_goes_idle() {
    let (stage, action) = step(
        DictationStage::Stopping,
        DictationEvent::Stopped { sample_count: 0, sample_rate: 48000 },
    );
    assert!(matches!(stage, DictationStage::Over));
    assert!(matches!(action, DictationAction::Fail(DictationError::NoAudio)));
    assert_eq!(action.recording_state(), RecordingState::Idle);
}

#[test]
fn dictation_without_speech_goes_idle() {
    let (_, action) = step(DictationStage::Transcribing, DictationEvent::Transcribed(String::new()));
    assert!(matches!(action, DictationAction::Fail(DictationError::NoSpeech)));
    assert_eq!(action.recording_state(), RecordingState::Idle);
}

#[test]
fn dictation_without_model_stays_processing() {
    let (_, action) = step(DictationStage::Transcribing, DictationEvent::NoModel);
    match &action {
        DictationAction::Fail(e) => assert_eq!(
            e.message(),
            "No transcription model loaded. Go to Models tab and download one first."
        ),
        other => panic!("expected a failure, got {:?}", other),
    }
    assert_eq!(action.recording_state(), RecordingState::Processing);
}

#[test]
fn dictation_model_failure_is_reported() {
    let (_, action) = step(
        DictationStage::Transcribing,
        DictationEvent::TranscriptionFailed("bad input".to_string()),
    );
    match &action {
        DictationAction::Fail(e) => assert_eq!(e.message(), "Transcription failed: bad input"),
        other => panic!("expected a failure, got {:?}", other),
    }
}

#[test]
fn dictation_injection_failure_is_reported() {
    let (_, action) = step(
        DictationStage::Injecting { text: "Hi.".to_string() },
        DictationEvent::InjectionFailed("no clipboard".to_string()),
    );
    match &action {
        DictationAction::Fail(e) => assert_eq!(e.message(), "Text injection failed: no clipboard"),
        other => panic!("expected a failure, got {:?}", other),
    }
    assert_eq!(action.recording_state(), RecordingState::Processing);
}

#[test]
fn dictation_without_dictionary_uses_rules_only() {
    let (_, action) = step(
        DictationStage::ReadingDictionary { transcript: "  so  it works. yes".to_string() },
        DictationEvent::DictionaryRead(None),
    );
    match &action {
        DictationAction::Inject(text) => assert_eq!(text, "So it works. Yes"),
        other => panic!("expected an injection, got {:?}", other),
    }
}

#[test]
fn dictation_out_of_step_event_is_refused() {
    let rules = PostProcessingRule::defaults();
    assert!(dictation_step(DictationStage::Over, DictationEvent::Saved, &rules).is_none());
    assert!(dictation_step(DictationStage::Stopping, DictationEvent::Injected, &rules).is_none());
}
