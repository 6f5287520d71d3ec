use konjac::session::{translation_outcome, SessionState, TranslateGate, TranslationOutcome};
use konjac::translate::TranslateError;

#[test]
fn new_session_captures_and_is_fresh() {
    let s = SessionState::new();
    assert!(s.is_capturing);
    assert!(!s.is_stale);
}

#[test]
fn stale_is_announced_once() {
    let mut s = SessionState::new();
    assert!(s.mark_stale());
    assert!(s.is_stale);
    assert!(!s.mark_stale());
    assert!(s.is_stale);
}

#[test]
fn translation_rearms_stale_notice() {
    let mut s = SessionState::new();
    s.mark_stale();
    assert_eq!(s.begin_translation("https://gw", "key"), TranslateGate::Proceed);
    assert!(!s.is_stale);
    assert!(s.mark_stale());
}

#[test]
fn paused_session_does_not_translate() {
    let mut s = SessionState::new();
    s.mark_stale();
    s.pause();
    assert!(!s.is_capturing);
    assert_eq!(s.begin_translation("https://gw", "key"), TranslateGate::Paused);
    assert!(s.is_stale);
    s.resume();
    assert!(s.is_capturing);
}

#[test]
fn missing_settings_are_reported() {
    let mut s = SessionState::new();
    s.mark_stale();
    assert_eq!(s.begin_translation("", "key"), TranslateGate::NotConfigured);
    assert_eq!(s.begin_translation("https://gw", ""), TranslateGate::NotConfigured);
    assert!(s.is_stale);
}

#[test]
fn finished_translation_outcomes() {
    assert!(matches!(translation_outcome(Ok("Hello".to_string())), TranslationOutcome::Translated(t) if t == "Hello"));
    assert!(matches!(translation_outcome(Err(TranslateError::Cancelled)), TranslationOutcome::Silent));
    assert!(matches!(
        translation_outcome(Err(TranslateError::BadResponse)),
        TranslationOutcome::Failed(m) if m == "unexpected api response"
    ));
    assert!(matches!(
        translation_outcome(Err(TranslateError::Http("timeout".to_string()))),
        TranslationOutcome::Failed(m) if m == "http error: timeout"
    ));
}
