use vstd::prelude::*;
use crate::translate::{translate_error_text, TranslateError};

verus! {

/// The switches of a running overlay that its commands and the capture loop share.
#[derive(Debug, Clone, Copy, PartialEq, Eq)]
pub struct SessionState {
    /// Whether capturing (and so translating) is on.
    pub is_capturing: bool,
    /// Whether the screen below the window changed since the last translation
    /// started, and the user has been told so.
    pub is_stale: bool,
}

/// What `translate_now` does after looking at the session and the settings.
#[derive(Debug, Clone, Copy, PartialEq, Eq)]
pub enum TranslateGate {
    /// Capturing is paused: nothing happens.
    Paused,
    /// The gateway URL or the API key is empty: the user is sent to the settings.
    NotConfigured,
    /// The translation goes ahead; the stale mark has been cleared.
    Proceed,
}

/// The session after the content has been marked stale.
pub open spec fn stale_marked(s: SessionState) -> SessionState {
    SessionState { is_stale: true, ..s }
}

/// Whether marking the content stale must tell the user: only the first time
/// since the last translation started.
pub open spec fn stale_notifies(s: SessionState) -> bool {
    !s.is_stale
}

/// The decision of `translate_now` for a session and the configured gateway URL and key.
pub open spec fn translate_gate(s: SessionState, gateway_url: Seq<char>, api_key: Seq<char>) -> TranslateGate {
    if !s.is_capturing {
        TranslateGate::Paused
    } else if gateway_url.len() == 0 || api_key.len() == 0 {
        TranslateGate::NotConfigured
    } else {
        TranslateGate::Proceed
    }
}

/// The session after that decision.
pub open spec fn gated_session(s: SessionState, gate: TranslateGate) -> SessionState {
    if gate == TranslateGate::Proceed {
        SessionState { is_stale: false, ..s }
    } else {
        s
    }
}

impl SessionState {
    /// A session that captures and has nothing stale yet.
    pub fn new() -> (s: Self)
        ensures
            s.is_capturing,
            !s.is_stale,
    {
        SessionState { is_capturing: true, is_stale: false }
    }

    /// Stops capturing.
    pub fn pause(&mut self)
        ensures
            *final(self) == (SessionState { is_capturing: false, ..*old(self) }),
    {
        self.is_capturing = false;
    }

    /// Resumes capturing.
    pub fn resume(&mut self)
        ensures
            *final(self) == (SessionState { is_capturing: true, ..*old(self) }),
    {
        self.is_capturing = true;
    }

    /// Marks the content below the window stale; returns whether the user must
    /// be told (it was not stale before).
    pub fn mark_stale(&mut self) -> (notify: bool)
        ensures
            *final(self) == stale_marked(*old(self)),
            notify == stale_notifies(*old(self)),
    {
        let notify: bool = !self.is_stale;
        if notify {
            self.is_stale = true;
        }
        notify
    }

    /// Decides whether a translation may start with the given gateway URL and
    /// API key; when it may, the stale mark is cleared.
    pub fn begin_translation(&mut self, gateway_url: &str, api_key: &str) -> (gate: TranslateGate)
        ensures
            gate == translate_gate(*old(self), gateway_url@, api_key@),
            *final(self) == gated_session(*old(self), gate),
            old(self).is_capturing && gateway_url@.len() > 0 && api_key@.len() > 0 ==> (gate
                == TranslateGate::Proceed && !final(self).is_stale),
            !old(self).is_capturing ==> gate == TranslateGate::Paused,
            old(self).is_capturing && (gateway_url@.len() == 0 || api_key@.len() == 0) ==> gate
                == TranslateGate::NotConfigured,
            final(self).is_capturing == old(self).is_capturing,
    {
        if !self.is_capturing {
            return TranslateGate::Paused;
        }
        if gateway_url.is_empty() || api_key.is_empty() {
            return TranslateGate::NotConfigured;
        }
        self.is_stale = false;
        TranslateGate::Proceed
    }
}

/// What the overlay does once a translation has finished.
#[derive(Debug)]
pub enum TranslationOutcome {
    /// Show the text and remember it in the history.
    Translated(String),
    /// The translation was cancelled by a newer one: nothing is shown.
    Silent,
    /// Show this error text.
    Failed(String),
}

/// `outcome` is what a finished translation with `result` leads to: its text
/// is shown and remembered, a cancelled one shows nothing, and any other error
/// shows its text.
pub open spec fn is_outcome_of(result: Result<String, TranslateError>, outcome: TranslationOutcome) -> bool {
    match result {
        Ok(text) => outcome matches TranslationOutcome::Translated(t) && t@ == text@,
        Err(TranslateError::Cancelled) => outcome is Silent,
        Err(e) => outcome matches TranslationOutcome::Failed(m) && m@ == translate_error_text(e),
    }
}

/// Decides what a finished translation leads to.
pub fn translation_outcome(result: Result<String, TranslateError>) -> (outcome: TranslationOutcome)
    ensures
        is_outcome_of(result, outcome),
        result matches Ok(text) ==> (outcome matches TranslationOutcome::Translated(t) && t@ == text@),
        outcome is Silent <==> result matches Err(TranslateError::Cancelled),
        outcome is Failed <==> (result is Err && !(result matches Err(TranslateError::Cancelled))),
{
    match result {
        Ok(text) => TranslationOutcome::Translated(text),
        Err(TranslateError::Cancelled) => TranslationOutcome::Silent,
        Err(e) => TranslationOutcome::Failed(e.message()),
    }
}

/// Every successful translation is shown and remembered with its own text, the
/// empty text included; only a cancelled one is silent.
pub proof fn lemma_outcome_keeps_text(result: Result<String, TranslateError>, outcome: TranslationOutcome)
    requires
        is_outcome_of(result, outcome),
    ensures
        result matches Ok(text) ==> (outcome matches TranslationOutcome::Translated(t) && t@ == text@),
        outcome is Silent <==> result matches Err(TranslateError::Cancelled),
{
}

/// Whether a translation starts depends on the capture switch and the two
/// settings only, never on the stale mark: a capturing session with a gateway
/// URL and an API key always proceeds.
pub proof fn lemma_gate_ignores_stale(
    s1: SessionState,
    s2: SessionState,
    gateway_url: Seq<char>,
    api_key: Seq<char>,
)
    requires
        s1.is_capturing == s2.is_capturing,
    ensures
        translate_gate(s1, gateway_url, api_key) == translate_gate(s2, gateway_url, api_key),
        s1.is_capturing && gateway_url.len() > 0 && api_key.len() > 0 ==> translate_gate(
            s1,
            gateway_url,
            api_key,
        ) == TranslateGate::Proceed,
{
}

/// Once the content is marked stale, marking it again tells nobody: the user
/// hears of a change once until a translation starts.
pub proof fn lemma_stale_notifies_once(s: SessionState)
    ensures
        !stale_notifies(stale_marked(s)),
        stale_marked(stale_marked(s)) == stale_marked(s),
{
}

/// A translation that goes ahead re-arms the notice: the next change is told again.
pub proof fn lemma_translation_rearms_notice(s: SessionState, gateway_url: Seq<char>, api_key: Seq<char>)
    requires
        translate_gate(s, gateway_url, api_key) == TranslateGate::Proceed,
    ensures
        stale_notifies(gated_session(s, translate_gate(s, gateway_url, api_key))),
{
}

/// A paused session never starts a translation and is left as it was.
pub proof fn lemma_paused_never_translates(s: SessionState, gateway_url: Seq<char>, api_key: Seq<char>)
    requires
        !s.is_capturing,
    ensures
        translate_gate(s, gateway_url, api_key) == TranslateGate::Paused,
        gated_session(s, translate_gate(s, gateway_url, api_key)) == s,
{
}

} // verus!
