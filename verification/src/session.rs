//! The translation session: a state machine that sequences the four remote
//! calls of a glossary-assisted translation. The caller performs each
//! returned [`Action`] (an HTTP call), then feeds the outcome back in as an
//! [`Event`]. The machine guarantees the ordering and cleanup discipline:
//! a created glossary is deleted exactly once, on the success path and on
//! the failure path alike, and the first error is the one reported.

use vstd::prelude::*;
use vstd::pervasive::unreached;

use crate::types::{Failure, GlossaryHandle, GlossaryRequest, SessionStep, TranslationRequest,
    TranslationResult};

verus! {

/// Everything a session needs up front: the language pair, the glossary to
/// create, the text to translate, and whether to back-translate the result.
#[derive(Clone, Debug)]
pub struct SessionConfig {
    pub source_lang: String,
    pub target_lang: String,
    pub glossary_name: String,
    /// Raw CSV text of the glossary entries.
    pub entries_csv: String,
    /// The text to translate.
    pub text: String,
    /// When set, the primary translation's output is translated back into
    /// the source language as a quality check.
    pub back_translate: bool,
}

/// The outcome of one remote call, as the caller observed it.
#[derive(Debug)]
pub enum Event {
    GlossaryOutcome(Result<GlossaryHandle, Failure>),
    TranslateOutcome(Result<Vec<TranslationResult>, Failure>),
    DeleteOutcome(Result<(), Failure>),
    BackTranslateOutcome(Result<Vec<TranslationResult>, Failure>),
}

/// What the caller must do next. Every variant but [`Action::Done`] is one
/// HTTP call whose outcome is fed back via [`Session::advance`].
#[derive(Clone, Debug)]
pub enum Action {
    CallCreateGlossary(GlossaryRequest),
    CallTranslate(TranslationRequest),
    CallDeleteGlossary(String),
    CallBackTranslate(TranslationRequest),
    Done,
}

/// Where a session stands: which call is in flight, and what is already
/// known. A glossary id appears in a state exactly while the server-side
/// glossary exists and still has to be deleted.
#[derive(Debug)]
pub enum SessionState {
    CreatingGlossary,
    Translating { glossary_id: String },
    Deleting { glossary_id: String, translated: Result<TranslationResult, Failure> },
    BackTranslating { primary: TranslationResult, cleanup_failure: Option<Failure> },
    Finished { outcome: SessionOutcome },
}

/// The final report of a session. A cleanup failure never replaces an
/// earlier error and never turns a completed translation into a failure; it
/// is carried alongside.
#[derive(Debug)]
pub enum SessionOutcome {
    Failed { step: SessionStep, failure: Failure, cleanup_failure: Option<Failure> },
    Completed {
        primary: TranslationResult,
        /// Present when back-translation was requested; its own failure
        /// does not invalidate the primary result.
        back: Option<Result<TranslationResult, Failure>>,
        cleanup_failure: Option<Failure>,
    },
}

/// The glossary creation request a session sends first.
pub open spec fn glossary_request_of(cfg: SessionConfig) -> GlossaryRequest {
    GlossaryRequest {
        name: cfg.glossary_name,
        source_lang: cfg.source_lang,
        target_lang: cfg.target_lang,
        entries_csv: cfg.entries_csv,
    }
}

/// The primary translation request: the configured text and language pair,
/// biased by the created glossary.
pub open spec fn translate_request_of(cfg: SessionConfig, glossary_id: String) -> TranslationRequest {
    TranslationRequest {
        text: cfg.text,
        source_lang: cfg.source_lang,
        target_lang: cfg.target_lang,
        glossary_id: Some(glossary_id),
    }
}

/// The back-translation request: the primary output, the language pair
/// swapped, and no glossary reference.
pub open spec fn back_request_of(cfg: SessionConfig, primary: TranslationResult) -> TranslationRequest {
    TranslationRequest {
        text: primary.text,
        source_lang: cfg.target_lang,
        target_lang: cfg.source_lang,
        glossary_id: None,
    }
}

/// How a translation response is read: its first entry is the result, and a
/// response with no entries at all is a shape mismatch.
pub open spec fn decode_first(r: Result<Vec<TranslationResult>, Failure>) -> Result<
    TranslationResult,
    Failure,
> {
    match r {
        Ok(v) => if v@.len() == 0 {
            Err(Failure::Decoding)
        } else {
            Ok(v@[0])
        },
        Err(f) => Err(f),
    }
}

/// The cleanup failure, if any, of a delete outcome.
pub open spec fn cleanup_of(d: Result<(), Failure>) -> Option<Failure> {
    match d {
        Ok(u) => None,
        Err(f) => Some(f),
    }
}

/// Which event a state can consume: exactly the outcome of the call that
/// state has in flight. A finished session consumes nothing.
pub open spec fn accepts(s: SessionState, e: Event) -> bool {
    match (s, e) {
        (SessionState::CreatingGlossary, Event::GlossaryOutcome(r)) => true,
        (SessionState::Translating { glossary_id }, Event::TranslateOutcome(r)) => true,
        (SessionState::Deleting { glossary_id, translated }, Event::DeleteOutcome(r)) => true,
        (
            SessionState::BackTranslating { primary, cleanup_failure },
            Event::BackTranslateOutcome(r),
        ) => true,
        _ => false,
    }
}

/// A finished state that reports a failure of the given step, with no
/// cleanup outcome attached.
pub open spec fn finished_failed(step: SessionStep, failure: Failure) -> SessionState {
    SessionState::Finished {
        outcome: SessionOutcome::Failed { step, failure, cleanup_failure: None },
    }
}

/// The transition relation of a session: from a state and the consumed
/// event to the next state and the next action.
///
/// - A created glossary whose id is empty is rejected as a shape mismatch
///   before any further call references it.
/// - Whatever the translation outcome was, the next action after it is the
///   delete of the glossary that was used.
/// - A translation failure is reported as the session's error even when the
///   delete afterwards fails too; the delete outcome is carried separately.
pub open spec fn step_of(cfg: SessionConfig, s: SessionState, e: Event) -> (SessionState, Action) {
    match (s, e) {
        (SessionState::CreatingGlossary, Event::GlossaryOutcome(res)) => match res {
            Ok(h) => if h.glossary_id@.len() == 0 {
                (finished_failed(SessionStep::CreateGlossary, Failure::Decoding), Action::Done)
            } else {
                (
                    SessionState::Translating { glossary_id: h.glossary_id },
                    Action::CallTranslate(translate_request_of(cfg, h.glossary_id)),
                )
            },
            Err(f) => (finished_failed(SessionStep::CreateGlossary, f), Action::Done),
        },
        (SessionState::Translating { glossary_id }, Event::TranslateOutcome(r)) => (
            SessionState::Deleting { glossary_id, translated: decode_first(r) },
            Action::CallDeleteGlossary(glossary_id),
        ),
        (SessionState::Deleting { glossary_id, translated }, Event::DeleteOutcome(d)) => match translated {
            Ok(t) => if cfg.back_translate {
                (
                    SessionState::BackTranslating {
                        primary: t,
                        cleanup_failure: cleanup_of(d),
                    },
                    Action::CallBackTranslate(back_request_of(cfg, t)),
                )
            } else {
                (
                    SessionState::Finished {
                        outcome: SessionOutcome::Completed {
                            primary: t,
                            back: None,
                            cleanup_failure: cleanup_of(d),
                        },
                    },
                    Action::Done,
                )
            },
            Err(f) => (
                SessionState::Finished {
                    outcome: SessionOutcome::Failed {
                        step: SessionStep::Translate,
                        failure: f,
                        cleanup_failure: cleanup_of(d),
                    },
                },
                Action::Done,
            ),
        },
        (
            SessionState::BackTranslating { primary, cleanup_failure },
            Event::BackTranslateOutcome(r),
        ) => (
            SessionState::Finished {
                outcome: SessionOutcome::Completed {
                    primary,
                    back: Some(decode_first(r)),
                    cleanup_failure,
                },
            },
            Action::Done,
        ),
        _ => (s, Action::Done),
    }
}

/// The action a session issues before any event arrives.
pub open spec fn initial_action(cfg: SessionConfig) -> Action {
    Action::CallCreateGlossary(glossary_request_of(cfg))
}

/// Reads a translation response: the first entry is the result, an empty
/// entry list is a shape mismatch.
fn first_translation(r: Result<Vec<TranslationResult>, Failure>) -> (out: Result<
    TranslationResult,
    Failure,
>)
    ensures
        out == decode_first(r),
{
    match r {
        Ok(mut v) => if v.len() == 0 {
            Err(Failure::Decoding)
        } else {
            Ok(v.remove(0))
        },
        Err(f) => Err(f),
    }
}

/// One glossary-assisted translation workflow. Drive it by performing each
/// returned [`Action`] and feeding the outcome back via [`advance`].
///
/// [`advance`]: Session::advance
#[derive(Debug)]
pub struct Session {
    pub config: SessionConfig,
    pub state: SessionState,
}

impl Session {
    /// Opens a session: returns it in its initial state together with the
    /// glossary creation call to perform first.
    pub fn begin(config: SessionConfig) -> (r: (Session, Action))
        ensures
            r.0.config == config,
            r.0.state == SessionState::CreatingGlossary,
            r.1 == initial_action(config),
    {
        let req = GlossaryRequest {
            name: config.glossary_name.clone(),
            source_lang: config.source_lang.clone(),
            target_lang: config.target_lang.clone(),
            entries_csv: config.entries_csv.clone(),
        };
        let session = Session { config, state: SessionState::CreatingGlossary };
        (session, Action::CallCreateGlossary(req))
    }

    /// Consumes the outcome of the call in flight and returns the next
    /// action. The transition taken is exactly [`step_of`].
    pub fn advance(&mut self, event: Event) -> (a: Action)
        requires
            accepts(old(self).state, event),
        ensures
            final(self).config == old(self).config,
            final(self).state == step_of(old(self).config, old(self).state, event).0,
            a == step_of(old(self).config, old(self).state, event).1,
    {
        let mut st = SessionState::CreatingGlossary;
        core::mem::swap(&mut st, &mut self.state);
        match (st, event) {
            (SessionState::CreatingGlossary, Event::GlossaryOutcome(res)) => match res {
                Ok(h) => if h.glossary_id.as_str().is_empty() {
                    self.state = SessionState::Finished {
                        outcome: SessionOutcome::Failed {
                            step: SessionStep::CreateGlossary,
                            failure: Failure::Decoding,
                            cleanup_failure: None,
                        },
                    };
                    Action::Done
                } else {
                    let req = TranslationRequest {
                        text: self.config.text.clone(),
                        source_lang: self.config.source_lang.clone(),
                        target_lang: self.config.target_lang.clone(),
                        glossary_id: Some(h.glossary_id.clone()),
                    };
                    self.state = SessionState::Translating { glossary_id: h.glossary_id };
                    Action::CallTranslate(req)
                },
                Err(f) => {
                    self.state = SessionState::Finished {
                        outcome: SessionOutcome::Failed {
                            step: SessionStep::CreateGlossary,
                            failure: f,
                            cleanup_failure: None,
                        },
                    };
                    Action::Done
                },
            },
            (SessionState::Translating { glossary_id }, Event::TranslateOutcome(r)) => {
                let translated = first_translation(r);
                let id_for_call = glossary_id.clone();
                self.state = SessionState::Deleting { glossary_id, translated };
                Action::CallDeleteGlossary(id_for_call)
            },
            (SessionState::Deleting { glossary_id, translated }, Event::DeleteOutcome(d)) => {
                let cleanup_failure = match d {
                    Ok(u) => None,
                    Err(f) => Some(f),
                };
                match translated {
                    Ok(t) => if self.config.back_translate {
                        let req = TranslationRequest {
                            text: t.text.clone(),
                            source_lang: self.config.target_lang.clone(),
                            target_lang: self.config.source_lang.clone(),
                            glossary_id: None,
                        };
                        self.state = SessionState::BackTranslating {
                            primary: t,
                            cleanup_failure,
                        };
                        Action::CallBackTranslate(req)
                    } else {
                        self.state = SessionState::Finished {
                            outcome: SessionOutcome::Completed {
                                primary: t,
                                back: None,
                                cleanup_failure,
                            },
                        };
                        Action::Done
                    },
                    Err(f) => {
                        self.state = SessionState::Finished {
                            outcome: SessionOutcome::Failed {
                                step: SessionStep::Translate,
                                failure: f,
                                cleanup_failure,
                            },
                        };
                        Action::Done
                    },
                }
            },
            (
                SessionState::BackTranslating { primary, cleanup_failure },
                Event::BackTranslateOutcome(r),
            ) => {
                let back = first_translation(r);
                self.state = SessionState::Finished {
                    outcome: SessionOutcome::Completed {
                        primary,
                        back: Some(back),
                        cleanup_failure,
                    },
                };
                Action::Done
            },
            _ => unreached(),
        }
    }
}

} // verus!
