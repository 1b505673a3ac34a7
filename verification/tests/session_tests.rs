use deepl_session::session::{Action, Event, Session, SessionConfig, SessionOutcome, SessionState};
use deepl_session::types::{Failure, GlossaryHandle, SessionStep, TranslationResult};

fn config(back_translate: bool) -> SessionConfig {
    SessionConfig {
        source_lang: "JA".to_owned(),
        target_lang: "EN".to_owned(),
        glossary_name: "Tmp".to_owned(),
        entries_csv: String::new(),
        text: "こんにちは、世界！".to_owned(),
        back_translate,
    }
}

fn handle(id: &str) -> GlossaryHandle {
    GlossaryHandle { glossary_id: id.to_owned(), ready: true, entry_count: 0 }
}

fn translation(text: &str) -> TranslationResult {
    TranslationResult { detected_source_language: Some("JA".to_owned()), text: text.to_owned() }
}

#[test]
fn round_trip() {
    let (mut s, a) = Session::begin(config(true));
    let req = match a {
        Action::CallCreateGlossary(req) => req,
        _ => panic!("expected the glossary creation call first"),
    };
    assert_eq!(req.name, "Tmp");
    assert_eq!(req.source_lang, "JA");
    assert_eq!(req.target_lang, "EN");
    assert_eq!(req.entries_csv, "");

    let a = s.advance(Event::GlossaryOutcome(Ok(handle("g-123"))));
    let req = match a {
        Action::CallTranslate(req) => req,
        _ => panic!("expected the translate call after creation"),
    };
    assert_eq!(req.text, "こんにちは、世界！");
    assert_eq!(req.source_lang, "JA");
    assert_eq!(req.target_lang, "EN");
    assert_eq!(req.glossary_id.as_deref(), Some("g-123"));

    let a = s.advance(Event::TranslateOutcome(Ok(vec![translation("Hello, world!")])));
    match a {
        Action::CallDeleteGlossary(id) => assert_eq!(id, "g-123"),
        _ => panic!("expected the delete call after translation"),
    }

    let a = s.advance(Event::DeleteOutcome(Ok(())));
    let req = match a {
        Action::CallBackTranslate(req) => req,
        _ => panic!("expected the back-translation call after cleanup"),
    };
    assert_eq!(req.text, "Hello, world!");
    assert_eq!(req.source_lang, "EN");
    assert_eq!(req.target_lang, "JA");
    assert!(req.glossary_id.is_none());

    let back = TranslationResult {
        detected_source_language: Some("EN".to_owned()),
        text: "こんにちは、世界！".to_owned(),
    };
    let a = s.advance(Event::BackTranslateOutcome(Ok(vec![back])));
    assert!(matches!(a, Action::Done));
    match s.state {
        SessionState::Finished {
            outcome: SessionOutcome::Completed { primary, back, cleanup_failure },
        } => {
            assert_eq!(primary.text, "Hello, world!");
            assert_eq!(back.unwrap().unwrap().text, "こんにちは、世界！");
            assert!(cleanup_failure.is_none());
        },
        _ => panic!("expected a completed session"),
    }
}

#[test]
fn creation_forbidden_stops_session() {
    let (mut s, _) = Session::begin(config(false));
    let a = s.advance(Event::GlossaryOutcome(Err(Failure::Remote(403))));
    assert!(matches!(a, Action::Done));
    match s.state {
        SessionState::Finished {
            outcome: SessionOutcome::Failed { step, failure, cleanup_failure },
        } => {
            assert_eq!(step, SessionStep::CreateGlossary);
            assert_eq!(failure, Failure::Remote(403));
            assert!(cleanup_failure.is_none());
        },
        _ => panic!("expected a failed session"),
    }
}

#[test]
fn translate_500_reports_translation_failure() {
    let (mut s, _) = Session::begin(config(false));
    s.advance(Event::GlossaryOutcome(Ok(handle("g-9"))));
    let a = s.advance(Event::TranslateOutcome(Err(Failure::Remote(500))));
    match a {
        Action::CallDeleteGlossary(id) => assert_eq!(id, "g-9"),
        _ => panic!("expected the delete call even after a failed translation"),
    }
    let a = s.advance(Event::DeleteOutcome(Ok(())));
    assert!(matches!(a, Action::Done));
    match s.state {
        SessionState::Finished {
            outcome: SessionOutcome::Failed { step, failure, cleanup_failure },
        } => {
            assert_eq!(step, SessionStep::Translate);
            assert_eq!(failure, Failure::Remote(500));
            assert!(cleanup_failure.is_none());
        },
        _ => panic!("expected a failed session"),
    }
}

#[test]
fn translate_500_with_failing_delete_still_reports_translation() {
    let (mut s, _) = Session::begin(config(false));
    s.advance(Event::GlossaryOutcome(Ok(handle("g-9"))));
    s.advance(Event::TranslateOutcome(Err(Failure::Remote(500))));
    let a = s.advance(Event::DeleteOutcome(Err(Failure::Remote(404))));
    assert!(matches!(a, Action::Done));
    match s.state {
        SessionState::Finished {
            outcome: SessionOutcome::Failed { step, failure, cleanup_failure },
        } => {
            assert_eq!(step, SessionStep::Translate);
            assert_eq!(failure, Failure::Remote(500));
            assert_eq!(cleanup_failure, Some(Failure::Remote(404)));
        },
        _ => panic!("expected a failed session"),
    }
}

#[test]
fn empty_glossary_id_is_a_decoding_failure() {
    let (mut s, _) = Session::begin(config(false));
    let a = s.advance(Event::GlossaryOutcome(Ok(handle(""))));
    assert!(matches!(a, Action::Done));
    match s.state {
        SessionState::Finished {
            outcome: SessionOutcome::Failed { step, failure, cleanup_failure },
        } => {
            assert_eq!(step, SessionStep::CreateGlossary);
            assert_eq!(failure, Failure::Decoding);
            assert!(cleanup_failure.is_none());
        },
        _ => panic!("expected a failed session"),
    }
}

#[test]
fn empty_translation_list_is_a_decoding_failure() {
    let (mut s, _) = Session::begin(config(false));
    s.advance(Event::GlossaryOutcome(Ok(handle("g-1"))));
    let a = s.advance(Event::TranslateOutcome(Ok(Vec::new())));
    match a {
        Action::CallDeleteGlossary(id) => assert_eq!(id, "g-1"),
        _ => panic!("expected the delete call even after a malformed response"),
    }
    s.advance(Event::DeleteOutcome(Ok(())));
    match s.state {
        SessionState::Finished {
            outcome: SessionOutcome::Failed { step, failure, .. },
        } => {
            assert_eq!(step, SessionStep::Translate);
            assert_eq!(failure, Failure::Decoding);
        },
        _ => panic!("expected a failed session"),
    }
}

#[test]
fn cleanup_failure_does_not_spoil_success() {
    let (mut s, _) = Session::begin(config(false));
    s.advance(Event::GlossaryOutcome(Ok(handle("g-2"))));
    s.advance(Event::TranslateOutcome(Ok(vec![translation("Hello")])));
    let a = s.advance(Event::DeleteOutcome(Err(Failure::Transport)));
    assert!(matches!(a, Action::Done));
    match s.state {
        SessionState::Finished {
            outcome: SessionOutcome::Completed { primary, back, cleanup_failure },
        } => {
            assert_eq!(primary.text, "Hello");
            assert!(back.is_none());
            assert_eq!(cleanup_failure, Some(Failure::Transport));
        },
        _ => panic!("expected a completed session"),
    }
}

#[test]
fn back_translation_failure_keeps_primary() {
    let (mut s, _) = Session::begin(config(true));
    s.advance(Event::GlossaryOutcome(Ok(handle("g-3"))));
    s.advance(Event::TranslateOutcome(Ok(vec![translation("Hello")])));
    s.advance(Event::DeleteOutcome(Ok(())));
    let a = s.advance(Event::BackTranslateOutcome(Err(Failure::Remote(429))));
    assert!(matches!(a, Action::Done));
    match s.state {
        SessionState::Finished {
            outcome: SessionOutcome::Completed { primary, back, cleanup_failure },
        } => {
            assert_eq!(primary.text, "Hello");
            match back {
                Some(Err(f)) => assert_eq!(f, Failure::Remote(429)),
                _ => panic!("expected a failed back-translation to be carried"),
            }
            assert!(cleanup_failure.is_none());
        },
        _ => panic!("expected a completed session"),
    }
}

#[test]
fn translate_test() {
    let (mut s, _) = Session::begin(config(false));
    s.advance(Event::GlossaryOutcome(Ok(handle("g-t"))));
    s.advance(Event::TranslateOutcome(Ok(vec![translation("Hello, world!")])));
    s.advance(Event::DeleteOutcome(Ok(())));
    match s.state {
        SessionState::Finished {
            outcome: SessionOutcome::Completed { primary, .. },
        } => assert_eq!(primary.text, "Hello, world!"),
        _ => panic!("expected a completed session"),
    }
}
