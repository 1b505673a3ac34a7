//! Laws of a whole session run. A run is the sequence of events a caller
//! fed into [`Session::advance`]; these functions say which actions such a
//! run issues and which outcome it reports, and the public proof functions
//! at the bottom state the session's guarantees: the glossary id flows
//! unchanged into the translate and delete calls, cleanup happens exactly
//! once after a successful creation and never otherwise, a creation failure
//! stops the session, a translation failure is the error reported even when
//! cleanup fails afterwards, and back-translation starts from the primary
//! output without a glossary.
//!
//! [`Session::advance`]: crate::session::Session::advance

use vstd::prelude::*;
use vstd::pervasive::arbitrary;

use crate::session::{accepts, back_request_of, decode_first, cleanup_of, initial_action, step_of,
    translate_request_of, Action, Event, SessionConfig, SessionOutcome, SessionState};
use crate::types::{Failure, GlossaryHandle, SessionStep, TranslationResult};

verus! {

/// The state a session reaches after consuming the events of `es` in order,
/// starting from `s`.
pub open spec fn state_after(cfg: SessionConfig, s: SessionState, es: Seq<Event>) -> SessionState
    decreases es.len(),
{
    if es.len() == 0 {
        s
    } else {
        state_after(cfg, step_of(cfg, s, es[0]).0, es.skip(1))
    }
}

/// The actions a session issues while consuming the events of `es` in
/// order, starting from `s`. (The action that led into `s` is not part of
/// this; see [`session_actions`] for a whole run.)
pub open spec fn actions_from(cfg: SessionConfig, s: SessionState, es: Seq<Event>) -> Seq<Action>
    decreases es.len(),
{
    if es.len() == 0 {
        Seq::empty()
    } else {
        seq![step_of(cfg, s, es[0]).1] + actions_from(cfg, step_of(cfg, s, es[0]).0, es.skip(1))
    }
}

/// Whether every event of `es` is the outcome of the call that the session
/// had in flight when it arrived.
pub open spec fn events_accepted(cfg: SessionConfig, s: SessionState, es: Seq<Event>) -> bool
    decreases es.len(),
{
    es.len() == 0 || (accepts(s, es[0]) && events_accepted(cfg, step_of(cfg, s, es[0]).0, es.skip(1)))
}

/// All actions of a whole run: the initial glossary creation call, then
/// everything issued while consuming `es`.
pub open spec fn session_actions(cfg: SessionConfig, es: Seq<Event>) -> Seq<Action> {
    seq![initial_action(cfg)] + actions_from(cfg, SessionState::CreatingGlossary, es)
}

/// A complete run: every event fit the call in flight, and the session
/// reached its final state.
pub open spec fn session_complete(cfg: SessionConfig, es: Seq<Event>) -> bool {
    &&& events_accepted(cfg, SessionState::CreatingGlossary, es)
    &&& state_after(cfg, SessionState::CreatingGlossary, es) is Finished
}

/// The outcome a finished state reports.
pub open spec fn outcome_of(s: SessionState) -> SessionOutcome
    recommends
        s is Finished,
{
    match s {
        SessionState::Finished { outcome } => outcome,
        _ => arbitrary(),
    }
}

/// The outcome a complete run reports.
pub open spec fn session_outcome(cfg: SessionConfig, es: Seq<Event>) -> SessionOutcome
    recommends
        session_complete(cfg, es),
{
    outcome_of(state_after(cfg, SessionState::CreatingGlossary, es))
}

/// The payload of a glossary creation outcome.
pub open spec fn glossary_payload(e: Event) -> Result<GlossaryHandle, Failure>
    recommends
        e is GlossaryOutcome,
{
    match e {
        Event::GlossaryOutcome(r) => r,
        _ => arbitrary(),
    }
}

/// The payload of a translation outcome.
pub open spec fn translate_payload(e: Event) -> Result<Vec<TranslationResult>, Failure>
    recommends
        e is TranslateOutcome,
{
    match e {
        Event::TranslateOutcome(r) => r,
        _ => arbitrary(),
    }
}

/// The payload of a delete outcome.
pub open spec fn delete_payload(e: Event) -> Result<(), Failure>
    recommends
        e is DeleteOutcome,
{
    match e {
        Event::DeleteOutcome(r) => r,
        _ => arbitrary(),
    }
}

/// The payload of a back-translation outcome.
pub open spec fn back_payload(e: Event) -> Result<Vec<TranslationResult>, Failure>
    recommends
        e is BackTranslateOutcome,
{
    match e {
        Event::BackTranslateOutcome(r) => r,
        _ => arbitrary(),
    }
}

/// The value of a successfully decoded translation.
pub open spec fn ok_of(r: Result<TranslationResult, Failure>) -> TranslationResult
    recommends
        r is Ok,
{
    match r {
        Ok(t) => t,
        Err(f) => arbitrary(),
    }
}

/// The failure of a translation that did not decode.
pub open spec fn err_of(r: Result<TranslationResult, Failure>) -> Failure
    recommends
        r is Err,
{
    match r {
        Ok(t) => arbitrary(),
        Err(f) => f,
    }
}

/// Whether a creation outcome lets the session proceed: the call succeeded
/// and the returned id is non-empty.
pub open spec fn creation_ok(e: Event) -> bool {
    e matches Event::GlossaryOutcome(Ok(h)) && h.glossary_id@.len() > 0
}

/// The handle a successful creation outcome carries.
pub open spec fn created_handle(e: Event) -> GlossaryHandle
    recommends
        creation_ok(e),
{
    match e {
        Event::GlossaryOutcome(res) => match res {
            Ok(h) => h,
            Err(f) => arbitrary(),
        },
        _ => arbitrary(),
    }
}

/// The failure a session reports when a creation outcome does not let it
/// proceed: the call's own failure, or a shape mismatch for a success that
/// carried an empty id.
pub open spec fn creation_failure(e: Event) -> Failure
    recommends
        !creation_ok(e),
{
    match e {
        Event::GlossaryOutcome(res) => match res {
            Ok(h) => Failure::Decoding,
            Err(f) => f,
        },
        _ => arbitrary(),
    }
}

/// The kinds of action, for counting calls of a run.
pub enum ActionKind {
    Create,
    Translate,
    Delete,
    Back,
    Idle,
}

pub open spec fn kind_of(a: Action) -> ActionKind {
    match a {
        Action::CallCreateGlossary(req) => ActionKind::Create,
        Action::CallTranslate(req) => ActionKind::Translate,
        Action::CallDeleteGlossary(id) => ActionKind::Delete,
        Action::CallBackTranslate(req) => ActionKind::Back,
        Action::Done => ActionKind::Idle,
    }
}

/// How many actions of kind `k` a run issues.
pub open spec fn count_kind(acts: Seq<Action>, k: ActionKind) -> int
    decreases acts.len(),
{
    if acts.len() <= 0 {
        0
    } else {
        (if kind_of(acts[0]) == k {
            1int
        } else {
            0int
        }) + count_kind(acts.skip(1), k)
    }
}

proof fn lemma_count_cons(a: Action, rest: Seq<Action>, k: ActionKind)
    ensures
        count_kind(seq![a] + rest, k) == (if kind_of(a) == k {
            1int
        } else {
            0int
        }) + count_kind(rest, k),
{
    let s = seq![a] + rest;
    assert(s[0] == a);
    assert(s.skip(1) =~= rest);
}

proof fn lemma_count1(a: Action, k: ActionKind)
    ensures
        count_kind(seq![a], k) == (if kind_of(a) == k {
            1int
        } else {
            0int
        }),
{
    assert(seq![a].skip(1) =~= Seq::<Action>::empty());
    assert(count_kind(Seq::<Action>::empty(), k) == 0);
    assert(seq![a][0] == a);
}

proof fn lemma_count2(a: Action, b: Action, k: ActionKind)
    ensures
        count_kind(seq![a, b], k) == (if kind_of(a) == k {
            1int
        } else {
            0int
        }) + (if kind_of(b) == k {
            1int
        } else {
            0int
        }),
{
    assert(seq![a, b] =~= seq![a] + seq![b]);
    lemma_count_cons(a, seq![b], k);
    lemma_count1(b, k);
}

proof fn lemma_count4(a: Action, b: Action, c: Action, d: Action, k: ActionKind)
    ensures
        count_kind(seq![a, b, c, d], k) == (if kind_of(a) == k {
            1int
        } else {
            0int
        }) + (if kind_of(b) == k {
            1int
        } else {
            0int
        }) + (if kind_of(c) == k {
            1int
        } else {
            0int
        }) + (if kind_of(d) == k {
            1int
        } else {
            0int
        }),
{
    assert(seq![a, b, c, d] =~= seq![a] + seq![b, c, d]);
    assert(seq![b, c, d] =~= seq![b] + seq![c, d]);
    lemma_count_cons(a, seq![b, c, d], k);
    lemma_count_cons(b, seq![c, d], k);
    lemma_count2(c, d, k);
}

proof fn lemma_count5(a: Action, b: Action, c: Action, d: Action, e: Action, k: ActionKind)
    ensures
        count_kind(seq![a, b, c, d, e], k) == (if kind_of(a) == k {
            1int
        } else {
            0int
        }) + (if kind_of(b) == k {
            1int
        } else {
            0int
        }) + (if kind_of(c) == k {
            1int
        } else {
            0int
        }) + (if kind_of(d) == k {
            1int
        } else {
            0int
        }) + (if kind_of(e) == k {
            1int
        } else {
            0int
        }),
{
    assert(seq![a, b, c, d, e] =~= seq![a] + seq![b, c, d, e]);
    lemma_count_cons(a, seq![b, c, d, e], k);
    lemma_count4(b, c, d, e, k);
}

proof fn lemma_run_finished(cfg: SessionConfig, o: SessionOutcome, es: Seq<Event>)
    requires
        events_accepted(cfg, (SessionState::Finished { outcome: o }), es),
    ensures
        es.len() == 0,
        actions_from(cfg, (SessionState::Finished { outcome: o }), es) == Seq::<Action>::empty(),
        state_after(cfg, (SessionState::Finished { outcome: o }), es) == (SessionState::Finished {
            outcome: o,
        }),
{
    let s = SessionState::Finished { outcome: o };
    if es.len() > 0 {
        assert(!accepts(s, es[0]));
    }
}

proof fn lemma_run_back(
    cfg: SessionConfig,
    primary: TranslationResult,
    cf: Option<Failure>,
    es: Seq<Event>,
)
    requires
        events_accepted(cfg, (SessionState::BackTranslating { primary, cleanup_failure: cf }), es),
        state_after(
            cfg,
            (SessionState::BackTranslating { primary, cleanup_failure: cf }),
            es,
        ) is Finished,
    ensures
        es.len() == 1,
        es[0] is BackTranslateOutcome,
        actions_from(cfg, (SessionState::BackTranslating { primary, cleanup_failure: cf }), es)
            == seq![Action::Done],
        state_after(cfg, (SessionState::BackTranslating { primary, cleanup_failure: cf }), es)
            == (SessionState::Finished {
            outcome: (SessionOutcome::Completed {
                primary,
                back: Some(decode_first(back_payload(es[0]))),
                cleanup_failure: cf,
            }),
        }),
{
    let s = SessionState::BackTranslating { primary, cleanup_failure: cf };
    assert(es.len() > 0);
    assert(accepts(s, es[0]));
    let s1 = step_of(cfg, s, es[0]).0;
    let es1 = es.skip(1);
    let o1 = SessionOutcome::Completed {
        primary,
        back: Some(decode_first(back_payload(es[0]))),
        cleanup_failure: cf,
    };
    assert(s1 == (SessionState::Finished { outcome: o1 }));
    assert(events_accepted(cfg, s1, es1));
    lemma_run_finished(cfg, o1, es1);
    assert(es.len() == 1);
    assert(actions_from(cfg, s, es) =~= seq![Action::Done]);
}

proof fn lemma_run_deleting(
    cfg: SessionConfig,
    id: String,
    tr: Result<TranslationResult, Failure>,
    es: Seq<Event>,
)
    requires
        events_accepted(cfg, (SessionState::Deleting { glossary_id: id, translated: tr }), es),
        state_after(
            cfg,
            (SessionState::Deleting { glossary_id: id, translated: tr }),
            es,
        ) is Finished,
    ensures
        es.len() >= 1,
        es[0] is DeleteOutcome,
        ({
            let s = SessionState::Deleting { glossary_id: id, translated: tr };
            let cf = cleanup_of(delete_payload(es[0]));
            &&& (tr is Err ==> es.len() == 1 && actions_from(cfg, s, es) == seq![
                Action::Done,
            ] && state_after(cfg, s, es) == (SessionState::Finished {
                outcome: (SessionOutcome::Failed {
                    step: SessionStep::Translate,
                    failure: err_of(tr),
                    cleanup_failure: cf,
                }),
            }))
            &&& (tr is Ok && !cfg.back_translate ==> es.len() == 1 && actions_from(
                cfg,
                s,
                es,
            ) == seq![Action::Done] && state_after(cfg, s, es) == (SessionState::Finished {
                outcome: (SessionOutcome::Completed {
                    primary: ok_of(tr),
                    back: None,
                    cleanup_failure: cf,
                }),
            }))
            &&& (tr is Ok && cfg.back_translate ==> es.len() == 2 && es[1]
                is BackTranslateOutcome && actions_from(cfg, s, es) == seq![
                Action::CallBackTranslate(back_request_of(cfg, ok_of(tr))),
                Action::Done,
            ] && state_after(cfg, s, es) == (SessionState::Finished {
                outcome: (SessionOutcome::Completed {
                    primary: ok_of(tr),
                    back: Some(decode_first(back_payload(es[1]))),
                    cleanup_failure: cf,
                }),
            }))
        }),
{
    let s = SessionState::Deleting { glossary_id: id, translated: tr };
    assert(es.len() > 0);
    assert(accepts(s, es[0]));
    let cf = cleanup_of(delete_payload(es[0]));
    let s1 = step_of(cfg, s, es[0]).0;
    let a1 = step_of(cfg, s, es[0]).1;
    let es1 = es.skip(1);
    assert(events_accepted(cfg, s1, es1));
    match tr {
        Err(f) => {
            let o1 = SessionOutcome::Failed {
                step: SessionStep::Translate,
                failure: f,
                cleanup_failure: cf,
            };
            assert(s1 == (SessionState::Finished { outcome: o1 }));
            assert(a1 == Action::Done);
            lemma_run_finished(cfg, o1, es1);
            assert(es.len() == 1);
            assert(actions_from(cfg, s, es) =~= seq![Action::Done]);
        },
        Ok(t) => {
            if cfg.back_translate {
                assert(s1 == (SessionState::BackTranslating {
                    primary: t,
                    cleanup_failure: cf,
                }));
                assert(a1 == (Action::CallBackTranslate(back_request_of(cfg, t))));
                lemma_run_back(cfg, t, cf, es1);
                assert(es.len() == 2);
                assert(es1[0] == es[1]);
                assert(actions_from(cfg, s, es) =~= seq![
                    Action::CallBackTranslate(back_request_of(cfg, t)),
                    Action::Done,
                ]);
            } else {
                let o1 = SessionOutcome::Completed {
                    primary: t,
                    back: None,
                    cleanup_failure: cf,
                };
                assert(s1 == (SessionState::Finished { outcome: o1 }));
                assert(a1 == Action::Done);
                lemma_run_finished(cfg, o1, es1);
                assert(es.len() == 1);
                assert(actions_from(cfg, s, es) =~= seq![Action::Done]);
            }
        },
    }
}

proof fn lemma_run_translating(cfg: SessionConfig, id: String, es: Seq<Event>)
    requires
        events_accepted(cfg, (SessionState::Translating { glossary_id: id }), es),
        state_after(cfg, (SessionState::Translating { glossary_id: id }), es) is Finished,
    ensures
        es.len() >= 2,
        es[0] is TranslateOutcome,
        es[1] is DeleteOutcome,
        ({
            let s = SessionState::Translating { glossary_id: id };
            let tr = decode_first(translate_payload(es[0]));
            let cf = cleanup_of(delete_payload(es[1]));
            &&& (tr is Err ==> es.len() == 2 && actions_from(cfg, s, es) == seq![
                Action::CallDeleteGlossary(id),
                Action::Done,
            ] && state_after(cfg, s, es) == (SessionState::Finished {
                outcome: (SessionOutcome::Failed {
                    step: SessionStep::Translate,
                    failure: err_of(tr),
                    cleanup_failure: cf,
                }),
            }))
            &&& (tr is Ok && !cfg.back_translate ==> es.len() == 2 && actions_from(
                cfg,
                s,
                es,
            ) == seq![Action::CallDeleteGlossary(id), Action::Done] && state_after(cfg, s, es)
                == (SessionState::Finished {
                outcome: (SessionOutcome::Completed {
                    primary: ok_of(tr),
                    back: None,
                    cleanup_failure: cf,
                }),
            }))
            &&& (tr is Ok && cfg.back_translate ==> es.len() == 3 && es[2]
                is BackTranslateOutcome && actions_from(cfg, s, es) == seq![
                Action::CallDeleteGlossary(id),
                Action::CallBackTranslate(back_request_of(cfg, ok_of(tr))),
                Action::Done,
            ] && state_after(cfg, s, es) == (SessionState::Finished {
                outcome: (SessionOutcome::Completed {
                    primary: ok_of(tr),
                    back: Some(decode_first(back_payload(es[2]))),
                    cleanup_failure: cf,
                }),
            }))
        }),
{
    let s = SessionState::Translating { glossary_id: id };
    assert(es.len() > 0);
    assert(accepts(s, es[0]));
    let tr = decode_first(translate_payload(es[0]));
    let s1 = step_of(cfg, s, es[0]).0;
    let a1 = step_of(cfg, s, es[0]).1;
    let es1 = es.skip(1);
    assert(s1 == (SessionState::Deleting { glossary_id: id, translated: tr }));
    assert(a1 == (Action::CallDeleteGlossary(id)));
    assert(events_accepted(cfg, s1, es1));
    assert(state_after(cfg, s1, es1) is Finished);
    lemma_run_deleting(cfg, id, tr, es1);
    assert(es1[0] == es[1]);
    assert(es.len() == 1 + es1.len());
    match tr {
        Err(f) => {
            assert(actions_from(cfg, s, es) =~= seq![
                Action::CallDeleteGlossary(id),
                Action::Done,
            ]);
        },
        Ok(t) => {
            if cfg.back_translate {
                assert(es1[1] == es[2]);
                assert(actions_from(cfg, s, es) =~= seq![
                    Action::CallDeleteGlossary(id),
                    Action::CallBackTranslate(back_request_of(cfg, t)),
                    Action::Done,
                ]);
            } else {
                assert(actions_from(cfg, s, es) =~= seq![
                    Action::CallDeleteGlossary(id),
                    Action::Done,
                ]);
            }
        },
    }
}

/// The shape of every complete run. A failed creation ends the run at once
/// with no further call; a successful one is followed by the translate
/// call, the unconditional delete call, and — only when requested and only
/// after a successful translation — the back-translation call.
pub proof fn lemma_session_run(cfg: SessionConfig, es: Seq<Event>)
    requires
        session_complete(cfg, es),
    ensures
        es.len() > 0,
        es[0] is GlossaryOutcome,
        !creation_ok(es[0]) ==> es.len() == 1 && session_actions(cfg, es) == seq![
            initial_action(cfg),
            Action::Done,
        ] && session_outcome(cfg, es) == (SessionOutcome::Failed {
            step: SessionStep::CreateGlossary,
            failure: creation_failure(es[0]),
            cleanup_failure: None,
        }),
        creation_ok(es[0]) ==> ({
            let id = created_handle(es[0]).glossary_id;
            let tr = decode_first(translate_payload(es[1]));
            let cf = cleanup_of(delete_payload(es[2]));
            &&& es.len() >= 3
            &&& es[1] is TranslateOutcome
            &&& es[2] is DeleteOutcome
            &&& (tr is Err ==> es.len() == 3 && session_actions(cfg, es) == seq![
                initial_action(cfg),
                Action::CallTranslate(translate_request_of(cfg, id)),
                Action::CallDeleteGlossary(id),
                Action::Done,
            ] && session_outcome(cfg, es) == (SessionOutcome::Failed {
                step: SessionStep::Translate,
                failure: err_of(tr),
                cleanup_failure: cf,
            }))
            &&& (tr is Ok && !cfg.back_translate ==> es.len() == 3 && session_actions(
                cfg,
                es,
            ) == seq![
                initial_action(cfg),
                Action::CallTranslate(translate_request_of(cfg, id)),
                Action::CallDeleteGlossary(id),
                Action::Done,
            ] && session_outcome(cfg, es) == (SessionOutcome::Completed {
                primary: ok_of(tr),
                back: None,
                cleanup_failure: cf,
            }))
            &&& (tr is Ok && cfg.back_translate ==> es.len() == 4 && es[3]
                is BackTranslateOutcome && session_actions(cfg, es) == seq![
                initial_action(cfg),
                Action::CallTranslate(translate_request_of(cfg, id)),
                Action::CallDeleteGlossary(id),
                Action::CallBackTranslate(back_request_of(cfg, ok_of(tr))),
                Action::Done,
            ] && session_outcome(cfg, es) == (SessionOutcome::Completed {
                primary: ok_of(tr),
                back: Some(decode_first(back_payload(es[3]))),
                cleanup_failure: cf,
            }))
        }),
{
    let s0 = SessionState::CreatingGlossary;
    assert(es.len() > 0);
    assert(accepts(s0, es[0]));
    let s1 = step_of(cfg, s0, es[0]).0;
    let a1 = step_of(cfg, s0, es[0]).1;
    let es1 = es.skip(1);
    assert(events_accepted(cfg, s1, es1));
    assert(state_after(cfg, s1, es1) is Finished);
    if !creation_ok(es[0]) {
        let o1 = SessionOutcome::Failed {
            step: SessionStep::CreateGlossary,
            failure: creation_failure(es[0]),
            cleanup_failure: None,
        };
        match glossary_payload(es[0]) {
            Ok(h) => {
                assert(h.glossary_id@.len() == 0);
                assert(s1 == (SessionState::Finished { outcome: o1 }));
            },
            Err(f) => {
                assert(s1 == (SessionState::Finished { outcome: o1 }));
            },
        }
        assert(a1 == Action::Done);
        lemma_run_finished(cfg, o1, es1);
        assert(es.len() == 1);
        assert(session_actions(cfg, es) =~= seq![initial_action(cfg), Action::Done]);
    } else {
        let h = created_handle(es[0]);
        let id = h.glossary_id;
        assert(s1 == (SessionState::Translating { glossary_id: id }));
        assert(a1 == (Action::CallTranslate(translate_request_of(cfg, id))));
        lemma_run_translating(cfg, id, es1);
        assert(es1[0] == es[1]);
        assert(es1[1] == es[2]);
        assert(es.len() == 1 + es1.len());
        let tr = decode_first(translate_payload(es[1]));
        match tr {
            Err(f) => {
                assert(session_actions(cfg, es) =~= seq![
                    initial_action(cfg),
                    Action::CallTranslate(translate_request_of(cfg, id)),
                    Action::CallDeleteGlossary(id),
                    Action::Done,
                ]);
            },
            Ok(t) => {
                if cfg.back_translate {
                    assert(es1[2] == es[3]);
                    assert(session_actions(cfg, es) =~= seq![
                        initial_action(cfg),
                        Action::CallTranslate(translate_request_of(cfg, id)),
                        Action::CallDeleteGlossary(id),
                        Action::CallBackTranslate(back_request_of(cfg, t)),
                        Action::Done,
                    ]);
                } else {
                    assert(session_actions(cfg, es) =~= seq![
                        initial_action(cfg),
                        Action::CallTranslate(translate_request_of(cfg, id)),
                        Action::CallDeleteGlossary(id),
                        Action::Done,
                    ]);
                }
            },
        }
    }
}

/// A successful glossary creation hands back an id that the session checks
/// to be non-empty and then passes unchanged to the translate call and to
/// the delete call, and to no other call.
pub proof fn lemma_glossary_id_flow(cfg: SessionConfig, h: GlossaryHandle, es: Seq<Event>)
    requires
        session_complete(cfg, es),
        es.len() > 0,
        es[0] == (Event::GlossaryOutcome(Ok(h))),
        h.glossary_id@.len() > 0,
    ensures
        session_actions(cfg, es)[1] == (Action::CallTranslate(
            translate_request_of(cfg, h.glossary_id),
        )),
        session_actions(cfg, es)[2] == (Action::CallDeleteGlossary(h.glossary_id)),
        forall|i: int|
            0 <= i < session_actions(cfg, es).len() ==> ((#[trigger] session_actions(cfg, es)[i])
                matches Action::CallTranslate(req) ==> req.glossary_id == Some(h.glossary_id)),
        forall|i: int|
            0 <= i < session_actions(cfg, es).len() ==> ((#[trigger] session_actions(cfg, es)[i])
                matches Action::CallDeleteGlossary(id) ==> id == h.glossary_id && id@.len() > 0),
{
    lemma_session_run(cfg, es);
    assert(creation_ok(es[0]));
    assert(created_handle(es[0]) == h);
}

/// Cleanup is issued exactly once in a session whose glossary creation
/// succeeded — whether or not translation succeeded — and never in one
/// whose creation failed.
pub proof fn lemma_cleanup_exactly_once(cfg: SessionConfig, es: Seq<Event>)
    requires
        session_complete(cfg, es),
    ensures
        creation_ok(es[0]) ==> count_kind(session_actions(cfg, es), ActionKind::Delete) == 1,
        !creation_ok(es[0]) ==> count_kind(session_actions(cfg, es), ActionKind::Delete) == 0,
{
    lemma_session_run(cfg, es);
    if !creation_ok(es[0]) {
        lemma_count2(initial_action(cfg), Action::Done, ActionKind::Delete);
    } else {
        let id = created_handle(es[0]).glossary_id;
        let tr = decode_first(translate_payload(es[1]));
        let a0 = initial_action(cfg);
        let a1 = Action::CallTranslate(translate_request_of(cfg, id));
        let a2 = Action::CallDeleteGlossary(id);
        match tr {
            Err(f) => {
                lemma_count4(a0, a1, a2, Action::Done, ActionKind::Delete);
            },
            Ok(t) => {
                if cfg.back_translate {
                    lemma_count5(
                        a0,
                        a1,
                        a2,
                        Action::CallBackTranslate(back_request_of(cfg, t)),
                        Action::Done,
                        ActionKind::Delete,
                    );
                } else {
                    lemma_count4(a0, a1, a2, Action::Done, ActionKind::Delete);
                }
            },
        }
    }
}

/// A failed glossary creation ends the session at once: no translate, no
/// delete and no back-translation call is issued, and the reported error
/// names the creation step and its failure.
pub proof fn lemma_creation_failure_halts(cfg: SessionConfig, es: Seq<Event>)
    requires
        session_complete(cfg, es),
        !creation_ok(es[0]),
    ensures
        es.len() == 1,
        count_kind(session_actions(cfg, es), ActionKind::Translate) == 0,
        count_kind(session_actions(cfg, es), ActionKind::Delete) == 0,
        count_kind(session_actions(cfg, es), ActionKind::Back) == 0,
        session_outcome(cfg, es) == (SessionOutcome::Failed {
            step: SessionStep::CreateGlossary,
            failure: creation_failure(es[0]),
            cleanup_failure: None,
        }),
{
    lemma_session_run(cfg, es);
    lemma_count2(initial_action(cfg), Action::Done, ActionKind::Translate);
    lemma_count2(initial_action(cfg), Action::Done, ActionKind::Delete);
    lemma_count2(initial_action(cfg), Action::Done, ActionKind::Back);
}

/// When translation fails after a successful creation, the delete call is
/// still issued, and the reported error is the translation failure — for
/// every possible outcome of the delete call, which is carried separately.
pub proof fn lemma_translation_failure_still_cleans_up(
    cfg: SessionConfig,
    h: GlossaryHandle,
    f: Failure,
    es: Seq<Event>,
)
    requires
        session_complete(cfg, es),
        es.len() > 1,
        es[0] == (Event::GlossaryOutcome(Ok(h))),
        h.glossary_id@.len() > 0,
        decode_first(translate_payload(es[1])) == Err::<TranslationResult, Failure>(f),
    ensures
        es.len() == 3,
        session_actions(cfg, es)[2] == (Action::CallDeleteGlossary(h.glossary_id)),
        count_kind(session_actions(cfg, es), ActionKind::Delete) == 1,
        session_outcome(cfg, es) == (SessionOutcome::Failed {
            step: SessionStep::Translate,
            failure: f,
            cleanup_failure: cleanup_of(delete_payload(es[2])),
        }),
{
    lemma_session_run(cfg, es);
    let id = created_handle(es[0]).glossary_id;
    lemma_count4(
        initial_action(cfg),
        Action::CallTranslate(translate_request_of(cfg, id)),
        Action::CallDeleteGlossary(id),
        Action::Done,
        ActionKind::Delete,
    );
}

/// A back-translation call, whenever one is issued, takes the primary
/// translation's output text as its input, swaps the language pair, and
/// references no glossary.
pub proof fn lemma_back_translation_source(cfg: SessionConfig, es: Seq<Event>)
    requires
        session_complete(cfg, es),
    ensures
        forall|i: int|
            0 <= i < session_actions(cfg, es).len() ==> ((#[trigger] session_actions(cfg, es)[i])
                matches Action::CallBackTranslate(req) ==> {
                &&& req == back_request_of(cfg, ok_of(decode_first(translate_payload(es[1]))))
                &&& req.glossary_id is None
                &&& req.text == ok_of(decode_first(translate_payload(es[1]))).text
                &&& req.source_lang == cfg.target_lang
                &&& req.target_lang == cfg.source_lang
            }),
        (creation_ok(es[0]) && decode_first(translate_payload(es[1])) is Ok && cfg.back_translate)
            ==> session_actions(cfg, es)[3] == (Action::CallBackTranslate(
            back_request_of(cfg, ok_of(decode_first(translate_payload(es[1])))),
        )),
{
    lemma_session_run(cfg, es);
}

} // verus!
