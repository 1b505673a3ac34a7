//! Plain data carried through a translation session: credentials, request and
//! response shapes, and the failure taxonomy.

use vstd::prelude::*;

verus! {

/// Account tier of the caller; it selects which API host is addressed.
#[derive(Clone, Copy, Debug, PartialEq, Eq, Structural)]
pub enum Plan {
    Free,
    Pro,
}

/// API credentials: the key itself plus the plan that picks the host.
#[derive(Clone, Debug)]
pub struct Credentials {
    pub key: String,
    pub plan: Plan,
}

/// How a single remote call can fail.
#[derive(Clone, Copy, Debug, PartialEq, Eq, Structural)]
pub enum Failure {
    /// The request never completed (connection failure, timeout, ...).
    Transport,
    /// The service answered with a non-success HTTP status.
    Remote(u16),
    /// The response arrived but did not have the expected shape.
    Decoding,
}

/// The workflow step at which a failure occurred. Errors carry this so that
/// the four steps never collapse into one generic error.
#[derive(Clone, Copy, Debug, PartialEq, Eq, Structural)]
pub enum SessionStep {
    CreateGlossary,
    Translate,
    DeleteGlossary,
    BackTranslate,
}

/// A request to create a temporary term-mapping glossary on the server.
#[derive(Clone, Debug)]
pub struct GlossaryRequest {
    pub name: String,
    pub source_lang: String,
    pub target_lang: String,
    /// Raw glossary entries, in CSV form.
    pub entries_csv: String,
}

/// The server's answer to a glossary creation call.
#[derive(Clone, Debug)]
pub struct GlossaryHandle {
    pub glossary_id: String,
    pub ready: bool,
    pub entry_count: u64,
}

/// Parameters of one text-translation call.
#[derive(Clone, Debug)]
pub struct TranslationRequest {
    pub text: String,
    pub source_lang: String,
    pub target_lang: String,
    /// Set when the translation should be biased by a glossary.
    pub glossary_id: Option<String>,
}

/// One entry of the server's answer to a translation call.
#[derive(Clone, Debug)]
pub struct TranslationResult {
    pub detected_source_language: Option<String>,
    pub text: String,
}

/// Classifies an HTTP status code: any status outside the success range
/// 200..=299 is a remote failure carrying that status.
pub fn classify_status(status: u16) -> (r: Option<Failure>)
    ensures
        r == (if 200 <= status < 300 {
            Option::<Failure>::None
        } else {
            Option::<Failure>::Some(Failure::Remote(status))
        }),
{
    if 200 <= status && status < 300 {
        None
    } else {
        Some(Failure::Remote(status))
    }
}

} // verus!
