//! A verified model of a glossary-scoped translation workflow against the
//! DeepL HTTP API: one session creates a temporary glossary, translates with
//! it, unconditionally deletes it again, and optionally back-translates the
//! result. The session logic is a pure state machine; callers perform the
//! actual HTTP calls and feed the outcomes back in as events.

pub mod laws;
pub mod session;
pub mod transport;
pub mod types;
