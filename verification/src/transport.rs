//! Pure helpers for the HTTP boundary: endpoint URLs, the authorization
//! header value, and the form fields of each call. Nothing here performs a
//! network call; callers send these values and feed the outcomes back into
//! the session state machine.

use vstd::prelude::*;
use vstd::string::StringExecFns;

use crate::types::{Credentials, GlossaryRequest, Plan, TranslationRequest};

verus! {

/// The API host addressed by a plan.
pub open spec fn host_of(plan: Plan) -> Seq<char> {
    match plan {
        Plan::Free => "api-free.deepl.com"@,
        Plan::Pro => "api.deepl.com"@,
    }
}

pub fn host_for(plan: Plan) -> (r: String)
    ensures
        r@ == host_of(plan),
{
    match plan {
        Plan::Free => "api-free.deepl.com".to_owned(),
        Plan::Pro => "api.deepl.com".to_owned(),
    }
}

/// URL of the glossary collection: glossaries are created by a POST here.
pub open spec fn glossaries_url_of(plan: Plan) -> Seq<char> {
    "https://"@ + host_of(plan) + "/v2/glossaries"@
}

pub fn glossaries_url(plan: Plan) -> (r: String)
    ensures
        r@ == glossaries_url_of(plan),
{
    let mut r = "https://".to_owned();
    r.append(host_for(plan).as_str());
    r.append("/v2/glossaries");
    r
}

/// URL of one glossary; a DELETE here removes it.
pub open spec fn delete_glossary_url_of(plan: Plan, glossary_id: Seq<char>) -> Seq<char> {
    "https://"@ + host_of(plan) + "/v2/glossaries/"@ + glossary_id
}

pub fn delete_glossary_url(plan: Plan, glossary_id: &str) -> (r: String)
    ensures
        r@ == delete_glossary_url_of(plan, glossary_id@),
{
    let mut r = "https://".to_owned();
    r.append(host_for(plan).as_str());
    r.append("/v2/glossaries/");
    r.append(glossary_id);
    r
}

/// URL of the translation endpoint.
pub open spec fn translate_url_of(plan: Plan) -> Seq<char> {
    "https://"@ + host_of(plan) + "/v2/translate"@
}

pub fn translate_url(plan: Plan) -> (r: String)
    ensures
        r@ == translate_url_of(plan),
{
    let mut r = "https://".to_owned();
    r.append(host_for(plan).as_str());
    r.append("/v2/translate");
    r
}

/// URL of the account usage endpoint (character count and limit).
pub open spec fn usage_url_of(plan: Plan) -> Seq<char> {
    "https://"@ + host_of(plan) + "/v2/usage"@
}

pub fn usage_url(plan: Plan) -> (r: String)
    ensures
        r@ == usage_url_of(plan),
{
    let mut r = "https://".to_owned();
    r.append(host_for(plan).as_str());
    r.append("/v2/usage");
    r
}

/// Value of the authorization header: a fixed prefix followed by the key.
pub open spec fn auth_header_of(key: Seq<char>) -> Seq<char> {
    "DeepL-Auth-Key "@ + key
}

pub fn auth_header_value(key: &str) -> (r: String)
    ensures
        r@ == auth_header_of(key@),
{
    let mut r = "DeepL-Auth-Key ".to_owned();
    r.append(key);
    r
}

impl Credentials {
    /// The host this caller addresses.
    pub fn host(&self) -> (r: String)
        ensures
            r@ == host_of(self.plan),
    {
        host_for(self.plan)
    }

    /// The authorization header value this caller sends with every request.
    pub fn auth_header(&self) -> (r: String)
        ensures
            r@ == auth_header_of(self.key@),
    {
        auth_header_value(self.key.as_str())
    }
}

/// Form fields of a glossary creation call, in the order they are sent. The
/// entries format is always CSV, matching the raw entries text.
pub fn glossary_form(req: &GlossaryRequest) -> (r: Vec<(String, String)>)
    ensures
        r@.len() == 5,
        (r@[0].0)@ == "name"@ && r@[0].1 == req.name,
        (r@[1].0)@ == "source_lang"@ && r@[1].1 == req.source_lang,
        (r@[2].0)@ == "target_lang"@ && r@[2].1 == req.target_lang,
        (r@[3].0)@ == "entries_format"@ && (r@[3].1)@ == "csv"@,
        (r@[4].0)@ == "entries"@ && r@[4].1 == req.entries_csv,
{
    let mut r: Vec<(String, String)> = Vec::new();
    r.push(("name".to_owned(), req.name.clone()));
    r.push(("source_lang".to_owned(), req.source_lang.clone()));
    r.push(("target_lang".to_owned(), req.target_lang.clone()));
    r.push(("entries_format".to_owned(), "csv".to_owned()));
    r.push(("entries".to_owned(), req.entries_csv.clone()));
    r
}

/// Form fields of a translation call. The glossary reference is present
/// exactly when the request carries one.
pub fn translate_form(req: &TranslationRequest) -> (r: Vec<(String, String)>)
    ensures
        (r@[0].0)@ == "text"@ && r@[0].1 == req.text,
        (r@[1].0)@ == "source_lang"@ && r@[1].1 == req.source_lang,
        (r@[2].0)@ == "target_lang"@ && r@[2].1 == req.target_lang,
        req.glossary_id matches Some(id) ==> r@.len() == 4 && (r@[3].0)@ == "glossary_id"@
            && r@[3].1 == id,
        req.glossary_id is None ==> r@.len() == 3,
{
    let mut r: Vec<(String, String)> = Vec::new();
    r.push(("text".to_owned(), req.text.clone()));
    r.push(("source_lang".to_owned(), req.source_lang.clone()));
    r.push(("target_lang".to_owned(), req.target_lang.clone()));
    match &req.glossary_id {
        Some(id) => {
            r.push(("glossary_id".to_owned(), id.clone()));
        },
        None => {},
    }
    r
}

} // verus!
