use deepl_session::transport::{auth_header_value, delete_glossary_url, glossaries_url,
    glossary_form, host_for, translate_form, translate_url, usage_url};
use deepl_session::types::{classify_status, Credentials, Failure, GlossaryRequest, Plan,
    TranslationRequest};

#[test]
fn hosts_by_plan() {
    assert_eq!(host_for(Plan::Free), "api-free.deepl.com");
    assert_eq!(host_for(Plan::Pro), "api.deepl.com");
}

#[test]
fn usage() {
    assert_eq!(usage_url(Plan::Free), "https://api-free.deepl.com/v2/usage");
    assert_eq!(usage_url(Plan::Pro), "https://api.deepl.com/v2/usage");
}

#[test]
fn endpoint_urls() {
    assert_eq!(glossaries_url(Plan::Free), "https://api-free.deepl.com/v2/glossaries");
    assert_eq!(translate_url(Plan::Free), "https://api-free.deepl.com/v2/translate");
    assert_eq!(translate_url(Plan::Pro), "https://api.deepl.com/v2/translate");
    assert_eq!(
        delete_glossary_url(Plan::Pro, "abc-123"),
        "https://api.deepl.com/v2/glossaries/abc-123"
    );
}

#[test]
fn auth_header_has_fixed_prefix() {
    assert_eq!(auth_header_value("secret:fx"), "DeepL-Auth-Key secret:fx");
    let creds = Credentials { key: "k".to_owned(), plan: Plan::Free };
    assert_eq!(creds.auth_header(), "DeepL-Auth-Key k");
    assert_eq!(creds.host(), "api-free.deepl.com");
}

#[test]
fn status_classification() {
    assert_eq!(classify_status(199), Some(Failure::Remote(199)));
    assert_eq!(classify_status(200), None);
    assert_eq!(classify_status(201), None);
    assert_eq!(classify_status(299), None);
    assert_eq!(classify_status(300), Some(Failure::Remote(300)));
    assert_eq!(classify_status(403), Some(Failure::Remote(403)));
    assert_eq!(classify_status(500), Some(Failure::Remote(500)));
}

#[test]
fn glossary_form_fields() {
    let req = GlossaryRequest {
        name: "Tmp".to_owned(),
        source_lang: "JA".to_owned(),
        target_lang: "EN".to_owned(),
        entries_csv: "こんにちは,hello".to_owned(),
    };
    let form = glossary_form(&req);
    let pairs: Vec<(&str, &str)> =
        form.iter().map(|(k, v)| (k.as_str(), v.as_str())).collect();
    assert_eq!(
        pairs,
        vec![
            ("name", "Tmp"),
            ("source_lang", "JA"),
            ("target_lang", "EN"),
            ("entries_format", "csv"),
            ("entries", "こんにちは,hello"),
        ]
    );
}

#[test]
fn translate_form_with_glossary() {
    let req = TranslationRequest {
        text: "こんにちは、世界！".to_owned(),
        source_lang: "JA".to_owned(),
        target_lang: "EN".to_owned(),
        glossary_id: Some("g-1".to_owned()),
    };
    let form = translate_form(&req);
    let pairs: Vec<(&str, &str)> =
        form.iter().map(|(k, v)| (k.as_str(), v.as_str())).collect();
    assert_eq!(
        pairs,
        vec![
            ("text", "こんにちは、世界！"),
            ("source_lang", "JA"),
            ("target_lang", "EN"),
            ("glossary_id", "g-1"),
        ]
    );
}

#[test]
fn translate_form_without_glossary() {
    let req = TranslationRequest {
        text: "Hello, world!".to_owned(),
        source_lang: "EN".to_owned(),
        target_lang: "JA".to_owned(),
        glossary_id: None,
    };
    let form = translate_form(&req);
    assert_eq!(form.len(), 3);
    assert_eq!(form[0].0, "text");
    assert_eq!(form[0].1, "Hello, world!");
    assert_eq!(form[2].0, "target_lang");
    assert_eq!(form[2].1, "JA");
}
