use tl_ex::funtranslation_provider::{
    language_name, translation_outcome, translation_url, FUNTRANSLATE_ENDPOINT_URL,
};
use tl_ex::service::{Language, ServiceError};

#[test]
fn language_names() {
    assert_eq!("yoda", language_name(Language::Yoda));
    assert_eq!("shakespeare", language_name(Language::Shakespeare));
}

#[test]
fn translation_urls() {
    assert_eq!(
        "https://api.funtranslations.mercxry.me/v1/translate/yoda",
        translation_url(Language::Yoda)
    );
    assert_eq!(
        "https://api.funtranslations.mercxry.me/v1/translate/shakespeare",
        translation_url(Language::Shakespeare)
    );
    assert_eq!(
        format!("{FUNTRANSLATE_ENDPOINT_URL}/yoda"),
        translation_url(Language::Yoda)
    );
}

#[test]
fn translated_reply_is_the_outcome() {
    assert_eq!(
        Ok("Hark! it wast fashioned".to_string()),
        translation_outcome(Ok("Hark! it wast fashioned".to_string()))
    );
}

#[test]
fn failed_translation_is_unknown_error() {
    assert_eq!(
        Err(ServiceError::Unknown { error: "429 Too Many Requests".to_string() }),
        translation_outcome(Err("429 Too Many Requests".to_string()))
    );
}
