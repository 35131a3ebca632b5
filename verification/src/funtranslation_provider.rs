//! The decisions of the translation provider that asks the
//! funtranslations API: where a request for a language goes, and what a
//! reply, or a failed request, gives.

use crate::service::{Language, ServiceError};
use vstd::prelude::*;
use vstd::string::StringExecFns;

verus! {

/// The base address of the translation endpoints; the language's name follows
/// it after a `/`.
pub const FUNTRANSLATE_ENDPOINT_URL: &'static str = "https://api.funtranslations.mercxry.me/v1/translate";

/// The name of `language` in the translation API.
pub open spec fn language_name_view(language: Language) -> Seq<char> {
    match language {
        Language::Yoda => "yoda"@,
        Language::Shakespeare => "shakespeare"@,
    }
}

/// The name of `language` in the translation API: `yoda` or `shakespeare`.
pub fn language_name(language: Language) -> (name: &'static str)
    ensures
        name@ == language_name_view(language),
{
    match language {
        Language::Yoda => "yoda",
        Language::Shakespeare => "shakespeare",
    }
}

/// The address that a text to translate into `language` is posted to.
pub fn translation_url(language: Language) -> (url: String)
    ensures
        url@ == FUNTRANSLATE_ENDPOINT_URL@ + "/"@ + language_name_view(language),
{
    String::from_str(FUNTRANSLATE_ENDPOINT_URL).concat("/").concat(language_name(language))
}

/// The outcome of a translation request: the translated text of a reply, or,
/// when the request or the reading of its reply failed with the message
/// `message`, an unknown error carrying that message.
pub fn translation_outcome(reply: Result<String, String>) -> (outcome: Result<
    String,
    ServiceError,
>)
    ensures
        (match reply {
            Ok(text) => outcome == Ok::<String, ServiceError>(text),
            Err(message) => outcome == Err::<String, ServiceError>(
                ServiceError::Unknown { error: message },
            ),
        }),
{
    match reply {
        Ok(text) => Ok(text),
        Err(message) => Err(ServiceError::Unknown { error: message }),
    }
}

} // verus!
