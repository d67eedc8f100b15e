//! What the cloud providers are sent and what their replies come to:
//! DeepL for translation, OpenAI's Whisper API for transcription. The
//! requests themselves are made by the application around this library.
use vstd::prelude::*;
use vstd::string::*;

use crate::text::{
    concat2, ends_with, has_suffix, owned, str_eq, str_to_uppercase, str_trim_end, trim_end_spec,
    uppercase_of,
};

verus! {

/// DeepL free-tier keys end in `:fx`, once trailing whitespace is ignored.
pub open spec fn is_free_tier_key(key: Seq<char>) -> bool {
    has_suffix(trim_end_spec(key), ":fx"@)
}

/// The DeepL host that serves a key.
pub open spec fn spec_deepl_api_base(key: Seq<char>) -> Seq<char> {
    if is_free_tier_key(key) {
        "https://api-free.deepl.com"@
    } else {
        "https://api.deepl.com"@
    }
}

/// Whether a language setting asks the recogniser to detect the language.
pub open spec fn is_auto_language(language: Seq<char>) -> bool {
    language == "auto"@
}

/// The DeepL host for an API key: free-tier keys (suffixed `:fx`) use the
/// free API host; paid keys use the standard host.
pub fn deepl_api_base(api_key: &str) -> (r: &'static str)
    ensures
        r@ == spec_deepl_api_base(api_key@),
{
    if ends_with(str_trim_end(api_key), ":fx") {
        "https://api-free.deepl.com"
    } else {
        "https://api.deepl.com"
    }
}

/// The DeepL translation endpoint for an API key.
pub fn deepl_translate_url(api_key: &str) -> (r: String)
    ensures
        r@ == spec_deepl_api_base(api_key@) + "/v2/translate"@,
{
    concat2(deepl_api_base(api_key), "/v2/translate")
}

/// The form fields of a DeepL translation request, in the order they are
/// sent: the key, the text, and the target language in upper case.
pub fn deepl_form_fields(api_key: &str, text: &str, target_lang: &str) -> (r: Vec<(String, String)>)
    ensures
        r@.len() == 3,
        r@[0].0@ == "auth_key"@,
        r@[0].1@ == api_key@,
        r@[1].0@ == "text"@,
        r@[1].1@ == text@,
        r@[2].0@ == "target_lang"@,
        r@[2].1@ == uppercase_of(target_lang@),
{
    let mut r: Vec<(String, String)> = Vec::new();
    r.push((owned("auth_key"), owned(api_key)));
    r.push((owned("text"), owned(text)));
    r.push((owned("target_lang"), str_to_uppercase(target_lang)));
    r
}

/// The error for a DeepL reply that is not a success, given its body.
pub fn deepl_failure_message(body: &str) -> (r: String)
    ensures
        r@ == "DeepL request failed: "@ + body@,
{
    concat2("DeepL request failed: ", body)
}

/// The translation in a DeepL reply: its first translated text.
pub fn first_translation(texts: Vec<String>) -> (r: Result<String, String>)
    ensures
        texts@.len() > 0 ==> r == Ok::<String, String>(texts@[0]),
        texts@.len() == 0 ==> (r matches Err(e) && e@ == "DeepL returned no translation"@),
{
    let mut texts = texts;
    if texts.len() == 0 {
        Err(owned("DeepL returned no translation"))
    } else {
        Ok(texts.swap_remove(0))
    }
}

/// The endpoint that transcribes audio with OpenAI's Whisper API.
pub fn transcription_url() -> (r: &'static str)
    ensures
        r@ == "https://api.openai.com/v1/audio/transcriptions"@,
{
    "https://api.openai.com/v1/audio/transcriptions"
}

/// The language to hand a recogniser: none when the setting is `auto`,
/// which leaves the recogniser to detect it.
pub fn language_hint(language: &str) -> (r: Option<String>)
    ensures
        is_auto_language(language@) ==> r is None,
        !is_auto_language(language@) ==> (r matches Some(l) && l@ == language@),
{
    if str_eq(language, "auto") {
        None
    } else {
        Some(owned(language))
    }
}

/// The text fields of a transcription request, beside the audio file:
/// the model, and the language unless it is to be detected.
pub fn transcription_fields(language: &str) -> (r: Vec<(String, String)>)
    ensures
        r@.len() == if is_auto_language(language@) { 1int } else { 2int },
        r@[0].0@ == "model"@,
        r@[0].1@ == "whisper-1"@,
        !is_auto_language(language@) ==> r@[1].0@ == "language"@ && r@[1].1@ == language@,
{
    let mut r: Vec<(String, String)> = Vec::new();
    r.push((owned("model"), owned("whisper-1")));
    match language_hint(language) {
        Some(l) => r.push((owned("language"), l)),
        None => {},
    }
    r
}

/// The error for a transcription reply that is not a success, given its body.
pub fn transcription_failure_message(body: &str) -> (r: String)
    ensures
        r@ == "OpenAI transcription request failed: "@ + body@,
{
    concat2("OpenAI transcription request failed: ", body)
}

} // verus!
