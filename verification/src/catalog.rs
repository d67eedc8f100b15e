//! What the settings window is shown and asks for: the combined list of
//! downloadable models with their identifiers, the parsing of those
//! identifiers back, the names API keys are stored under, and how the
//! chosen providers become a captioning plan.
use vstd::prelude::*;
use vstd::string::*;

use crate::text::{
    concat2, concat3, find_char, first_index_of, owned, str_eq, substring,
};
use crate::translate_models::{is_supported, spec_repo_for_target, TranslateModelInfo};
use crate::whisper_models::WhisperModelInfo;

verus! {

/// The name an OpenAI key for cloud speech recognition is stored under.
pub const OPENAI_ASR_KEY: &'static str = "openai_asr";

/// The name a DeepL key for cloud translation is stored under.
pub const DEEPL_TRANSLATE_KEY: &'static str = "deepl_translate";

/// One row of the model list.
pub struct ModelEntry {
    pub id: String,
    pub label: String,
    pub downloaded: bool,
    pub bytes_on_disk: u64,
}

/// The identifier of a speech-recognition model size.
pub open spec fn whisper_entry_id(size: Seq<char>) -> Seq<char> {
    "whisper:"@ + size
}

/// The identifier of a translation model.
pub open spec fn translate_entry_id(lang: Seq<char>) -> Seq<char> {
    "translate:"@ + lang
}

/// The list row of a speech-recognition model.
pub fn whisper_model_entry(info: &WhisperModelInfo) -> (r: ModelEntry)
    ensures
        r.id@ == whisper_entry_id(info.size@),
        r.label@ == "Speech recognition ("@ + info.size@ + ")"@,
        r.downloaded == info.downloaded,
        r.bytes_on_disk == info.bytes_on_disk,
{
    ModelEntry {
        id: concat2("whisper:", info.size.as_str()),
        label: concat3("Speech recognition (", info.size.as_str(), ")"),
        downloaded: info.downloaded,
        bytes_on_disk: info.bytes_on_disk,
    }
}

/// The list row of a translation model.
pub fn translate_model_entry(info: &TranslateModelInfo) -> (r: ModelEntry)
    ensures
        r.id@ == translate_entry_id(info.lang@),
        r.label@ == "Translation (English -> "@ + info.lang@ + ")"@,
        r.downloaded == info.downloaded,
        r.bytes_on_disk == info.bytes_on_disk,
{
    ModelEntry {
        id: concat2("translate:", info.lang.as_str()),
        label: concat3("Translation (English -> ", info.lang.as_str(), ")"),
        downloaded: info.downloaded,
        bytes_on_disk: info.bytes_on_disk,
    }
}

/// The model list: the speech-recognition models, then the translation
/// models, each in the order given.
pub fn model_entries(whisper: &Vec<WhisperModelInfo>, translate: &Vec<TranslateModelInfo>) -> (r:
    Vec<ModelEntry>)
    ensures
        r@.len() == whisper@.len() + translate@.len(),
        forall|i: int|
            0 <= i < whisper@.len() ==> {
                &&& (#[trigger] r@[i]).id@ == whisper_entry_id(whisper@[i].size@)
                &&& r@[i].label@ == "Speech recognition ("@ + whisper@[i].size@ + ")"@
                &&& r@[i].downloaded == whisper@[i].downloaded
                &&& r@[i].bytes_on_disk == whisper@[i].bytes_on_disk
            },
        forall|j: int|
            0 <= j < translate@.len() ==> {
                &&& (#[trigger] r@[whisper@.len() + j]).id@ == translate_entry_id(
                    translate@[j].lang@,
                )
                &&& r@[whisper@.len() + j].label@ == "Translation (English -> "@
                    + translate@[j].lang@ + ")"@
                &&& r@[whisper@.len() + j].downloaded == translate@[j].downloaded
                &&& r@[whisper@.len() + j].bytes_on_disk == translate@[j].bytes_on_disk
            },
{
    let mut r: Vec<ModelEntry> = Vec::new();
    let mut i: usize = 0;
    while i < whisper.len()
        invariant
            i <= whisper@.len(),
            r@.len() == i,
            forall|k: int|
                0 <= k < i ==> {
                    &&& (#[trigger] r@[k]).id@ == whisper_entry_id(whisper@[k].size@)
                    &&& r@[k].label@ == "Speech recognition ("@ + whisper@[k].size@ + ")"@
                    &&& r@[k].downloaded == whisper@[k].downloaded
                    &&& r@[k].bytes_on_disk == whisper@[k].bytes_on_disk
                },
        decreases whisper.len() - i,
    {
        r.push(whisper_model_entry(&whisper[i]));
        i = i + 1;
    }
    let mut j: usize = 0;
    while j < translate.len()
        invariant
            j <= translate@.len(),
            r@.len() == whisper@.len() + j,
            forall|k: int|
                0 <= k < whisper@.len() ==> {
                    &&& (#[trigger] r@[k]).id@ == whisper_entry_id(whisper@[k].size@)
                    &&& r@[k].label@ == "Speech recognition ("@ + whisper@[k].size@ + ")"@
                    &&& r@[k].downloaded == whisper@[k].downloaded
                    &&& r@[k].bytes_on_disk == whisper@[k].bytes_on_disk
                },
            forall|k: int|
                0 <= k < j ==> {
                    &&& (#[trigger] r@[whisper@.len() + k]).id@ == translate_entry_id(
                        translate@[k].lang@,
                    )
                    &&& r@[whisper@.len() + k].label@ == "Translation (English -> "@
                        + translate@[k].lang@ + ")"@
                    &&& r@[whisper@.len() + k].downloaded == translate@[k].downloaded
                    &&& r@[whisper@.len() + k].bytes_on_disk == translate@[k].bytes_on_disk
                },
        decreases translate.len() - j,
    {
        r.push(translate_model_entry(&translate[j]));
        j = j + 1;
    }
    r
}

/// The two kinds of downloadable model.
#[derive(PartialEq, Eq, Structural)]
pub enum ModelKind {
    Whisper,
    Translate,
}

/// A model named by its identifier: its kind, and its size or language.
pub struct ModelRef {
    pub kind: ModelKind,
    pub name: String,
}

/// What an identifier names: the kind and the name, or the error message.
pub open spec fn spec_parse_model_id(id: Seq<char>) -> Result<(ModelKind, Seq<char>), Seq<char>> {
    match first_index_of(id, ':') {
        None => Err("invalid model id '"@ + id + "'"@),
        Some(i) => {
            let kind = id.subrange(0, i);
            let name = id.subrange(i + 1, id.len() as int);
            if kind == "whisper"@ {
                Ok((ModelKind::Whisper, name))
            } else if kind == "translate"@ {
                Ok((ModelKind::Translate, name))
            } else {
                Err("unknown model kind '"@ + kind + "'"@)
            }
        },
    }
}

/// Splits a model identifier at its first `:` into the kind (`whisper` or
/// `translate`) and the size or language that follows.
pub fn parse_model_id(id: &str) -> (r: Result<ModelRef, String>)
    ensures
        match (r, spec_parse_model_id(id@)) {
            (Ok(m), Ok((kind, name))) => m.kind == kind && m.name@ == name,
            (Err(e), Err(msg)) => e@ == msg,
            _ => false,
        },
{
    let n = id.unicode_len();
    match find_char(id, ':') {
        None => Err(concat3("invalid model id '", id, "'")),
        Some(i) => {
            let kind = substring(id, 0, i);
            let name = substring(id, i + 1, n);
            if str_eq(kind.as_str(), "whisper") {
                Ok(ModelRef { kind: ModelKind::Whisper, name })
            } else if str_eq(kind.as_str(), "translate") {
                Ok(ModelRef { kind: ModelKind::Translate, name })
            } else {
                Err(concat3("unknown model kind '", kind.as_str(), "'"))
            }
        },
    }
}

/// A speech-recognition model's identifier names that model again.
pub proof fn lemma_whisper_entry_id_round_trip(size: Seq<char>)
    ensures
        spec_parse_model_id(whisper_entry_id(size)) == Ok::<(ModelKind, Seq<char>), Seq<char>>(
            (ModelKind::Whisper, size),
        ),
{
    reveal_strlit("whisper:");
    reveal_strlit("whisper");
    let id = whisper_entry_id(size);
    lemma_colon_after_prefix(id, 7);
    assert(id.subrange(0, 7) =~= "whisper"@);
    assert(id.subrange(8, id.len() as int) =~= size);
}

/// A translation model's identifier names that model again.
pub proof fn lemma_translate_entry_id_round_trip(lang: Seq<char>)
    ensures
        spec_parse_model_id(translate_entry_id(lang)) == Ok::<(ModelKind, Seq<char>), Seq<char>>(
            (ModelKind::Translate, lang),
        ),
{
    reveal_strlit("translate:");
    reveal_strlit("translate");
    reveal_strlit("whisper");
    let id = translate_entry_id(lang);
    lemma_colon_after_prefix(id, 9);
    assert(id.subrange(0, 9) =~= "translate"@);
    assert(id.subrange(10, id.len() as int) =~= lang);
}

proof fn lemma_colon_after_prefix(id: Seq<char>, n: int)
    requires
        0 <= n < id.len(),
        id[n] == ':',
        forall|k: int| 0 <= k < n ==> id[k] != ':',
    ensures
        first_index_of(id, ':') == Some(n),
    decreases n,
{
    if n > 0 {
        lemma_colon_after_prefix(id.drop_first(), n - 1);
    }
}

/// The error for a provider that has no stored key.
pub open spec fn unknown_provider_message(provider: Seq<char>) -> Seq<char> {
    "unknown provider '"@ + provider + "'"@
}

/// The name a provider's API key is stored under.
pub fn provider_secret_key(provider: &str) -> (r: Result<&'static str, String>)
    ensures
        r is Ok <==> (provider@ == "openai_asr"@ || provider@ == "deepl_translate"@),
        r matches Ok(key) ==> key@ == provider@,
        r matches Err(e) ==> e@ == unknown_provider_message(provider@),
{
    if str_eq(provider, "openai_asr") {
        Ok(OPENAI_ASR_KEY)
    } else if str_eq(provider, "deepl_translate") {
        Ok(DEEPL_TRANSLATE_KEY)
    } else {
        Err(concat3("unknown provider '", provider, "'"))
    }
}

/// Whether speech recognition is to run in the cloud rather than locally.
pub fn uses_cloud_asr(asr_provider: &str) -> (r: bool)
    ensures
        r == (asr_provider@ == "cloud"@),
{
    str_eq(asr_provider, "cloud")
}

/// How captions are to be translated.
pub enum TranslationPlan {
    /// Through the cloud provider, into the given language.
    Cloud { target_lang: String },
    /// With a local model, into the given language.
    Local { target_lang: String },
    /// Not at all.
    Disabled,
}

/// The translation a captioning session runs: into the target language, if
/// one is chosen, by the cloud provider when it is chosen, else by a local
/// model when there is one for the language, else none.
pub fn plan_translation(target_language: Option<String>, translate_provider: &str) -> (r:
    TranslationPlan)
    ensures
        match target_language {
            None => r is Disabled,
            Some(lang) => if translate_provider@ == "cloud"@ {
                r == TranslationPlan::Cloud { target_lang: lang }
            } else if spec_repo_for_target(lang@) is Some {
                r == TranslationPlan::Local { target_lang: lang }
            } else {
                r is Disabled
            },
        },
{
    match target_language {
        None => TranslationPlan::Disabled,
        Some(lang) => {
            if str_eq(translate_provider, "cloud") {
                TranslationPlan::Cloud { target_lang: lang }
            } else if is_supported(lang.as_str()) {
                TranslationPlan::Local { target_lang: lang }
            } else {
                TranslationPlan::Disabled
            }
        },
    }
}

} // verus!
