//! The catalogue of local translation models: English to a target language,
//! backed by OPUS-MT models exported to ONNX. Only language pairs with a
//! published ONNX export are listed.
use vstd::prelude::*;
use vstd::string::*;

use crate::text::{concat2, concat3, owned, str_eq};

verus! {

/// The target languages that have a local model, in the order they are listed.
pub open spec fn supported_target_names() -> Seq<Seq<char>> {
    seq!["es"@, "fr"@, "de"@, "zh"@]
}

/// The model repository for a target language.
pub open spec fn spec_repo_for_target(lang: Seq<char>) -> Option<Seq<char>> {
    if lang == "es"@ {
        Some("Xenova/opus-mt-en-es"@)
    } else if lang == "fr"@ {
        Some("Xenova/opus-mt-en-fr"@)
    } else if lang == "de"@ {
        Some("Xenova/opus-mt-en-de"@)
    } else if lang == "zh"@ {
        Some("Xenova/opus-mt-en-zh"@)
    } else {
        None
    }
}

/// The files that make up a model, in download order.
pub open spec fn model_file_names() -> Seq<Seq<char>> {
    seq![
        "encoder_model_int8.onnx"@,
        "decoder_model_merged_int8.onnx"@,
        "tokenizer.json"@,
        "config.json"@,
    ]
}

/// Where each model file lies below a repository's download base.
pub open spec fn model_file_paths() -> Seq<Seq<char>> {
    seq![
        "/onnx/encoder_model_int8.onnx"@,
        "/onnx/decoder_model_merged_int8.onnx"@,
        "/tokenizer.json"@,
        "/config.json"@,
    ]
}

/// The download base of a repository.
pub open spec fn repo_base_url(repo: Seq<char>) -> Seq<char> {
    "https://huggingface.co/"@ + repo + "/resolve/main"@
}

/// The error for a target language without a local model.
pub open spec fn no_model_message(lang: Seq<char>) -> Seq<char> {
    "no local translation model available for '"@ + lang + "'"@
}

/// Sum of a sequence of byte counts.
pub open spec fn total_bytes(s: Seq<u64>) -> int
    decreases s.len(),
{
    if s.len() == 0 {
        0
    } else {
        total_bytes(s.drop_last()) + s.last()
    }
}

/// The model repository for a target language, if there is one.
pub fn repo_for_target(lang: &str) -> (r: Option<&'static str>)
    ensures
        r is Some <==> spec_repo_for_target(lang@) is Some,
        r matches Some(repo) ==> spec_repo_for_target(lang@) == Some(repo@),
{
    if str_eq(lang, "es") {
        Some("Xenova/opus-mt-en-es")
    } else if str_eq(lang, "fr") {
        Some("Xenova/opus-mt-en-fr")
    } else if str_eq(lang, "de") {
        Some("Xenova/opus-mt-en-de")
    } else if str_eq(lang, "zh") {
        Some("Xenova/opus-mt-en-zh")
    } else {
        None
    }
}

/// Whether English text can be translated locally into `lang`.
pub fn is_supported(lang: &str) -> (r: bool)
    ensures
        r == spec_repo_for_target(lang@) is Some,
{
    repo_for_target(lang).is_some()
}

/// The target languages that have a local model.
pub fn supported_targets() -> (r: &'static [&'static str])
    ensures
        r@.len() == 4,
        forall|i: int| 0 <= i < 4 ==> #[trigger] r@[i]@ == supported_target_names()[i],
{
    &["es", "fr", "de", "zh"]
}

/// Every supported target, and only those, has a model repository.
pub proof fn lemma_supported_targets_have_models(lang: Seq<char>)
    ensures
        supported_target_names().contains(lang) <==> spec_repo_for_target(lang) is Some,
{
    if spec_repo_for_target(lang) is Some {
        if lang == "es"@ {
            assert(supported_target_names()[0] == lang);
        } else if lang == "fr"@ {
            assert(supported_target_names()[1] == lang);
        } else if lang == "de"@ {
            assert(supported_target_names()[2] == lang);
        } else {
            assert(supported_target_names()[3] == lang);
        }
    }
}

/// Whether the model for a target language is downloaded, and how many
/// bytes its files take.
pub struct TranslateModelInfo {
    pub lang: String,
    pub downloaded: bool,
    pub bytes_on_disk: u64,
}

/// The entry for a target language given the sizes of the files in its
/// model directory whose metadata could be read.
pub fn translate_model_info(lang: &str, file_sizes: &Vec<u64>) -> (r: TranslateModelInfo)
    requires
        total_bytes(file_sizes@) <= u64::MAX,
    ensures
        r.lang@ == lang@,
        r.downloaded == (file_sizes@.len() > 0),
        r.bytes_on_disk == total_bytes(file_sizes@),
{
    let mut bytes_on_disk: u64 = 0;
    let mut downloaded = false;
    let mut i: usize = 0;
    while i < file_sizes.len()
        invariant
            i <= file_sizes@.len(),
            total_bytes(file_sizes@) <= u64::MAX,
            bytes_on_disk == total_bytes(file_sizes@.take(i as int)),
            downloaded == (i > 0),
        decreases file_sizes.len() - i,
    {
        proof {
            assert(file_sizes@.take(i + 1).drop_last() =~= file_sizes@.take(i as int));
            lemma_total_bytes_prefix(file_sizes@, i as int + 1);
        }
        bytes_on_disk = bytes_on_disk + file_sizes[i];
        downloaded = true;
        i = i + 1;
    }
    assert(file_sizes@.take(i as int) =~= file_sizes@);
    TranslateModelInfo { lang: owned(lang), downloaded, bytes_on_disk }
}

/// The sum over a prefix never exceeds the sum over the whole.
proof fn lemma_total_bytes_prefix(s: Seq<u64>, n: int)
    requires
        0 <= n <= s.len(),
    ensures
        total_bytes(s.take(n)) <= total_bytes(s),
    decreases s.len() - n,
{
    if n < s.len() {
        lemma_total_bytes_prefix(s, n + 1);
        assert(s.take(n + 1).drop_last() =~= s.take(n));
    } else {
        assert(s.take(n) =~= s);
    }
}

/// Where a target language's model is stored, as path components below the
/// application's data directory: `models/translate/<lang>`.
pub fn model_location(lang: &str) -> (r: Vec<String>)
    ensures
        r@.len() == 3,
        r@[0]@ == "models"@,
        r@[1]@ == "translate"@,
        r@[2]@ == lang@,
{
    let mut r: Vec<String> = Vec::new();
    r.push(owned("models"));
    r.push(owned("translate"));
    r.push(owned(lang));
    r
}

/// One file of a model download: where it comes from, the name it is
/// stored under, and its place among the files of the model, by which the
/// progress of the whole download is blended.
pub struct DownloadStage {
    pub url: String,
    pub file_name: String,
    pub stage_index: usize,
    pub stage_count: usize,
}

fn download_stage(base: &str, path: &'static str, file_name: &'static str, stage_index: usize) -> (r:
    DownloadStage)
    ensures
        r.url@ == base@ + path@,
        r.file_name@ == file_name@,
        r.stage_index == stage_index,
        r.stage_count == 4,
{
    DownloadStage {
        url: concat2(base, path),
        file_name: owned(file_name),
        stage_index,
        stage_count: 4,
    }
}

/// The files to download for a target language's model: the encoder, the
/// merged decoder, the tokenizer and the model configuration, in that order.
pub fn model_download_plan(target_lang: &str) -> (r: Result<Vec<DownloadStage>, String>)
    ensures
        r is Ok <==> spec_repo_for_target(target_lang@) is Some,
        r matches Err(e) ==> e@ == no_model_message(target_lang@),
        r matches Ok(stages) ==> {
            &&& stages@.len() == 4
            &&& forall|i: int|
                0 <= i < 4 ==> {
                    &&& (#[trigger] stages@[i]).url@ == repo_base_url(
                        spec_repo_for_target(target_lang@)->0,
                    ) + model_file_paths()[i]
                    &&& stages@[i].file_name@ == model_file_names()[i]
                    &&& stages@[i].stage_index == i
                    &&& stages@[i].stage_count == 4
                }
        },
{
    match repo_for_target(target_lang) {
        None => Err(concat3("no local translation model available for '", target_lang, "'")),
        Some(repo) => {
            let base = concat3("https://huggingface.co/", repo, "/resolve/main");
            let mut stages: Vec<DownloadStage> = Vec::new();
            stages.push(
                download_stage(
                    base.as_str(),
                    "/onnx/encoder_model_int8.onnx",
                    "encoder_model_int8.onnx",
                    0,
                ),
            );
            stages.push(
                download_stage(
                    base.as_str(),
                    "/onnx/decoder_model_merged_int8.onnx",
                    "decoder_model_merged_int8.onnx",
                    1,
                ),
            );
            stages.push(download_stage(base.as_str(), "/tokenizer.json", "tokenizer.json", 2));
            stages.push(download_stage(base.as_str(), "/config.json", "config.json", 3));
            Ok(stages)
        },
    }
}

} // verus!
