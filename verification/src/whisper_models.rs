//! The catalogue of local Whisper speech-recognition models: which sizes
//! exist, what their files are called, where they are fetched from and
//! stored, and how a size on disk is reported.
use vstd::prelude::*;
use vstd::string::*;

use crate::text::{concat2, concat3, has_suffix, owned, str_eq};

verus! {

/// The model sizes that can be downloaded, in the order they are listed.
pub open spec fn whisper_size_names() -> Seq<Seq<char>> {
    seq!["tiny"@, "base"@, "small"@, "medium"@]
}

/// The file name of a model size: `ggml-<size>.bin`.
pub open spec fn spec_model_filename(size: Seq<char>) -> Seq<char> {
    "ggml-"@ + size + ".bin"@
}

/// Where a model size is downloaded from.
pub open spec fn spec_model_url(size: Seq<char>) -> Seq<char> {
    "https://huggingface.co/ggerganov/whisper.cpp/resolve/main/"@ + spec_model_filename(size)
}

/// The error for a size that is not in the catalogue.
pub open spec fn unknown_size_message(size: Seq<char>) -> Seq<char> {
    "unknown whisper model size '"@ + size + "'"@
}

/// A model's download address ends in its file name, so the file is stored
/// under the name it is served under.
pub proof fn lemma_url_ends_with_file_name(size: Seq<char>)
    ensures
        has_suffix(spec_model_url(size), spec_model_filename(size)),
{
    let u = spec_model_url(size);
    let f = spec_model_filename(size);
    assert(u.subrange(u.len() - f.len(), u.len() as int) =~= f);
}

/// The model sizes, in catalogue order.
pub fn whisper_sizes() -> (r: Vec<&'static str>)
    ensures
        r@.len() == 4,
        forall|i: int| 0 <= i < 4 ==> #[trigger] r@[i]@ == whisper_size_names()[i],
{
    let r: Vec<&'static str> = vec!["tiny", "base", "small", "medium"];
    r
}

/// Accepts `size` when it names a model in the catalogue.
pub fn validate_size(size: &str) -> (r: Result<&str, String>)
    ensures
        r is Ok <==> whisper_size_names().contains(size@),
        r matches Ok(s) ==> s == size,
        r matches Err(e) ==> e@ == unknown_size_message(size@),
{
    let sizes = whisper_sizes();
    let mut i: usize = 0;
    while i < sizes.len()
        invariant
            sizes@.len() == 4,
            forall|k: int| 0 <= k < 4 ==> #[trigger] sizes@[k]@ == whisper_size_names()[k],
            i <= sizes.len(),
            forall|k: int| 0 <= k < i ==> whisper_size_names()[k] != size@,
        decreases sizes.len() - i,
    {
        if str_eq(sizes[i], size) {
            assert(whisper_size_names()[i as int] == size@);
            return Ok(size);
        }
        i = i + 1;
    }
    assert(!whisper_size_names().contains(size@)) by {
        if whisper_size_names().contains(size@) {
            let k = choose|k: int| 0 <= k < 4 && whisper_size_names()[k] == size@;
            assert(whisper_size_names()[k] != size@);
        }
    }
    Err(concat3("unknown whisper model size '", size, "'"))
}

/// The file name a model size is stored under.
pub fn model_filename(size: &str) -> (r: String)
    ensures
        r@ == spec_model_filename(size@),
{
    concat3("ggml-", size, ".bin")
}

/// The address a model size is downloaded from.
pub fn model_url(size: &str) -> (r: String)
    ensures
        r@ == spec_model_url(size@),
{
    let file = model_filename(size);
    concat2("https://huggingface.co/ggerganov/whisper.cpp/resolve/main/", file.as_str())
}

/// Where a model size is stored, as path components below the
/// application's data directory: `models/whisper/<file name>`.
pub fn model_location(size: &str) -> (r: Vec<String>)
    ensures
        r@.len() == 3,
        r@[0]@ == "models"@,
        r@[1]@ == "whisper"@,
        r@[2]@ == spec_model_filename(size@),
{
    let mut r: Vec<String> = Vec::new();
    r.push(owned("models"));
    r.push(owned("whisper"));
    r.push(model_filename(size));
    r
}

/// Whether a Whisper model size is downloaded, and its size on disk.
pub struct WhisperModelInfo {
    pub size: String,
    pub downloaded: bool,
    pub bytes_on_disk: u64,
}

/// The entry for a model size given the length of its file, `None` when
/// the file's metadata cannot be read (most often: not downloaded).
pub fn whisper_model_info(size: &str, file_len: Option<u64>) -> (r: WhisperModelInfo)
    ensures
        r.size@ == size@,
        r.downloaded == file_len is Some,
        r.bytes_on_disk == match file_len {
            Some(n) => n,
            None => 0,
        },
{
    let (downloaded, bytes_on_disk) = match file_len {
        Some(n) => (true, n),
        None => (false, 0),
    };
    WhisperModelInfo { size: owned(size), downloaded, bytes_on_disk }
}

} // verus!
