//! Local translation: reading a MarianMT model's configuration, loading its
//! tokenizer, and the greedy decoding loop over the merged (KV-cached)
//! decoder.
//!
//! The encoder and decoder themselves are ONNX graphs over floating-point
//! tensors and are run by the application; at each decoding step it asks
//! the `GreedyDecoder` what to feed the decoder, and tells it which token
//! had the highest score.
use vstd::prelude::*;
use vstd::string::*;

use crate::json::{
    doc_as_i64, doc_as_str, doc_as_u64, doc_member, is_json_text, json_as_i64, json_as_str,
    json_as_u64, json_doc_of, json_error_of, json_get, json_is_null, json_set_member_null, json_to_string,
    doc_with_member_null, parse_json, Json, JsonDoc,
};
use crate::text::{concat2, decimal, decimal_string, owned, str_eq};

verus! {

#[verifier::external_type_specification]
#[verifier::external_body]
pub struct ExTokenizer(tokenizers::Tokenizer);

/// Whether `ids` is an encoding that tokenizers' `encode` (special tokens
/// added) may give for `text` under `tokenizer`. This is a relation, not a
/// function: some models sample (BPE dropout, unigram sampling), so one text
/// may encode differently from call to call.
pub uninterp spec fn may_encode(tokenizer: tokenizers::Tokenizer, text: Seq<char>, ids: Seq<u32>) -> bool;

/// tokenizers' `encode` of one sequence with special tokens added, and the
/// ids of the encoding: an encoding of this text under this tokenizer.
/// (The `expect` calls on its encoding path that were read assert
/// tokenizers' own invariants, not conditions on the text.)
#[verifier::external_body]
fn tokenizer_encode(tokenizer: &tokenizers::Tokenizer, text: &str) -> (r: Result<Vec<u32>, String>)
    ensures
        r matches Ok(ids) ==> may_encode(*tokenizer, text@, ids@),
{
    match tokenizer.encode(text, true) {
        Ok(encoding) => Ok(encoding.get_ids().to_vec()),
        Err(e) => Err(e.to_string()),
    }
}

/// The fields of a MarianMT `config.json` that decoding needs, each as
/// read from the file (`None` where it is missing or not an integer).
pub struct MarianConfig {
    pub decoder_start_token_id: Option<i64>,
    pub pad_token_id: Option<i64>,
    pub eos_token_id: Option<i64>,
    pub decoder_layers: Option<u64>,
    pub decoder_attention_heads: Option<u64>,
    pub d_model: Option<u64>,
}

/// What decoding needs to know of the model.
pub struct GenerationConfig {
    pub decoder_start_token_id: i64,
    pub eos_token_id: i64,
    pub num_decoder_layers: usize,
    pub num_heads: usize,
    pub head_dim: usize,
}

/// The error for invalid attention dimensions.
pub open spec fn invalid_dims_message(d_model: usize, num_heads: usize) -> Seq<char> {
    "invalid decoder dims: d_model="@ + decimal(d_model as nat) + ", num_heads="@ + decimal(
        num_heads as nat,
    )
}

/// The generation settings of a configuration, or why it is unusable.
pub open spec fn spec_generation_config(c: MarianConfig) -> Result<GenerationConfig, Seq<char>> {
    if c.decoder_layers is None {
        Err("config.json missing decoder_layers"@)
    } else if c.decoder_attention_heads is None {
        Err("config.json missing decoder_attention_heads"@)
    } else if c.d_model is None {
        Err("config.json missing d_model"@)
    } else {
        let layers = c.decoder_layers->0 as usize;
        let heads = c.decoder_attention_heads->0 as usize;
        let d_model = c.d_model->0 as usize;
        if heads == 0 || d_model % heads != 0 {
            Err(invalid_dims_message(d_model, heads))
        } else {
            Ok(
                GenerationConfig {
                    decoder_start_token_id: match c.decoder_start_token_id {
                        Some(id) => id,
                        None => match c.pad_token_id {
                            Some(id) => id,
                            None => 0,
                        },
                    },
                    eos_token_id: match c.eos_token_id {
                        Some(id) => id,
                        None => 0,
                    },
                    num_decoder_layers: layers,
                    num_heads: heads,
                    head_dim: (d_model / heads) as usize,
                },
            )
        }
    }
}

/// Accepted settings split the model width evenly over the heads, with at
/// least one head.
pub proof fn lemma_heads_split_width(c: MarianConfig)
    requires
        spec_generation_config(c) is Ok,
    ensures
        ({
            let g = spec_generation_config(c)->Ok_0;
            g.num_heads > 0 && g.head_dim * g.num_heads == c.d_model->0 as usize
        }),
{
    let g = spec_generation_config(c)->Ok_0;
    let d_model = c.d_model->0 as usize;
    vstd::arithmetic::div_mod::lemma_fundamental_div_mod(d_model as int, g.num_heads as int);
    vstd::arithmetic::mul::lemma_mul_is_commutative(g.head_dim as int, g.num_heads as int);
}

impl GenerationConfig {
    /// The generation settings of a configuration. Decoding starts from
    /// `decoder_start_token_id`, else `pad_token_id`, else token 0; it ends
    /// at `eos_token_id`, else token 0. The layer count, head count and model
    /// width are required, and the width must split evenly over the heads.
    pub fn from_marian(c: &MarianConfig) -> (r: Result<GenerationConfig, String>)
        ensures
            match (r, spec_generation_config(*c)) {
                (Ok(g), Ok(s)) => g == s,
                (Err(e), Err(msg)) => e@ == msg,
                _ => false,
            },
    {
        let decoder_start_token_id = match c.decoder_start_token_id {
            Some(id) => id,
            None => match c.pad_token_id {
                Some(id) => id,
                None => 0,
            },
        };
        let eos_token_id = match c.eos_token_id {
            Some(id) => id,
            None => 0,
        };
        let num_decoder_layers = match c.decoder_layers {
            Some(n) => n as usize,
            None => {
                return Err(owned("config.json missing decoder_layers"));
            },
        };
        let num_heads = match c.decoder_attention_heads {
            Some(n) => n as usize,
            None => {
                return Err(owned("config.json missing decoder_attention_heads"));
            },
        };
        let d_model = match c.d_model {
            Some(n) => n as usize,
            None => {
                return Err(owned("config.json missing d_model"));
            },
        };
        if num_heads == 0 || d_model % num_heads != 0 {
            let mut msg = concat2(
                "invalid decoder dims: d_model=",
                decimal_string(d_model as u64).as_str(),
            );
            msg.append(", num_heads=");
            msg.append(decimal_string(num_heads as u64).as_str());
            return Err(msg);
        }
        let head_dim = d_model / num_heads;
        Ok(
            GenerationConfig {
                decoder_start_token_id,
                eos_token_id,
                num_decoder_layers,
                num_heads,
                head_dim,
            },
        )
    }

    /// The shape of a cache tensor holding `past_len` positions:
    /// batch, heads, positions, head width.
    pub fn cache_shape(&self, past_len: usize) -> (r: Vec<usize>)
        ensures
            r@ == seq![1usize, self.num_heads, past_len, self.head_dim],
    {
        let mut r: Vec<usize> = Vec::new();
        r.push(1);
        r.push(self.num_heads);
        r.push(past_len);
        r.push(self.head_dim);
        assert(r@ =~= seq![1usize, self.num_heads, past_len, self.head_dim]);
        r
    }

    /// The generation settings in a `config.json`, read as JSON: text that
    /// is not JSON is an error, and otherwise the settings are those of the
    /// fields it holds.
    pub fn from_config_json(text: &str) -> (r: Result<GenerationConfig, String>)
        ensures
            !is_json_text(text@) ==> (r matches Err(e) && e@ == json_error_of(text@)),
            is_json_text(text@) ==> match (
                r,
                spec_generation_config(marian_fields(json_doc_of(text@))),
            ) {
                (Ok(g), Ok(s)) => g == s,
                (Err(e), Err(msg)) => e@ == msg,
                _ => false,
            },
            r matches Ok(g) ==> ({
                let start = doc_member(json_doc_of(text@), "decoder_start_token_id"@);
                start is Some && doc_as_i64(start->0) is Some ==> g.decoder_start_token_id
                    == doc_as_i64(start->0)->0
            }),
            r matches Ok(g) ==> ({
                let eos = doc_member(json_doc_of(text@), "eos_token_id"@);
                eos is Some && doc_as_i64(eos->0) is Some ==> g.eos_token_id == doc_as_i64(
                    eos->0,
                )->0
            }),
    {
        let json = parse_json(text)?;
        let fields = read_marian_config(&json);
        proof {
            lemma_config_reads_named_members(json.doc());
        }
        GenerationConfig::from_marian(&fields)
    }
}

/// The integer member `key` of a document, if it is one that fits in `i64`.
pub open spec fn member_i64(doc: JsonDoc, key: Seq<char>) -> Option<i64> {
    match doc_member(doc, key) {
        Some(m) => doc_as_i64(m),
        None => None,
    }
}

/// The member `key` of a document, if it is a non-negative integer.
pub open spec fn member_u64(doc: JsonDoc, key: Seq<char>) -> Option<u64> {
    match doc_member(doc, key) {
        Some(m) => doc_as_u64(m),
        None => None,
    }
}

/// The decoding fields of a `config.json` document.
pub open spec fn marian_fields(doc: JsonDoc) -> MarianConfig {
    MarianConfig {
        decoder_start_token_id: member_i64(doc, "decoder_start_token_id"@),
        pad_token_id: member_i64(doc, "pad_token_id"@),
        eos_token_id: member_i64(doc, "eos_token_id"@),
        decoder_layers: member_u64(doc, "decoder_layers"@),
        decoder_attention_heads: member_u64(doc, "decoder_attention_heads"@),
        d_model: member_u64(doc, "d_model"@),
    }
}

/// Whether a tokenizer definition has a `Precompiled` normalizer whose
/// `precompiled_charsmap` is present and `null`.
pub open spec fn has_null_precompiled_charsmap(doc: JsonDoc) -> bool {
    match doc_member(doc, "normalizer"@) {
        None => false,
        Some(normalizer) => {
            &&& match doc_member(normalizer, "type"@) {
                Some(t) => doc_as_str(t) == Some("Precompiled"@),
                None => false,
            }
            &&& match doc_member(normalizer, "precompiled_charsmap"@) {
                Some(c) => c is Null,
                None => false,
            }
        },
    }
}

fn json_i64_member(json: &Json, key: &str) -> (r: Option<i64>)
    ensures
        r == member_i64(json.doc(), key@),
{
    match json_get(json.root(), key) {
        Some(v) => json_as_i64(v),
        None => None,
    }
}

fn json_u64_member(json: &Json, key: &str) -> (r: Option<u64>)
    ensures
        r == member_u64(json.doc(), key@),
{
    match json_get(json.root(), key) {
        Some(v) => json_as_u64(v),
        None => None,
    }
}

/// The decoding fields of a parsed `config.json`.
fn read_marian_config(json: &Json) -> (r: MarianConfig)
    ensures
        r == marian_fields(json.doc()),
{
    MarianConfig {
        decoder_start_token_id: json_i64_member(json, "decoder_start_token_id"),
        pad_token_id: json_i64_member(json, "pad_token_id"),
        eos_token_id: json_i64_member(json, "eos_token_id"),
        decoder_layers: json_u64_member(json, "decoder_layers"),
        decoder_attention_heads: json_u64_member(json, "decoder_attention_heads"),
        d_model: json_u64_member(json, "d_model"),
    }
}

/// Whether a tokenizer definition has a `Precompiled` normalizer whose
/// `precompiled_charsmap` is `null`, which tokenizers cannot read.
fn is_broken_precompiled(json: &Json) -> (r: bool)
    ensures
        r == has_null_precompiled_charsmap(json.doc()),
{
    match json_get(json.root(), "normalizer") {
        None => false,
        Some(normalizer) => {
            let precompiled = match json_get(normalizer, "type") {
                Some(t) => match json_as_str(t) {
                    Some(name) => str_eq(name, "Precompiled"),
                    None => false,
                },
                None => false,
            };
            precompiled && match json_get(normalizer, "precompiled_charsmap") {
                Some(c) => json_is_null(c),
                None => false,
            }
        },
    }
}

/// A tokenizer definition with a `Precompiled` normalizer whose charsmap is
/// `null` dropped (set to `null`); any other definition unchanged.
pub open spec fn repaired_tokenizer_doc(doc: JsonDoc) -> JsonDoc {
    if has_null_precompiled_charsmap(doc) {
        doc_with_member_null(doc, "normalizer"@)
    } else {
        doc
    }
}

/// The repair leaves a tokenizer definition exactly as it was unless its
/// normalizer is of type `Precompiled` with a `precompiled_charsmap` member
/// that is `null`; in that case it sets the normalizer to `null` and keeps
/// every other member of the definition as it was.
pub proof fn lemma_repair_only_drops_null_charsmap(doc: JsonDoc)
    ensures
        ({
            let broken = match doc_member(doc, "normalizer"@) {
                Some(n) => doc_member(n, "type"@) == Some(JsonDoc::Str("Precompiled"@))
                    && doc_member(n, "precompiled_charsmap"@) == Some(JsonDoc::Null),
                None => false,
            };
            let fixed = repaired_tokenizer_doc(doc);
            &&& !broken ==> fixed == doc
            &&& broken ==> fixed is Object && doc_member(fixed, "normalizer"@) == Some(
                JsonDoc::Null,
            )
            &&& forall|k: Seq<char>|
                k != "normalizer"@ ==> #[trigger] doc_member(fixed, k) == doc_member(doc, k)
        }),
{
    let fixed = repaired_tokenizer_doc(doc);
    if has_null_precompiled_charsmap(doc) {
        let m = doc->Object_0;
        assert forall|k: Seq<char>| k != "normalizer"@ implies #[trigger] doc_member(fixed, k)
            == doc_member(doc, k) by {
            assert(m.insert("normalizer"@, JsonDoc::Null).contains_key(k) == m.contains_key(k));
        }
    }
}

/// The generation settings of a `config.json` document come from the
/// members that name them: the start token is `decoder_start_token_id` where
/// that is an integer (fitting `i64`), else `pad_token_id`, else 0; the end
/// token is `eos_token_id`, else 0; the settings exist exactly when
/// `decoder_layers`, `decoder_attention_heads` and `d_model` are
/// non-negative integers and the heads split the width evenly, and then the
/// layer and head counts are those members and the head width is the width
/// over the heads.
pub proof fn lemma_config_reads_named_members(doc: JsonDoc)
    ensures
        ({
            let start = doc_member(doc, "decoder_start_token_id"@);
            let pad = doc_member(doc, "pad_token_id"@);
            let eos = doc_member(doc, "eos_token_id"@);
            let layers = doc_member(doc, "decoder_layers"@);
            let heads = doc_member(doc, "decoder_attention_heads"@);
            let width = doc_member(doc, "d_model"@);
            let usable = {
                &&& layers is Some && doc_as_u64(layers->0) is Some
                &&& heads is Some && doc_as_u64(heads->0) is Some
                &&& width is Some && doc_as_u64(width->0) is Some
                &&& (doc_as_u64(heads->0)->0 as usize) != 0
                &&& (doc_as_u64(width->0)->0 as usize) % (doc_as_u64(heads->0)->0 as usize) == 0
            };
            let r = spec_generation_config(marian_fields(doc));
            &&& r is Ok <==> usable
            &&& r matches Ok(g) ==> {
                &&& g.decoder_start_token_id == if start is Some && doc_as_i64(start->0) is Some {
                    doc_as_i64(start->0)->0
                } else if pad is Some && doc_as_i64(pad->0) is Some {
                    doc_as_i64(pad->0)->0
                } else {
                    0
                }
                &&& g.eos_token_id == if eos is Some && doc_as_i64(eos->0) is Some {
                    doc_as_i64(eos->0)->0
                } else {
                    0
                }
                &&& g.num_decoder_layers == doc_as_u64(layers->0)->0 as usize
                &&& g.num_heads == doc_as_u64(heads->0)->0 as usize
                &&& g.head_dim == (doc_as_u64(width->0)->0 as usize) / (doc_as_u64(
                    heads->0,
                )->0 as usize)
            }
        }),
{
}

/// The text of a `tokenizer.json`, made readable by tokenizers. Some
/// exports ship a `Precompiled` normalizer whose `precompiled_charsmap` is
/// `null`, which tokenizers cannot read; such a normalizer does nothing, so
/// it is dropped (set to `null`) rather than failing to load the tokenizer
/// at all. Any other definition comes back as the same JSON value.
pub fn repair_tokenizer_json(raw: &str) -> (r: Result<String, String>)
    ensures
        r is Ok <==> is_json_text(raw@),
        r matches Ok(s) ==> is_json_text(s@) && json_doc_of(s@) == repaired_tokenizer_doc(
            json_doc_of(raw@),
        ),
        r matches Ok(s) ==> forall|k: Seq<char>|
            k != "normalizer"@ ==> #[trigger] doc_member(json_doc_of(s@), k) == doc_member(
                json_doc_of(raw@),
                k,
            ),
        r matches Err(e) ==> e@ == json_error_of(raw@),
{
    proof {
        lemma_repair_only_drops_null_charsmap(json_doc_of(raw@));
    }
    let mut json = parse_json(raw)?;
    if is_broken_precompiled(&json) {
        json_set_member_null(&mut json, "normalizer");
    }
    Ok(json_to_string(&json))
}

/// The most tokens a translation is decoded to.
pub const MAX_OUTPUT_TOKENS: usize = 128;

/// What the decoder is fed at one step: the previous token, whether the
/// cached branch of the merged graph is taken, and how many positions the
/// self-attention and cross-attention caches hold.
pub struct DecodeStep {
    pub input_token: i64,
    pub use_cache_branch: bool,
    pub decoder_past_len: usize,
    pub encoder_past_len: usize,
}

/// Greedy autoregressive decoding with a KV cache. Self-attention keys and
/// values grow by one position per step; cross-attention keys and values are
/// computed on the first (prefill) step and reused on every later step.
pub struct GreedyDecoder {
    source_len: usize,
    steps: usize,
    decoder_past_len: usize,
    encoder_past_len: usize,
    next_input_token: i64,
    eos_token_id: i64,
    output_ids: Vec<u32>,
    finished: bool,
}

impl GreedyDecoder {
    /// Steps taken so far.
    pub closed spec fn steps(&self) -> nat {
        self.steps as nat
    }

    /// Tokens produced so far, the end-of-sequence token excluded.
    pub closed spec fn outputs(&self) -> Seq<u32> {
        self.output_ids@
    }

    /// Whether the end-of-sequence token has been produced.
    pub closed spec fn saw_eos(&self) -> bool {
        self.finished
    }

    /// The token the next step is fed.
    pub closed spec fn next_input(&self) -> i64 {
        self.next_input_token
    }

    /// The length of the source sequence.
    pub closed spec fn source_len(&self) -> usize {
        self.source_len
    }

    /// The token that ends decoding.
    pub closed spec fn eos(&self) -> i64 {
        self.eos_token_id
    }

    /// Whether decoding is over: the end-of-sequence token was produced, or
    /// `MAX_OUTPUT_TOKENS` steps were taken.
    pub open spec fn done(&self) -> bool {
        self.saw_eos() || self.steps() >= MAX_OUTPUT_TOKENS
    }

    /// The decoder's consistency: one cache position per step taken, the
    /// cross-attention cache filled after the first step, one output per
    /// step that did not end decoding.
    #[verifier::type_invariant]
    closed spec fn consistent(&self) -> bool {
        &&& self.steps <= MAX_OUTPUT_TOKENS
        &&& self.decoder_past_len == self.steps
        &&& self.encoder_past_len == if self.steps == 0 {
            0
        } else {
            self.source_len
        }
        &&& self.output_ids@.len() == if self.finished {
            self.steps - 1
        } else {
            self.steps as int
        }
        &&& self.finished ==> self.steps > 0
    }

    /// A decoder for a source sequence of `source_len` tokens, starting from
    /// the model's decoder start token.
    pub fn new(config: &GenerationConfig, source_len: usize) -> (r: GreedyDecoder)
        ensures
            r.steps() == 0,
            r.outputs() == Seq::<u32>::empty(),
            !r.saw_eos(),
            r.next_input() == config.decoder_start_token_id,
            r.source_len() == source_len,
            r.eos() == config.eos_token_id,
    {
        GreedyDecoder {
            source_len,
            steps: 0,
            decoder_past_len: 0,
            encoder_past_len: 0,
            next_input_token: config.decoder_start_token_id,
            eos_token_id: config.eos_token_id,
            output_ids: Vec::new(),
            finished: false,
        }
    }

    /// Whether decoding is over.
    pub fn is_done(&self) -> (r: bool)
        ensures
            r == self.done(),
    {
        self.finished || self.steps >= MAX_OUTPUT_TOKENS
    }

    /// What the next step feeds the decoder: the previous token (the start
    /// token at first), the cached branch on every step after the first, a
    /// self-attention cache of one position per step taken, and a
    /// cross-attention cache that is empty on the first step and holds the
    /// whole source after it.
    pub fn current_step(&self) -> (r: DecodeStep)
        requires
            !self.done(),
        ensures
            r.input_token == self.next_input(),
            r.use_cache_branch == (self.steps() > 0),
            r.decoder_past_len == self.steps(),
            r.encoder_past_len == if self.steps() == 0 {
                0
            } else {
                self.source_len()
            },
    {
        proof {
            use_type_invariant(self);
        }
        DecodeStep {
            input_token: self.next_input_token,
            use_cache_branch: self.steps > 0,
            decoder_past_len: self.decoder_past_len,
            encoder_past_len: self.encoder_past_len,
        }
    }

    /// Records the token the step chose. The end-of-sequence token ends
    /// decoding and is not output; any other token is output and fed to the
    /// next step.
    pub fn observe(&mut self, next_token: usize)
        requires
            !old(self).done(),
        ensures
            final(self).steps() == old(self).steps() + 1,
            final(self).source_len() == old(self).source_len(),
            final(self).eos() == old(self).eos(),
            next_token as i64 == old(self).eos() ==> {
                &&& final(self).saw_eos()
                &&& final(self).outputs() == old(self).outputs()
                &&& final(self).next_input() == old(self).next_input()
            },
            next_token as i64 != old(self).eos() ==> {
                &&& !final(self).saw_eos()
                &&& final(self).outputs() == old(self).outputs().push(next_token as u32)
                &&& final(self).next_input() == next_token as i64
            },
    {
        proof {
            use_type_invariant(&*self);
        }
        let mut output_ids = self.output_ids.clone();
        assert(output_ids@ =~= self.output_ids@);
        let mut next_input_token = self.next_input_token;
        let finished = next_token as i64 == self.eos_token_id;
        if !finished {
            output_ids.push(next_token as u32);
            next_input_token = next_token as i64;
        }
        *self = GreedyDecoder {
            source_len: self.source_len,
            steps: self.steps + 1,
            decoder_past_len: self.decoder_past_len + 1,
            encoder_past_len: self.source_len,
            next_input_token,
            eos_token_id: self.eos_token_id,
            output_ids,
            finished,
        };
    }

    /// The tokens produced, never more than `MAX_OUTPUT_TOKENS`.
    pub fn output_ids(&self) -> (r: &Vec<u32>)
        ensures
            r@ == self.outputs(),
            r@.len() <= MAX_OUTPUT_TOKENS,
    {
        proof {
            use_type_invariant(self);
        }
        &self.output_ids
    }
}

/// The name of one of a layer's cache tensors: `<prefix>.<layer>.<part>`.
pub open spec fn cache_tensor_name(prefix: Seq<char>, layer: usize, part: Seq<char>) -> Seq<char> {
    prefix + "."@ + decimal(layer as nat) + "."@ + part
}

/// The four cache parts of a decoder layer, in the order they are fed.
pub open spec fn cache_parts() -> Seq<Seq<char>> {
    seq!["decoder.key"@, "decoder.value"@, "encoder.key"@, "encoder.value"@]
}

fn cache_tensor_names(prefix: &str, layer: usize) -> (r: Vec<String>)
    ensures
        r@.len() == 4,
        forall|i: int| 0 <= i < 4 ==> #[trigger] r@[i]@ == cache_tensor_name(prefix@, layer, cache_parts()[i]),
{
    let mut stem = concat2(prefix, ".");
    stem.append(decimal_string(layer as u64).as_str());
    stem.append(".");
    let mut r: Vec<String> = Vec::new();
    r.push(concat2(stem.as_str(), "decoder.key"));
    r.push(concat2(stem.as_str(), "decoder.value"));
    r.push(concat2(stem.as_str(), "encoder.key"));
    r.push(concat2(stem.as_str(), "encoder.value"));
    r
}

/// The names of a decoder layer's cache inputs:
/// `past_key_values.<layer>.{decoder,encoder}.{key,value}`.
pub fn past_key_value_names(layer: usize) -> (r: Vec<String>)
    ensures
        r@.len() == 4,
        forall|i: int| 0 <= i < 4 ==> #[trigger] r@[i]@ == cache_tensor_name("past_key_values"@, layer, cache_parts()[i]),
{
    cache_tensor_names("past_key_values", layer)
}

/// The names of a decoder layer's cache outputs:
/// `present.<layer>.{decoder,encoder}.{key,value}`.
pub fn present_names(layer: usize) -> (r: Vec<String>)
    ensures
        r@.len() == 4,
        forall|i: int| 0 <= i < 4 ==> #[trigger] r@[i]@ == cache_tensor_name("present"@, layer, cache_parts()[i]),
{
    cache_tensor_names("present", layer)
}

/// The token ids as the signed integers the encoder takes.
pub fn widen_token_ids(ids: &Vec<u32>) -> (r: Vec<i64>)
    ensures
        r@.len() == ids@.len(),
        forall|i: int| 0 <= i < ids@.len() ==> #[trigger] r@[i] == ids@[i] as i64,
{
    let mut r: Vec<i64> = Vec::new();
    let mut i: usize = 0;
    while i < ids.len()
        invariant
            i <= ids@.len(),
            r@.len() == i,
            forall|k: int| 0 <= k < i ==> #[trigger] r@[k] == ids@[k] as i64,
        decreases ids.len() - i,
    {
        r.push(ids[i] as i64);
        i = i + 1;
    }
    r
}

/// The translation of a source that encodes to no tokens: the empty text,
/// with no model run at all. A source with tokens has none here and is
/// decoded.
pub fn translation_without_model(source_ids: &Vec<i64>) -> (r: Option<String>)
    ensures
        source_ids@.len() == 0 ==> (r matches Some(t) && t@ == Seq::<char>::empty()),
        source_ids@.len() > 0 ==> r is None,
{
    if source_ids.len() == 0 {
        Some(String::new())
    } else {
        None
    }
}

/// The text side of a local translation model: its tokenizer and its
/// generation settings.
pub struct Translator {
    tokenizer: tokenizers::Tokenizer,
    config: GenerationConfig,
}

impl Translator {
    pub closed spec fn spec_config(&self) -> GenerationConfig {
        self.config
    }

    /// The tokenizer.
    pub closed spec fn spec_tokenizer(&self) -> tokenizers::Tokenizer {
        self.tokenizer
    }

    /// A translator from a loaded tokenizer and generation settings.
    pub fn new(tokenizer: tokenizers::Tokenizer, config: GenerationConfig) -> (r: Translator)
        ensures
            r.spec_config() == config,
            r.spec_tokenizer() == tokenizer,
    {
        Translator { tokenizer, config }
    }

    /// The tokenizer, for decoding the output ids. tokenizers' `decode`
    /// panics for some decoders on some tokens (a `Strip` decoder with a
    /// `stop` longer than a token), which nothing here can rule out, so the
    /// decode call is made where the translator is run.
    pub fn tokenizer(&self) -> (r: &tokenizers::Tokenizer)
        ensures
            *r == self.spec_tokenizer(),
    {
        &self.tokenizer
    }

    /// The generation settings.
    pub fn config(&self) -> (r: &GenerationConfig)
        ensures
            *r == self.spec_config(),
    {
        &self.config
    }

    /// The encoder's input ids for `text`, special tokens included: an
    /// encoding of this text under this tokenizer, its `u32` ids as signed
    /// integers.
    pub fn source_ids(&self, text: &str) -> (r: Result<Vec<i64>, String>)
        ensures
            r matches Ok(ids) ==> exists|raw: Seq<u32>|
                #[trigger] may_encode(self.spec_tokenizer(), text@, raw) && ids@ == raw.map_values(
                    |x: u32| x as i64,
                ),
            r matches Ok(ids) ==> forall|i: int|
                0 <= i < ids@.len() ==> 0 <= #[trigger] ids@[i] <= u32::MAX,
    {
        let ids = tokenizer_encode(&self.tokenizer, text)?;
        let wide = widen_token_ids(&ids);
        assert(wide@ =~= ids@.map_values(|x: u32| x as i64));
        assert(may_encode(self.spec_tokenizer(), text@, ids@));
        Ok(wide)
    }

    /// A greedy decoder for a source of `source_len` tokens.
    pub fn start_decoding(&self, source_len: usize) -> (r: GreedyDecoder)
        ensures
            r.steps() == 0,
            r.outputs() == Seq::<u32>::empty(),
            !r.saw_eos(),
            r.next_input() == self.spec_config().decoder_start_token_id,
            r.source_len() == source_len,
            r.eos() == self.spec_config().eos_token_id,
    {
        GreedyDecoder::new(&self.config, source_len)
    }
}

} // verus!
