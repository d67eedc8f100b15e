use std::str::FromStr;
use unicaptions::translation::{
    past_key_value_names, repair_tokenizer_json, translation_without_model, present_names, widen_token_ids, GenerationConfig,
    GreedyDecoder, MarianConfig, Translator, MAX_OUTPUT_TOKENS,
};

const MARIAN_CONFIG: &str = r#"{
    "d_model": 512,
    "decoder_attention_heads": 8,
    "decoder_layers": 6,
    "decoder_start_token_id": 65000,
    "pad_token_id": 65000,
    "eos_token_id": 0,
    "vocab_size": 65001
}"#;

fn word_level_tokenizer(normalizer: &str) -> String {
    format!(
        r#"{{"version":"1.0","truncation":null,"padding":null,"added_tokens":[],"normalizer":{normalizer},"pre_tokenizer":{{"type":"Whitespace"}},"post_processor":null,"decoder":null,"model":{{"type":"WordLevel","vocab":{{"hello":0,"world":1,"[UNK]":2}},"unk_token":"[UNK]"}}}}"#
    )
}

fn config(start: Option<i64>, pad: Option<i64>, eos: Option<i64>) -> MarianConfig {
    MarianConfig {
        decoder_start_token_id: start,
        pad_token_id: pad,
        eos_token_id: eos,
        decoder_layers: Some(6),
        decoder_attention_heads: Some(8),
        d_model: Some(512),
    }
}

#[test]
fn generation_config_from_marian_json() {
    let g = GenerationConfig::from_config_json(MARIAN_CONFIG).ok().unwrap();
    assert_eq!(g.decoder_start_token_id, 65000);
    assert_eq!(g.eos_token_id, 0);
    assert_eq!(g.num_decoder_layers, 6);
    assert_eq!(g.num_heads, 8);
    assert_eq!(g.head_dim, 64);
}

#[test]
fn generation_config_start_token_fallbacks() {
    let g = GenerationConfig::from_marian(&config(None, Some(58100), Some(3))).ok().unwrap();
    assert_eq!(g.decoder_start_token_id, 58100);
    assert_eq!(g.eos_token_id, 3);
    let g = GenerationConfig::from_marian(&config(None, None, None)).ok().unwrap();
    assert_eq!(g.decoder_start_token_id, 0);
    assert_eq!(g.eos_token_id, 0);
    let g = GenerationConfig::from_marian(&config(Some(5), Some(6), None)).ok().unwrap();
    assert_eq!(g.decoder_start_token_id, 5);
}

#[test]
fn generation_config_missing_fields() {
    let mut c = config(None, None, None);
    c.decoder_layers = None;
    assert_eq!(
        GenerationConfig::from_marian(&c).err().unwrap(),
        "config.json missing decoder_layers"
    );
    let mut c = config(None, None, None);
    c.decoder_attention_heads = None;
    assert_eq!(
        GenerationConfig::from_marian(&c).err().unwrap(),
        "config.json missing decoder_attention_heads"
    );
    let mut c = config(None, None, None);
    c.d_model = None;
    assert_eq!(GenerationConfig::from_marian(&c).err().unwrap(), "config.json missing d_model");
}

#[test]
fn generation_config_invalid_dims() {
    let mut c = config(None, None, None);
    c.decoder_attention_heads = Some(0);
    assert_eq!(
        GenerationConfig::from_marian(&c).err().unwrap(),
        "invalid decoder dims: d_model=512, num_heads=0"
    );
    let mut c = config(None, None, None);
    c.decoder_attention_heads = Some(7);
    assert_eq!(
        GenerationConfig::from_marian(&c).err().unwrap(),
        "invalid decoder dims: d_model=512, num_heads=7"
    );
}

#[test]
fn generation_config_rejects_non_json_and_non_integers() {
    assert!(GenerationConfig::from_config_json("not json").is_err());
    let text = r#"{"d_model": "512", "decoder_attention_heads": 8, "decoder_layers": 6}"#;
    assert_eq!(
        GenerationConfig::from_config_json(text).err().unwrap(),
        "config.json missing d_model"
    );
    let text = r#"{"d_model": 512.0, "decoder_attention_heads": 8, "decoder_layers": 6}"#;
    assert_eq!(
        GenerationConfig::from_config_json(text).err().unwrap(),
        "config.json missing d_model"
    );
    let text = r#"{"d_model": 512, "decoder_attention_heads": -8, "decoder_layers": 6}"#;
    assert_eq!(
        GenerationConfig::from_config_json(text).err().unwrap(),
        "config.json missing decoder_attention_heads"
    );
}

#[test]
fn cache_shape_and_names() {
    let g = GenerationConfig::from_config_json(MARIAN_CONFIG).ok().unwrap();
    assert_eq!(g.cache_shape(3), vec![1, 8, 3, 64]);
    assert_eq!(
        past_key_value_names(11),
        vec![
            "past_key_values.11.decoder.key".to_string(),
            "past_key_values.11.decoder.value".to_string(),
            "past_key_values.11.encoder.key".to_string(),
            "past_key_values.11.encoder.value".to_string(),
        ]
    );
    assert_eq!(present_names(0)[3], "present.0.encoder.value");
}

#[test]
fn greedy_decoding_stops_at_eos() {
    let g = GenerationConfig::from_marian(&config(Some(65000), None, Some(0))).ok().unwrap();
    let mut d = GreedyDecoder::new(&g, 5);
    assert!(!d.is_done());
    let s = d.current_step();
    assert_eq!(s.input_token, 65000);
    assert!(!s.use_cache_branch);
    assert_eq!(s.decoder_past_len, 0);
    assert_eq!(s.encoder_past_len, 0);
    d.observe(17);
    let s = d.current_step();
    assert_eq!(s.input_token, 17);
    assert!(s.use_cache_branch);
    assert_eq!(s.decoder_past_len, 1);
    assert_eq!(s.encoder_past_len, 5);
    d.observe(23);
    assert_eq!(d.current_step().decoder_past_len, 2);
    d.observe(0);
    assert!(d.is_done());
    assert_eq!(d.output_ids(), &vec![17, 23]);
}

#[test]
fn greedy_decoding_caps_output_length() {
    let g = GenerationConfig::from_marian(&config(Some(1), None, Some(0))).ok().unwrap();
    let mut d = GreedyDecoder::new(&g, 2);
    let mut steps = 0;
    while !d.is_done() {
        d.observe(9);
        steps += 1;
    }
    assert_eq!(steps, MAX_OUTPUT_TOKENS);
    assert_eq!(d.output_ids().len(), 128);
}

#[test]
fn token_ids_widened() {
    assert_eq!(widen_token_ids(&vec![0, 7, u32::MAX]), vec![0, 7, u32::MAX as i64]);
}

fn load(raw: &str) -> tokenizers::Tokenizer {
    tokenizers::Tokenizer::from_str(&repair_tokenizer_json(raw).ok().unwrap()).unwrap()
}

#[test]
fn tokenizer_round_trip() {
    let tokenizer = load(&word_level_tokenizer("null"));
    let g = GenerationConfig::from_config_json(MARIAN_CONFIG).ok().unwrap();
    let t = Translator::new(tokenizer, g);
    assert_eq!(t.source_ids("hello world").ok().unwrap(), vec![0, 1]);
    assert_eq!(t.source_ids("hello there").ok().unwrap(), vec![0, 2]);
    assert_eq!(t.tokenizer().decode(&[1, 0], true).unwrap(), "world hello");
    assert_eq!(t.config().head_dim, 64);
    let d = t.start_decoding(2);
    assert_eq!(d.current_step().input_token, 65000);
}

#[test]
fn null_precompiled_normalizer_is_dropped() {
    let raw = word_level_tokenizer(r#"{"type":"Precompiled","precompiled_charsmap":null}"#);
    let repaired = repair_tokenizer_json(&raw).ok().unwrap();
    let json: serde_json::Value = serde_json::from_str(&repaired).unwrap();
    assert!(json["normalizer"].is_null());
    assert_eq!(json["model"]["type"], "WordLevel");
    let tokenizer = load(&raw);
    assert_eq!(tokenizer.encode("world", true).unwrap().get_ids(), &[1]);
}

#[test]
fn other_normalizers_are_kept() {
    let raw = word_level_tokenizer(r#"{"type":"Lowercase"}"#);
    let repaired = repair_tokenizer_json(&raw).ok().unwrap();
    let json: serde_json::Value = serde_json::from_str(&repaired).unwrap();
    assert_eq!(json["normalizer"]["type"], "Lowercase");
    let tokenizer = load(&raw);
    assert_eq!(tokenizer.encode("WORLD Hello", true).unwrap().get_ids(), &[1, 0]);
}

#[test]
fn repair_rejects_non_json() {
    assert!(repair_tokenizer_json("{").is_err());
    assert!(repair_tokenizer_json("{}").is_ok());
}

#[test]
fn repair_keeps_every_other_value() {
    let raw = r#"{"normalizer":{"type":"Lowercase"},"vocab":[["a",0.1],["b",-0.0],["c",1e300],["d",-7.25e-5]],"n":18446744073709551615,"m":-9223372036854775808,"s":"\u00e9\n\"","z":null}"#;
    let repaired = repair_tokenizer_json(raw).ok().unwrap();
    let before: serde_json::Value = serde_json::from_str(raw).unwrap();
    let after: serde_json::Value = serde_json::from_str(&repaired).unwrap();
    assert_eq!(before, after);
    let b = after["vocab"][1][1].as_f64().unwrap();
    assert!(b == 0.0 && b.is_sign_negative());
}

#[test]
fn repair_reports_parse_error() {
    let err = repair_tokenizer_json("{\"a\": }").err().unwrap();
    let expected = serde_json::from_str::<serde_json::Value>("{\"a\": }").unwrap_err().to_string();
    assert_eq!(err, expected);
}

#[test]
fn empty_source_needs_no_model() {
    assert_eq!(translation_without_model(&vec![]), Some(String::new()));
    assert_eq!(translation_without_model(&vec![5, 0]), None);
}
