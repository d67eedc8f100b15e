use unicaptions::catalog::{
    model_entries, parse_model_id, plan_translation, provider_secret_key, translate_model_entry,
    uses_cloud_asr, whisper_model_entry, ModelKind, TranslationPlan, DEEPL_TRANSLATE_KEY,
    OPENAI_ASR_KEY,
};
use unicaptions::translate_models::{
    is_supported, model_download_plan, repo_for_target, supported_targets, translate_model_info,
    TranslateModelInfo,
};
use unicaptions::whisper_models::{
    model_filename, model_url, validate_size, whisper_model_info, whisper_sizes, WhisperModelInfo,
};

#[test]
fn whisper_sizes_in_catalogue_order() {
    assert_eq!(whisper_sizes(), vec!["tiny", "base", "small", "medium"]);
}

#[test]
fn validate_size_accepts_catalogue_sizes() {
    for size in ["tiny", "base", "small", "medium"] {
        assert_eq!(validate_size(size), Ok(size));
    }
}

#[test]
fn validate_size_rejects_unknown_size() {
    assert_eq!(
        validate_size("large"),
        Err("unknown whisper model size 'large'".to_string())
    );
    assert_eq!(validate_size(""), Err("unknown whisper model size ''".to_string()));
    assert_eq!(
        validate_size("Tiny"),
        Err("unknown whisper model size 'Tiny'".to_string())
    );
}

#[test]
fn whisper_file_name_and_url() {
    assert_eq!(model_filename("base"), "ggml-base.bin");
    assert_eq!(
        model_url("small"),
        "https://huggingface.co/ggerganov/whisper.cpp/resolve/main/ggml-small.bin"
    );
    assert!(model_url("medium").ends_with(&model_filename("medium")));
}

#[test]
fn whisper_model_location_components() {
    assert_eq!(
        unicaptions::whisper_models::model_location("tiny"),
        vec!["models".to_string(), "whisper".to_string(), "ggml-tiny.bin".to_string()]
    );
}

#[test]
fn whisper_model_info_from_metadata() {
    let present = whisper_model_info("tiny", Some(77_691_713));
    assert_eq!(present.size, "tiny");
    assert!(present.downloaded);
    assert_eq!(present.bytes_on_disk, 77_691_713);
    let missing = whisper_model_info("base", None);
    assert!(!missing.downloaded);
    assert_eq!(missing.bytes_on_disk, 0);
}

#[test]
fn repo_for_each_target() {
    assert_eq!(repo_for_target("es"), Some("Xenova/opus-mt-en-es"));
    assert_eq!(repo_for_target("fr"), Some("Xenova/opus-mt-en-fr"));
    assert_eq!(repo_for_target("de"), Some("Xenova/opus-mt-en-de"));
    assert_eq!(repo_for_target("zh"), Some("Xenova/opus-mt-en-zh"));
    assert_eq!(repo_for_target("ja"), None);
    assert_eq!(repo_for_target("ES"), None);
}

#[test]
fn supported_targets_agree_with_is_supported() {
    assert_eq!(supported_targets(), &["es", "fr", "de", "zh"]);
    for lang in supported_targets() {
        assert!(is_supported(lang));
    }
    assert!(!is_supported("en"));
    assert!(!is_supported(""));
}

#[test]
fn translate_model_info_sums_file_sizes() {
    let info = translate_model_info("de", &vec![10, 20, 30]);
    assert_eq!(info.lang, "de");
    assert!(info.downloaded);
    assert_eq!(info.bytes_on_disk, 60);
    let empty = translate_model_info("fr", &vec![]);
    assert!(!empty.downloaded);
    assert_eq!(empty.bytes_on_disk, 0);
}

#[test]
fn translate_model_location_components() {
    assert_eq!(
        unicaptions::translate_models::model_location("zh"),
        vec!["models".to_string(), "translate".to_string(), "zh".to_string()]
    );
}

#[test]
fn download_plan_lists_four_stages() {
    let plan = model_download_plan("es").ok().unwrap();
    assert_eq!(plan.len(), 4);
    let base = "https://huggingface.co/Xenova/opus-mt-en-es/resolve/main";
    let expected = [
        ("/onnx/encoder_model_int8.onnx", "encoder_model_int8.onnx"),
        ("/onnx/decoder_model_merged_int8.onnx", "decoder_model_merged_int8.onnx"),
        ("/tokenizer.json", "tokenizer.json"),
        ("/config.json", "config.json"),
    ];
    for (i, stage) in plan.iter().enumerate() {
        assert_eq!(stage.url, format!("{base}{}", expected[i].0));
        assert_eq!(stage.file_name, expected[i].1);
        assert_eq!(stage.stage_index, i);
        assert_eq!(stage.stage_count, 4);
    }
}

#[test]
fn download_plan_rejects_unsupported_language() {
    match model_download_plan("ja") {
        Err(e) => assert_eq!(e, "no local translation model available for 'ja'"),
        Ok(_) => panic!("expected an error"),
    }
}

#[test]
fn model_entries_ids_and_labels() {
    let whisper = vec![
        WhisperModelInfo { size: "tiny".to_string(), downloaded: true, bytes_on_disk: 5 },
        WhisperModelInfo { size: "base".to_string(), downloaded: false, bytes_on_disk: 0 },
    ];
    let translate =
        vec![TranslateModelInfo { lang: "fr".to_string(), downloaded: true, bytes_on_disk: 9 }];
    let entries = model_entries(&whisper, &translate);
    assert_eq!(entries.len(), 3);
    assert_eq!(entries[0].id, "whisper:tiny");
    assert_eq!(entries[0].label, "Speech recognition (tiny)");
    assert!(entries[0].downloaded);
    assert_eq!(entries[0].bytes_on_disk, 5);
    assert_eq!(entries[1].id, "whisper:base");
    assert!(!entries[1].downloaded);
    assert_eq!(entries[2].id, "translate:fr");
    assert_eq!(entries[2].label, "Translation (English -> fr)");
    assert_eq!(entries[2].bytes_on_disk, 9);
}

#[test]
fn model_id_round_trip() {
    let w = whisper_model_entry(&WhisperModelInfo {
        size: "small".to_string(),
        downloaded: false,
        bytes_on_disk: 0,
    });
    let parsed = parse_model_id(&w.id).ok().unwrap();
    assert!(parsed.kind == ModelKind::Whisper);
    assert_eq!(parsed.name, "small");
    let t = translate_model_entry(&TranslateModelInfo {
        lang: "de".to_string(),
        downloaded: true,
        bytes_on_disk: 1,
    });
    let parsed = parse_model_id(&t.id).ok().unwrap();
    assert!(parsed.kind == ModelKind::Translate);
    assert_eq!(parsed.name, "de");
}

#[test]
fn model_id_splits_at_first_colon() {
    let parsed = parse_model_id("translate:a:b").ok().unwrap();
    assert!(parsed.kind == ModelKind::Translate);
    assert_eq!(parsed.name, "a:b");
    let parsed = parse_model_id("whisper:").ok().unwrap();
    assert!(parsed.kind == ModelKind::Whisper);
    assert_eq!(parsed.name, "");
}

#[test]
fn model_id_errors() {
    match parse_model_id("whisper") {
        Err(e) => assert_eq!(e, "invalid model id 'whisper'"),
        Ok(_) => panic!("expected an error"),
    }
    match parse_model_id("llama:7b") {
        Err(e) => assert_eq!(e, "unknown model kind 'llama'"),
        Ok(_) => panic!("expected an error"),
    }
}

#[test]
fn provider_keys() {
    assert_eq!(provider_secret_key("openai_asr"), Ok(OPENAI_ASR_KEY));
    assert_eq!(provider_secret_key("deepl_translate"), Ok(DEEPL_TRANSLATE_KEY));
    assert_eq!(OPENAI_ASR_KEY, "openai_asr");
    assert_eq!(DEEPL_TRANSLATE_KEY, "deepl_translate");
    assert_eq!(
        provider_secret_key("google"),
        Err("unknown provider 'google'".to_string())
    );
}

#[test]
fn asr_provider_choice() {
    assert!(uses_cloud_asr("cloud"));
    assert!(!uses_cloud_asr("local"));
    assert!(!uses_cloud_asr("Cloud"));
}

#[test]
fn translation_plan_precedence() {
    match plan_translation(Some("ja".to_string()), "cloud") {
        TranslationPlan::Cloud { target_lang } => assert_eq!(target_lang, "ja"),
        _ => panic!("expected cloud"),
    }
    match plan_translation(Some("de".to_string()), "local") {
        TranslationPlan::Local { target_lang } => assert_eq!(target_lang, "de"),
        _ => panic!("expected local"),
    }
    assert!(matches!(
        plan_translation(Some("ja".to_string()), "local"),
        TranslationPlan::Disabled
    ));
    assert!(matches!(plan_translation(None, "cloud"), TranslationPlan::Disabled));
}
