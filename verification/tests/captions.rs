use unicaptions::captions::{
    caption_handoff, cleared_caption, join_segments, overlap_size, step_size, take_latest_window,
    translated_caption, translation_enabled, whisper_thread_count, window_size, AsrConfig,
    CaptionTracker, CaptionUpdate, TranslateConfig, TranslateSlot, MAX_WHISPER_THREADS,
};
use unicaptions::clock::{millis_from_parts, now_ms};

#[test]
fn window_geometry() {
    assert_eq!(window_size(), 48_000);
    assert_eq!(step_size(), 24_000);
    assert_eq!(overlap_size(), 24_000);
    assert_eq!(window_size(), step_size() + overlap_size());
}

#[test]
fn window_waits_until_full() {
    let mut buf: Vec<u32> = (0..9).collect();
    assert!(take_latest_window(&mut buf, 10, 4).is_none());
    assert_eq!(buf, (0..9).collect::<Vec<u32>>());
}

#[test]
fn window_takes_most_recent_samples_and_keeps_overlap() {
    let mut buf: Vec<u32> = (0..25).collect();
    let chunk = take_latest_window(&mut buf, 10, 4).unwrap();
    assert_eq!(chunk, (15..25).collect::<Vec<u32>>());
    assert_eq!(buf, vec![21, 22, 23, 24]);
}

#[test]
fn consecutive_windows_overlap() {
    let mut buf: Vec<u32> = (0..10).collect();
    let first = take_latest_window(&mut buf, 10, 4).unwrap();
    buf.extend(100..106);
    let second = take_latest_window(&mut buf, 10, 4).unwrap();
    assert_eq!(&second[..4], &first[6..]);
    assert_eq!(&second[4..], &[100, 101, 102, 103, 104, 105]);
}

#[test]
fn silence_clears_a_shown_caption_once() {
    let mut tracker = CaptionTracker::new();
    assert!(matches!(tracker.on_silence(), CaptionUpdate::Unchanged));
    match tracker.on_transcript("  Hello there \n") {
        CaptionUpdate::Caption(t) => assert_eq!(t, "Hello there"),
        _ => panic!("expected a caption"),
    }
    assert!(matches!(tracker.on_silence(), CaptionUpdate::Cleared));
    assert!(matches!(tracker.on_silence(), CaptionUpdate::Unchanged));
}

#[test]
fn blank_transcript_counts_as_silence() {
    let mut tracker = CaptionTracker::new();
    assert!(matches!(tracker.on_transcript("   "), CaptionUpdate::Unchanged));
    assert!(matches!(tracker.on_transcript("word"), CaptionUpdate::Caption(_)));
    assert!(matches!(tracker.on_transcript("\t \u{3000}"), CaptionUpdate::Cleared));
    assert!(matches!(tracker.on_transcript(""), CaptionUpdate::Unchanged));
}

#[test]
fn slot_keeps_only_latest_caption() {
    let mut slot = TranslateSlot::new();
    assert!(!slot.has_pending());
    slot.set("first".to_string(), 1);
    slot.set("second".to_string(), 2);
    let job = slot.take().unwrap();
    assert_eq!(job.text, "second");
    assert_eq!(job.timestamp, 2);
    assert!(slot.take().is_none());
}

#[test]
fn slot_clear_drops_pending() {
    let mut slot = TranslateSlot::new();
    slot.set("stale".to_string(), 7);
    slot.clear();
    assert!(slot.take().is_none());
}

#[test]
fn translation_follows_caption() {
    let (event, job) = caption_handoff("Hola".to_string(), 42);
    assert_eq!(event.text, "Hola");
    assert!(event.translated_text.is_none());
    assert!(event.is_final);
    assert_eq!(event.timestamp, 42);
    let mut slot = TranslateSlot::new();
    slot.set(job.text, job.timestamp);
    let follow_up = translated_caption(slot.take().unwrap(), "Hello".to_string());
    assert_eq!(follow_up.text, "Hola");
    assert_eq!(follow_up.translated_text.as_deref(), Some("Hello"));
    assert!(follow_up.is_final);
    assert_eq!(follow_up.timestamp, 42);
}

#[test]
fn cleared_caption_event() {
    let e = cleared_caption(9);
    assert_eq!(e.text, "");
    assert!(e.translated_text.is_none());
    assert!(e.is_final);
    assert_eq!(e.timestamp, 9);
}

#[test]
fn translation_worker_only_when_enabled() {
    assert!(!translation_enabled(&TranslateConfig::<()>::Disabled));
    assert!(translation_enabled(&TranslateConfig::<()>::Local(())));
    assert!(translation_enabled(&TranslateConfig::<()>::Cloud {
        api_key: "k".to_string(),
        target_lang: "de".to_string(),
    }));
}

#[test]
fn asr_config_parts() {
    let (path, key) = AsrConfig::Cloud("sk".to_string()).into_parts();
    assert!(path.is_none());
    assert_eq!(key.as_deref(), Some("sk"));
    let (path, key) = AsrConfig::Local(std::path::PathBuf::from("/m/ggml-tiny.bin")).into_parts();
    assert_eq!(path, Some(std::path::PathBuf::from("/m/ggml-tiny.bin")));
    assert!(key.is_none());
}

#[test]
fn whisper_threads_capped() {
    assert_eq!(MAX_WHISPER_THREADS, 8);
    assert_eq!(whisper_thread_count(None), 4);
    assert_eq!(whisper_thread_count(Some(2)), 2);
    assert_eq!(whisper_thread_count(Some(8)), 8);
    assert_eq!(whisper_thread_count(Some(64)), 8);
}

#[test]
fn segments_joined_in_order() {
    let parts = vec![Some(" Hello".to_string()), None, Some(" world".to_string())];
    assert_eq!(join_segments(&parts), " Hello world");
    assert_eq!(join_segments(&vec![]), "");
}

#[test]
fn clock_reads_after_2020() {
    assert!(now_ms() > 1_577_836_800_000);
}

#[test]
fn millis_match_duration() {
    let d = std::time::Duration::new(1_700_000_000, 999_999_999);
    assert_eq!(millis_from_parts(d.as_secs(), d.subsec_nanos()), d.as_millis());
    assert_eq!(millis_from_parts(0, 999_999), 0);
    assert_eq!(millis_from_parts(u64::MAX, 1_000_000), u64::MAX as u128 * 1000 + 1);
}
