//! The decisions of the captioning pipeline: which audio is transcribed
//! next, when the overlay shows a caption or is cleared, which caption is
//! translated next, and what each caption event carries.
//!
//! The application runs the loops, the recogniser, the translator and the
//! clock; every choice they make between those calls is taken here.
use vstd::prelude::*;

use crate::text::{is_white_space, lemma_trim_empty_iff_all_white_space, owned, str_trim, trim_spec};

verus! {

/// The sample rate audio is resampled to before recognition.
pub const TARGET_SAMPLE_RATE: u32 = 16_000;

/// Seconds of audio handed to the recogniser per call. Kept at 3 s for
/// transcription quality; latency is instead cut by sliding the window
/// forward in smaller steps.
pub const WINDOW_SECONDS: usize = 3;

/// How far, in milliseconds, the window advances between calls. Smaller than
/// the window, so windows overlap.
pub const STEP_MILLIS: usize = 1500;

/// Samples per recognition window.
pub fn window_size() -> (r: usize)
    ensures
        r == TARGET_SAMPLE_RATE * WINDOW_SECONDS,
        r == 48_000,
{
    TARGET_SAMPLE_RATE as usize * WINDOW_SECONDS
}

/// Samples the window advances by between calls.
pub fn step_size() -> (r: usize)
    ensures
        r == TARGET_SAMPLE_RATE * STEP_MILLIS / 1000,
        r == 24_000,
{
    TARGET_SAMPLE_RATE as usize * STEP_MILLIS / 1000
}

/// Samples shared by consecutive windows.
pub fn overlap_size() -> (r: usize)
    ensures
        r == window_size_spec() - step_size_spec(),
        r == 24_000,
{
    window_size() - step_size()
}

pub open spec fn window_size_spec() -> int {
    48_000
}

pub open spec fn step_size_spec() -> int {
    24_000
}

/// The most recent `w` samples of `s`.
pub open spec fn latest_window<T>(s: Seq<T>, w: int) -> Seq<T> {
    s.subrange(s.len() - w, s.len() as int)
}

/// Takes the most recent window of `window` samples out of the buffer, once
/// it holds that many, and keeps only its trailing `overlap` samples so the
/// next window slides forward. Backlog older than one window is dropped:
/// captions stay live rather than catch up through a growing queue.
pub fn take_latest_window<T: Copy>(buf: &mut Vec<T>, window: usize, overlap: usize) -> (r: Option<
    Vec<T>,
>)
    requires
        overlap <= window,
    ensures
        old(buf)@.len() < window ==> r is None && final(buf)@ == old(buf)@,
        old(buf)@.len() >= window ==> (r matches Some(chunk) && chunk@ == latest_window(
            old(buf)@,
            window as int,
        ) && final(buf)@ == latest_window(old(buf)@, overlap as int)),
{
    let len = buf.len();
    if len < window {
        return None;
    }
    let ghost s = buf@;
    let mut chunk: Vec<T> = Vec::new();
    let mut k: usize = len - window;
    while k < len
        invariant
            s == buf@,
            len == s.len(),
            window <= len,
            len - window <= k <= len,
            chunk@ == s.subrange(len - window, k as int),
        decreases len - k,
    {
        chunk.push(buf[k]);
        k = k + 1;
        assert(chunk@ =~= s.subrange(len - window, k as int));
    }
    let mut kept: Vec<T> = Vec::new();
    let mut k: usize = len - overlap;
    while k < len
        invariant
            s == buf@,
            len == s.len(),
            overlap <= len,
            len - overlap <= k <= len,
            kept@ == s.subrange(len - overlap, k as int),
        decreases len - k,
    {
        kept.push(buf[k]);
        k = k + 1;
        assert(kept@ =~= s.subrange(len - overlap, k as int));
    }
    *buf = kept;
    Some(chunk)
}

/// When exactly one step of new samples arrives after a window was taken,
/// the next window begins with the trailing `o` samples of the previous
/// one, followed by the new samples.
pub proof fn lemma_windows_overlap<T>(s: Seq<T>, added: Seq<T>, w: int, o: int)
    requires
        0 <= o <= w <= s.len(),
        added.len() == w - o,
    ensures
        latest_window(latest_window(s, o) + added, w) == latest_window(s, w).subrange(w - o, w)
            + added,
{
    assert(latest_window(latest_window(s, o) + added, w) =~= latest_window(s, w).subrange(w - o, w)
        + added);
}

/// What happened to the overlay's caption.
pub enum CaptionUpdate {
    /// Nothing to show or clear.
    Unchanged,
    /// The caption on screen is to be cleared.
    Cleared,
    /// This (trimmed, non-empty) caption is to be shown.
    Caption(String),
}

/// The model of a caption update.
pub enum CaptionUpdateView {
    Unchanged,
    Cleared,
    Caption(Seq<char>),
}

impl View for CaptionUpdate {
    type V = CaptionUpdateView;

    open spec fn view(&self) -> CaptionUpdateView {
        match self {
            CaptionUpdate::Unchanged => CaptionUpdateView::Unchanged,
            CaptionUpdate::Cleared => CaptionUpdateView::Cleared,
            CaptionUpdate::Caption(t) => CaptionUpdateView::Caption(t@),
        }
    }
}

/// The tracker's step: from whether a caption is on screen, and what the
/// latest window came to (`None` for silence, else the transcript), to
/// whether a caption is on screen afterwards and the update to make.
pub open spec fn caption_step(showing: bool, heard: Option<Seq<char>>) -> (bool, CaptionUpdateView) {
    let text = match heard {
        Some(raw) => trim_spec(raw),
        None => Seq::empty(),
    };
    if text.len() == 0 {
        (false, if showing { CaptionUpdateView::Cleared } else { CaptionUpdateView::Unchanged })
    } else {
        (true, CaptionUpdateView::Caption(text))
    }
}

/// Remembers whether the overlay shows a caption, so that when speech stops
/// the overlay is cleared once, instead of a caption staying stuck on
/// screen or an empty caption being sent again and again.
pub struct CaptionTracker {
    last_caption_was_empty: bool,
}

impl CaptionTracker {
    /// Whether a caption is on screen.
    pub closed spec fn showing(&self) -> bool {
        !self.last_caption_was_empty
    }

    /// A tracker for an overlay that shows nothing yet.
    pub fn new() -> (r: CaptionTracker)
        ensures
            !r.showing(),
    {
        CaptionTracker { last_caption_was_empty: true }
    }

    /// The latest window was silent.
    pub fn on_silence(&mut self) -> (r: CaptionUpdate)
        ensures
            (final(self).showing(), r@) == caption_step(old(self).showing(), None),
    {
        if !self.last_caption_was_empty {
            self.last_caption_was_empty = true;
            CaptionUpdate::Cleared
        } else {
            CaptionUpdate::Unchanged
        }
    }

    /// The latest window was transcribed as `raw`; its surrounding
    /// whitespace is trimmed, and an empty transcript counts as silence.
    pub fn on_transcript(&mut self, raw: &str) -> (r: CaptionUpdate)
        ensures
            (final(self).showing(), r@) == caption_step(old(self).showing(), Some(raw@)),
    {
        let text = str_trim(raw);
        if text.unicode_len() == 0 {
            self.on_silence()
        } else {
            self.last_caption_was_empty = false;
            CaptionUpdate::Caption(owned(text))
        }
    }
}

/// Once the overlay has been cleared, it is not cleared again before a
/// caption has been shown.
pub proof fn lemma_clear_is_not_repeated(
    showing: bool,
    first: Option<Seq<char>>,
    second: Option<Seq<char>>,
)
    requires
        caption_step(showing, first).1 is Cleared,
    ensures
        !(caption_step(caption_step(showing, first).0, second).1 is Cleared),
{
}

/// The tracker over a run of windows, each silent (`None`) or transcribed:
/// whether a caption is on screen at the end, and the update made for each
/// window.
pub open spec fn caption_run(showing: bool, heard: Seq<Option<Seq<char>>>) -> (
    bool,
    Seq<CaptionUpdateView>,
)
    decreases heard.len(),
{
    if heard.len() == 0 {
        (showing, Seq::empty())
    } else {
        let before = caption_run(showing, heard.drop_last());
        let step = caption_step(before.0, heard.last());
        (step.0, before.1.push(step.1))
    }
}

/// Whether, after a run of updates on an empty overlay, a caption is on
/// screen: the latest update that changed the overlay showed a caption.
pub open spec fn caption_on_screen(updates: Seq<CaptionUpdateView>) -> bool
    decreases updates.len(),
{
    if updates.len() == 0 {
        false
    } else {
        match updates.last() {
            CaptionUpdateView::Unchanged => caption_on_screen(updates.drop_last()),
            CaptionUpdateView::Cleared => false,
            CaptionUpdateView::Caption(_) => true,
        }
    }
}

proof fn lemma_run_tracks_screen(heard: Seq<Option<Seq<char>>>)
    ensures
        caption_run(false, heard).1.len() == heard.len(),
        caption_run(false, heard).0 == caption_on_screen(caption_run(false, heard).1),
    decreases heard.len(),
{
    if heard.len() > 0 {
        lemma_run_tracks_screen(heard.drop_last());
        let before = caption_run(false, heard.drop_last());
        assert(caption_run(false, heard).1.drop_last() =~= before.1);
    }
}

/// Over any run from an empty overlay, the overlay is cleared only while a
/// caption is on screen: the updates never begin with a clear, and never
/// clear twice without a caption in between.
pub proof fn lemma_clears_follow_captions(heard: Seq<Option<Seq<char>>>)
    ensures
        forall|i: int|
            0 <= i < heard.len() && (#[trigger] caption_run(false, heard).1[i]) is Cleared
                ==> caption_on_screen(caption_run(false, heard).1.take(i)),
    decreases heard.len(),
{
    lemma_run_tracks_screen(heard);
    if heard.len() > 0 {
        let prefix = heard.drop_last();
        lemma_clears_follow_captions(prefix);
        lemma_run_tracks_screen(prefix);
        let ups = caption_run(false, heard).1;
        let before = caption_run(false, prefix);
        assert(ups.drop_last() =~= before.1);
        assert forall|i: int|
            0 <= i < heard.len() && (#[trigger] caption_run(false, heard).1[i]) is Cleared implies caption_on_screen(
                caption_run(false, heard).1.take(i),
            ) by {
            if i < heard.len() - 1 {
                assert(ups[i] == before.1[i]);
                assert(ups.take(i) =~= before.1.take(i));
            } else {
                assert(ups.take(i) =~= before.1);
            }
        }
    }
}

/// A caption is shown exactly when the trimmed transcript is non-empty, and
/// it is the trimmed transcript; speech that trims to nothing right after a
/// caption clears it.
pub proof fn lemma_caption_shows_trimmed_text(showing: bool, raw: Seq<char>)
    ensures
        caption_step(showing, Some(raw)).1 is Caption <==> trim_spec(raw).len() > 0,
        caption_step(showing, Some(raw)).1 is Caption ==> caption_step(showing, Some(raw)).1
            == CaptionUpdateView::Caption(trim_spec(raw)),
        showing && trim_spec(raw).len() == 0 ==> caption_step(showing, Some(raw)).1 is Cleared,
{
}

/// A transcript made only of whitespace (or empty) counts as silence, and
/// any other transcript does not.
pub proof fn lemma_blank_transcript_is_silence(showing: bool, raw: Seq<char>)
    ensures
        (forall|i: int| 0 <= i < raw.len() ==> is_white_space(raw[i])) <==> caption_step(
            showing,
            Some(raw),
        ) == caption_step(showing, None),
{
    lemma_trim_empty_iff_all_white_space(raw);
}

/// A caption waiting to be translated, with the time it was shown.
pub struct PendingTranslation {
    pub text: String,
    pub timestamp: u128,
}

impl View for PendingTranslation {
    type V = (Seq<char>, u128);

    open spec fn view(&self) -> (Seq<char>, u128) {
        (self.text@, self.timestamp)
    }
}

/// The slot's model: the waiting caption and its time, if any.
pub open spec fn pending_view(p: Option<PendingTranslation>) -> Option<(Seq<char>, u128)> {
    match p {
        Some(job) => Some((job.text@, job.timestamp)),
        None => None,
    }
}

/// The slot after a caption is handed to it: the caption replaces
/// whatever waited before.
pub open spec fn slot_after_set(
    before: Option<(Seq<char>, u128)>,
    text: Seq<char>,
    timestamp: u128,
) -> Option<(Seq<char>, u128)> {
    Some((text, timestamp))
}

/// Hands the latest untranslated caption to the translation worker. Only the
/// most recent caption is kept: when translation falls behind, the freshest
/// text is translated next, not a growing backlog of stale ones.
pub struct TranslateSlot {
    pending: Option<PendingTranslation>,
}

impl View for TranslateSlot {
    type V = Option<(Seq<char>, u128)>;

    closed spec fn view(&self) -> Option<(Seq<char>, u128)> {
        pending_view(self.pending)
    }
}

impl TranslateSlot {
    /// An empty slot.
    pub fn new() -> (r: TranslateSlot)
        ensures
            r@ is None,
    {
        TranslateSlot { pending: None }
    }

    /// Replaces whatever waits with this caption.
    pub fn set(&mut self, text: String, timestamp: u128)
        ensures
            final(self)@ == slot_after_set(old(self)@, text@, timestamp),
    {
        self.pending = Some(PendingTranslation { text, timestamp });
    }

    /// Drops whatever waits: the overlay was cleared.
    pub fn clear(&mut self)
        ensures
            final(self)@ is None,
    {
        self.pending = None;
    }

    /// Takes the waiting caption, leaving the slot empty.
    pub fn take(&mut self) -> (r: Option<PendingTranslation>)
        ensures
            pending_view(r) == old(self)@,
            final(self)@ is None,
    {
        let mut taken: Option<PendingTranslation> = None;
        std::mem::swap(&mut taken, &mut self.pending);
        taken
    }

    /// Whether a caption waits.
    pub fn has_pending(&self) -> (r: bool)
        ensures
            r == self@ is Some,
    {
        self.pending.is_some()
    }
}

/// Of two captions handed to the slot, the later one is what the worker
/// takes, whatever waited before.
pub proof fn lemma_latest_caption_wins(
    before: Option<(Seq<char>, u128)>,
    first: Seq<char>,
    first_time: u128,
    second: Seq<char>,
    second_time: u128,
)
    ensures
        slot_after_set(slot_after_set(before, first, first_time), second, second_time) == Some(
            (second, second_time),
        ),
{
}

/// A caption update for the overlay.
pub struct CaptionEvent {
    pub text: String,
    pub translated_text: Option<String>,
    pub is_final: bool,
    pub timestamp: u128,
}

/// The model of a caption event: text, translation, finality, time.
pub open spec fn event_view(
    text: Seq<char>,
    translated: Option<Seq<char>>,
    is_final: bool,
    timestamp: u128,
) -> (Seq<char>, Option<Seq<char>>, bool, u128) {
    (text, translated, is_final, timestamp)
}

impl View for CaptionEvent {
    type V = (Seq<char>, Option<Seq<char>>, bool, u128);

    open spec fn view(&self) -> (Seq<char>, Option<Seq<char>>, bool, u128) {
        event_view(
            self.text@,
            match self.translated_text {
                Some(t) => Some(t@),
                None => None,
            },
            self.is_final,
            self.timestamp,
        )
    }
}

/// The event that clears the overlay.
pub fn cleared_caption(timestamp: u128) -> (r: CaptionEvent)
    ensures
        r@ == event_view(Seq::empty(), None, true, timestamp),
{
    CaptionEvent { text: String::new(), translated_text: None, is_final: true, timestamp }
}

/// A new caption, shown at `timestamp`: the event that shows it in its
/// spoken language at once, and the job that hands it to the translation
/// worker under the same time.
pub fn caption_handoff(text: String, timestamp: u128) -> (r: (CaptionEvent, PendingTranslation))
    ensures
        r.0@ == event_view(text@, None, true, timestamp),
        r.1@ == (text@, timestamp),
{
    let event = CaptionEvent {
        text: text.clone(),
        translated_text: None,
        is_final: true,
        timestamp,
    };
    (event, PendingTranslation { text, timestamp })
}

/// The follow-up event that adds a caption's translation, under the time the
/// caption was first shown.
pub fn translated_caption(job: PendingTranslation, translated: String) -> (r: CaptionEvent)
    ensures
        r@ == event_view(job@.0, Some(translated@), true, job@.1),
{
    CaptionEvent {
        text: job.text,
        translated_text: Some(translated),
        is_final: true,
        timestamp: job.timestamp,
    }
}

/// The translation of a caption that waited in the slot arrives as an event
/// with the caption's own text and time, so the overlay can match it to the
/// caption it translates.
pub proof fn lemma_translation_matches_caption(
    before: Option<(Seq<char>, u128)>,
    text: Seq<char>,
    timestamp: u128,
    translated: Seq<char>,
)
    ensures
        ({
            let job = slot_after_set(before, text, timestamp)->0;
            let shown = event_view(text, None, true, timestamp);
            let follow_up = event_view(job.0, Some(translated), true, job.1);
            follow_up.0 == shown.0 && follow_up.3 == shown.3
        }),
{
}

#[verifier::external_type_specification]
#[verifier::external_body]
pub struct ExPathBuf(std::path::PathBuf);

/// Where speech is recognised: with a local model file, or in the cloud
/// with an API key.
pub enum AsrConfig {
    Local(std::path::PathBuf),
    Cloud(String),
}

impl AsrConfig {
    /// The local model file and the cloud key, whichever this is.
    pub fn into_parts(self) -> (r: (Option<std::path::PathBuf>, Option<String>))
        ensures
            match self {
                AsrConfig::Local(path) => r == (Some(path), None::<String>),
                AsrConfig::Cloud(key) => r == (None::<std::path::PathBuf>, Some(key)),
            },
    {
        match self {
            AsrConfig::Local(path) => (Some(path), None),
            AsrConfig::Cloud(key) => (None, Some(key)),
        }
    }
}

/// How captions are translated, `L` being the local translator.
pub enum TranslateConfig<L> {
    Local(L),
    Cloud { api_key: String, target_lang: String },
    Disabled,
}

/// Whether a translation worker is needed at all; when it is not, captions
/// are not handed off.
pub fn translation_enabled<L>(config: &TranslateConfig<L>) -> (r: bool)
    ensures
        r == !(config is Disabled),
{
    match config {
        TranslateConfig::Disabled => false,
        _ => true,
    }
}

/// Cap on recogniser threads: beyond this, per-thread scheduling overhead
/// outweighs the gains on windows of a few seconds.
pub const MAX_WHISPER_THREADS: i32 = 8;

/// The recogniser's thread count: the machine's parallelism where known,
/// else 4, and at most `MAX_WHISPER_THREADS`.
pub fn whisper_thread_count(available: Option<usize>) -> (r: i32)
    ensures
        r == match available {
            Some(n) => if (n as i32) < MAX_WHISPER_THREADS { n as i32 } else { MAX_WHISPER_THREADS },
            None => 4,
        },
{
    let n: i32 = match available {
        Some(n) => n as i32,
        None => 4,
    };
    if n < MAX_WHISPER_THREADS {
        n
    } else {
        MAX_WHISPER_THREADS
    }
}

/// The text of the segments that could be read, in order.
pub open spec fn joined_segments(parts: Seq<Option<String>>) -> Seq<char>
    decreases parts.len(),
{
    if parts.len() == 0 {
        Seq::empty()
    } else {
        joined_segments(parts.drop_last()) + match parts.last() {
            Some(s) => s@,
            None => Seq::empty(),
        }
    }
}

/// A transcript from its segments: the segments that could be read,
/// concatenated in order.
pub fn join_segments(parts: &Vec<Option<String>>) -> (r: String)
    ensures
        r@ == joined_segments(parts@),
{
    let mut text = String::new();
    let mut i: usize = 0;
    while i < parts.len()
        invariant
            i <= parts@.len(),
            text@ == joined_segments(parts@.take(i as int)),
        decreases parts.len() - i,
    {
        proof {
            assert(parts@.take(i + 1).drop_last() =~= parts@.take(i as int));
        }
        match &parts[i] {
            Some(s) => text.append(s.as_str()),
            None => {},
        }
        i = i + 1;
    }
    assert(parts@.take(i as int) =~= parts@);
    text
}

} // verus!
