# unicaptions

Live captions for whatever is being said into the microphone or played on
the computer, with optional translation, shown in an always-on-top overlay.

`src/` is the verified library (Verus): every decision of the captioning
pipeline and of the settings window, with contracts.

- `captions` — the sliding recognition window, when the overlay shows or
  clears a caption, the latest-only translation hand-off, caption events.
- `translation` — model configuration, tokenizer repair, greedy KV-cached
  decoding state, cache tensor names and shapes.
- `audio` — capture source choice, loopback batching, 16-bit PCM WAV files.
- `whisper_models`, `translate_models`, `catalog` — model catalogues,
  download plans, model identifiers, provider key names, translation plans.
- `cloud` — DeepL and OpenAI request fields and reply handling.
- `shell` — tray menu, window close, saved overlay placement.
- `text`, `json`, `clock` — string helpers, JSON access, the wall clock.

`app/` is the Tauri application around it: threads, audio devices, the
recogniser and ONNX runs (floating point), HTTP, files and events.
`tests/` exercise the library on concrete values.
