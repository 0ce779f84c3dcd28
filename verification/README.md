# scribe

The decision logic of a local meeting recorder, verified with Verus.

The recorder listens to the microphone and to the system audio, starts a
recording when both have been active for a while, cuts the audio into
segments for a speech-recognition service, keeps a running transcript, stops
after a sustained quiet, asks a language model for a summary and stores the
result in an SQLite table.

Layout:

- `src/` — the verified library.
  - `activity.rs`: the two-stream start/stop state machine and its laws.
  - `segmentation.rs`: segment boundaries (flush interval, speaker switch).
  - `recorder.rs`: the recorder as a state machine driven by its caller;
    transcript bookkeeping.
  - `db.rs`: the recordings table, stated as a map from id to row, over
    `rusqlite`.
  - `commands.rs`: what the user-interface commands do with the table.
  - `asr.rs`, `summarization.rs`: backend selection, request building and
    reply handling for transcription and summarization.
  - `clock.rs`, `wav.rs`, `devices.rs`, `text.rs`: timestamps and ids
    (`chrono`, `uuid`), WAV encoding (`hound`), loopback-device choice, and
    string helpers.
- `tests/` — tests of the library.
- `app/` — the desktop application around the library: audio capture,
  settings files, HTTP and process calls, the recorder loop and the window.
