//! Scribe: the decision logic of a local meeting recorder.
//!
//! The library holds the parts of the recorder that decide and compute:
//! the two-stream activity state machine, segment boundaries, the transcript
//! bookkeeping of a recording in progress, the request and reply handling of
//! the transcription and summarization services, and the recordings table.
pub mod activity;
pub mod segmentation;
pub mod text;
pub mod asr;
pub mod summarization;
pub mod clock;
pub mod db;
pub mod wav;
pub mod recorder;
pub mod commands;
pub mod devices;
