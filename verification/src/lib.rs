//! Session orchestration core for a voice-dictation controller.
//!
//! The crate models the session state machine, the partial-preview loop,
//! the watchdog, the transcription gateway and the text-injection
//! coordinator as verified, synchronous transition functions.  All
//! interaction with the outside world (audio capture, speech-to-text
//! tools, key injection, timers, the UI event channel) is driven by an
//! unverified shell that feeds outcomes back into these functions as
//! plain values.

pub mod app;
pub mod audio;
pub mod config;
pub mod error;
pub mod inject;
pub mod preview;
pub mod state;
pub mod stt;
pub mod text;
