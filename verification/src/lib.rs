//! Verified core of a capture-and-transcribe utility: an audio capture
//! session state machine, a WAV container encoder/decoder for 32-bit float
//! samples, a streaming response reader for `data:`-prefixed event lines,
//! and builders for the outbound chat, transcription and summarization
//! requests.  All I/O (audio devices, HTTP, UI surfaces) lives outside this
//! crate; the functions here compute on plain values and carry contracts.

pub mod api;
pub mod devices;
pub mod errors;
pub mod session;
pub mod sse;
pub mod strutil;
pub mod wav;
