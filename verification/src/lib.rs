//! Core logic of an OpenAI-compatible text-to-speech server, with its contracts and proofs.
pub mod le_bytes;
pub mod ogg_stream;
pub mod opus_stream;
pub mod file_name;
pub mod voice;
pub mod error;
pub mod response_format;
pub mod models;
pub mod app_state;
pub mod tts;
pub mod wav;
pub mod speech;
