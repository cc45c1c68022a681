//! Verified core of an offline push-to-talk speech-to-text tool: the trigger-key
//! state machine, the recording pipeline's decisions, the post-processing of
//! transcriptions, the model-file checks and the download protocol.

pub mod config;
pub mod decimal;
pub mod download;
pub mod hotkey;
pub mod model;
pub mod pipeline;
pub mod punctuation;
pub mod state;
pub mod text;
pub mod transcript;
pub mod tray;
