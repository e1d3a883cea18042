//! Download orchestration and transcript transcoding for a remote
//! event-recording service: timestamp formatting, WebVTT encoding, group
//! index files, artifact planning and the per-group download decisions.

pub mod timestamp;
pub mod transcript;
pub mod event;
pub mod layout;
pub mod download;
pub mod api;
pub mod settings;
