//! The analysis pipeline, one module per component.

pub mod reading;
pub mod text;
pub mod decimal;
pub mod token;
pub mod codes;
pub mod metrics;
pub mod profile;
pub mod codec;
pub mod scoring;
pub mod subscores;
pub mod elite;
pub mod notes;
pub mod cache;
pub mod limiter;
pub mod runner;
pub mod probe;
pub mod ffmpeg;
pub mod report;
