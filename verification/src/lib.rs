//! Audio quality analysis: interpreting an external analysis tool's reports,
//! caching metrics by content fingerprint, and scoring them against a profile.
//!
//! All measurements are carried as fixed-point integers (millionths of the
//! unit), so every score is reproducible bit for bit on every platform.

pub mod analyzer;
