//! Crash-tolerant local cache core for browser/driver version resolution:
//! a cross-process directory-lock state machine and a TTL-indexed metadata
//! store persisted as a single file.

pub mod lock;
pub mod metadata;
