//! WG-Bridge bootstrap library: an ordered, crash-tolerant logging pipeline
//! and a one-shot TOML configuration loader.

pub mod configuration;
pub mod logger;
pub mod text;
