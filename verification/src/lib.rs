//! A verified core for a local autocomplete broker: protocol types and their
//! validation, completion postprocessing, context windowing and privacy
//! policy, provider output handling, and the broker's request bookkeeping.

pub mod addons;
pub mod debug_text;
pub mod engine;
pub mod file_uri;
pub mod globs;
pub mod json;
pub mod mock;
pub mod pi;
pub mod policy;
pub mod postprocess;
pub mod protocol;
pub mod redaction;
pub mod provider;
pub mod server;
pub mod text;
